//! The extension module: the providers it registers, and the plan for the
//! one composite type that carries their interfaces to the host.

use vstd::prelude::*;
use crate::column_provider::ColumnProvider;
use crate::info_provider::InfoProvider;
use crate::menu_provider::MenuProvider;
use crate::property_page_provider::PropertyPageProvider;
use crate::slots::{
    SlotBank,
    RegistrationError,
    registration_outcome,
    counter_after_registration,
};
use crate::text::{c_text, nul_free, to_c_text};

verus! {

/// The capability kinds, one host interface each.
#[derive(Debug, Clone, Copy, PartialEq, Eq, Structural)]
pub enum ProviderKind {
    Column,
    Info,
    Menu,
    PropertyPage,
}

/// The interface descriptor of one registered slot: the host initializes the
/// interface through that slot's entry point.
#[derive(Debug, Clone, Copy, PartialEq, Eq, Structural)]
pub struct InterfaceInfo {
    pub slot: usize,
}

/// One interface to attach to the composite type.
#[derive(Debug, Clone, Copy, PartialEq, Eq, Structural)]
pub struct InterfaceBinding {
    pub kind: ProviderKind,
    pub slot: usize,
}

/// What registering the composite type hands to the host: the module, the
/// type's name in host-native form, and the interfaces to attach, in order.
pub struct TypeRegistration {
    pub module: usize,
    pub name: Vec<u8>,
    pub interfaces: Vec<InterfaceBinding>,
}

/// A module of the host (by handle) and the interface descriptors of the
/// providers registered through it, per kind, in order of registration.
pub struct NautilusModule {
    module: usize,
    name: String,
    column_provider_iface_infos: Vec<InterfaceInfo>,
    info_provider_iface_infos: Vec<InterfaceInfo>,
    menu_provider_iface_infos: Vec<InterfaceInfo>,
    property_page_provider_iface_infos: Vec<InterfaceInfo>,
}

/// The slots of `infos`, in order.
pub open spec fn slots_of(infos: Seq<InterfaceInfo>) -> Seq<usize> {
    infos.map_values(|i: InterfaceInfo| i.slot)
}

/// The bindings of kind `kind` for `slots`, in order.
pub open spec fn bindings_of(kind: ProviderKind, slots: Seq<usize>) -> Seq<InterfaceBinding> {
    slots.map_values(|s: usize| InterfaceBinding { kind, slot: s })
}

impl NautilusModule {
    pub closed spec fn handle(self) -> usize {
        self.module
    }

    pub closed spec fn module_name(self) -> Seq<char> {
        self.name@
    }

    /// The registered slots of `kind`, in order of registration.
    pub closed spec fn slots(self, kind: ProviderKind) -> Seq<usize> {
        match kind {
            ProviderKind::Column => slots_of(self.column_provider_iface_infos@),
            ProviderKind::Info => slots_of(self.info_provider_iface_infos@),
            ProviderKind::Menu => slots_of(self.menu_provider_iface_infos@),
            ProviderKind::PropertyPage => slots_of(self.property_page_provider_iface_infos@),
        }
    }

    /// The interfaces the composite type gets: columns, then info, menu and
    /// property-page providers, each kind in order of registration.
    pub open spec fn all_bindings(self) -> Seq<InterfaceBinding> {
        bindings_of(ProviderKind::Column, self.slots(ProviderKind::Column)) + bindings_of(
            ProviderKind::Info,
            self.slots(ProviderKind::Info),
        ) + bindings_of(ProviderKind::Menu, self.slots(ProviderKind::Menu)) + bindings_of(
            ProviderKind::PropertyPage,
            self.slots(ProviderKind::PropertyPage),
        )
    }

    /// A module for the host module `module` whose type is named `name`, with
    /// no provider yet.
    pub fn new(module: usize, name: &str) -> (r: NautilusModule)
        ensures
            r.handle() == module,
            r.module_name() == name@,
            forall|k: ProviderKind| r.slots(k) == Seq::<usize>::empty(),
    {
        let r = NautilusModule {
            module,
            name: name.to_string(),
            column_provider_iface_infos: Vec::new(),
            info_provider_iface_infos: Vec::new(),
            menu_provider_iface_infos: Vec::new(),
            property_page_provider_iface_infos: Vec::new(),
        };
        assert forall|k: ProviderKind| r.slots(k) == Seq::<usize>::empty() by {
            assert(r.slots(k) =~= Seq::<usize>::empty());
        }
        r
    }

    /// Registers a column provider in `bank` and records its slot.
    pub fn add_column_provider<P: ColumnProvider>(&mut self, bank: &mut SlotBank<P>, column_provider: P) -> (r:
        Result<usize, RegistrationError>)
        requires
            old(bank).wf(),
        ensures
            final(bank).wf(),
            r == registration_outcome(old(bank).next_index()),
            final(bank).next_index() == counter_after_registration(old(bank).next_index()),
            r is Ok ==> final(bank).cells() == old(bank).cells().update(
                r->Ok_0 as int,
                Some(column_provider),
            ),
            r is Err ==> final(bank).cells() == old(bank).cells(),
            final(self).slots(ProviderKind::Column) == if r is Ok {
                old(self).slots(ProviderKind::Column).push(r->Ok_0)
            } else {
                old(self).slots(ProviderKind::Column)
            },
            forall|k: ProviderKind|
                k != ProviderKind::Column ==> final(self).slots(k) == old(self).slots(k),
            final(self).handle() == old(self).handle(),
            final(self).module_name() == old(self).module_name(),
    {
        let r = bank.register(column_provider);
        match r {
            Ok(slot) => {
                self.column_provider_iface_infos.push(InterfaceInfo { slot });
                assert(self.slots(ProviderKind::Column) =~= old(self).slots(ProviderKind::Column).push(slot));
            },
            Err(_) => {},
        }
        r
    }

    /// Registers an info provider in `bank` and records its slot.
    pub fn add_info_provider<P: InfoProvider>(&mut self, bank: &mut SlotBank<P>, info_provider: P) -> (r:
        Result<usize, RegistrationError>)
        requires
            old(bank).wf(),
        ensures
            final(bank).wf(),
            r == registration_outcome(old(bank).next_index()),
            final(bank).next_index() == counter_after_registration(old(bank).next_index()),
            r is Ok ==> final(bank).cells() == old(bank).cells().update(
                r->Ok_0 as int,
                Some(info_provider),
            ),
            r is Err ==> final(bank).cells() == old(bank).cells(),
            final(self).slots(ProviderKind::Info) == if r is Ok {
                old(self).slots(ProviderKind::Info).push(r->Ok_0)
            } else {
                old(self).slots(ProviderKind::Info)
            },
            forall|k: ProviderKind|
                k != ProviderKind::Info ==> final(self).slots(k) == old(self).slots(k),
            final(self).handle() == old(self).handle(),
            final(self).module_name() == old(self).module_name(),
    {
        let r = bank.register(info_provider);
        match r {
            Ok(slot) => {
                self.info_provider_iface_infos.push(InterfaceInfo { slot });
                assert(self.slots(ProviderKind::Info) =~= old(self).slots(ProviderKind::Info).push(slot));
            },
            Err(_) => {},
        }
        r
    }

    /// Registers a menu provider in `bank` and records its slot.
    pub fn add_menu_provider<P: MenuProvider>(&mut self, bank: &mut SlotBank<P>, menu_provider: P) -> (r:
        Result<usize, RegistrationError>)
        requires
            old(bank).wf(),
        ensures
            final(bank).wf(),
            r == registration_outcome(old(bank).next_index()),
            final(bank).next_index() == counter_after_registration(old(bank).next_index()),
            r is Ok ==> final(bank).cells() == old(bank).cells().update(
                r->Ok_0 as int,
                Some(menu_provider),
            ),
            r is Err ==> final(bank).cells() == old(bank).cells(),
            final(self).slots(ProviderKind::Menu) == if r is Ok {
                old(self).slots(ProviderKind::Menu).push(r->Ok_0)
            } else {
                old(self).slots(ProviderKind::Menu)
            },
            forall|k: ProviderKind|
                k != ProviderKind::Menu ==> final(self).slots(k) == old(self).slots(k),
            final(self).handle() == old(self).handle(),
            final(self).module_name() == old(self).module_name(),
    {
        let r = bank.register(menu_provider);
        match r {
            Ok(slot) => {
                self.menu_provider_iface_infos.push(InterfaceInfo { slot });
                assert(self.slots(ProviderKind::Menu) =~= old(self).slots(ProviderKind::Menu).push(slot));
            },
            Err(_) => {},
        }
        r
    }

    /// Registers a property-page provider in `bank` and records its slot.
    pub fn add_property_page_provider<P: PropertyPageProvider>(&mut self, bank: &mut SlotBank<P>, property_page_provider: P) -> (r:
        Result<usize, RegistrationError>)
        requires
            old(bank).wf(),
        ensures
            final(bank).wf(),
            r == registration_outcome(old(bank).next_index()),
            final(bank).next_index() == counter_after_registration(old(bank).next_index()),
            r is Ok ==> final(bank).cells() == old(bank).cells().update(
                r->Ok_0 as int,
                Some(property_page_provider),
            ),
            r is Err ==> final(bank).cells() == old(bank).cells(),
            final(self).slots(ProviderKind::PropertyPage) == if r is Ok {
                old(self).slots(ProviderKind::PropertyPage).push(r->Ok_0)
            } else {
                old(self).slots(ProviderKind::PropertyPage)
            },
            forall|k: ProviderKind|
                k != ProviderKind::PropertyPage ==> final(self).slots(k) == old(self).slots(k),
            final(self).handle() == old(self).handle(),
            final(self).module_name() == old(self).module_name(),
    {
        let r = bank.register(property_page_provider);
        match r {
            Ok(slot) => {
                self.property_page_provider_iface_infos.push(InterfaceInfo { slot });
                assert(self.slots(ProviderKind::PropertyPage) =~= old(self).slots(ProviderKind::PropertyPage).push(slot));
            },
            Err(_) => {},
        }
        r
    }

    /// The registration of the composite type: the module, the type's name in
    /// host-native form, and every recorded interface; `None` where the name
    /// cannot cross the boundary.
    pub fn register(&self) -> (r: Option<TypeRegistration>)
        ensures
            r is Some <==> nul_free(self.module_name()),
            r is Some ==> {
                &&& r->Some_0.module == self.handle()
                &&& r->Some_0.name@ == c_text(self.module_name())
                &&& r->Some_0.interfaces@ == self.all_bindings()
            },
    {
        let name = match to_c_text(self.name.as_str()) {
            Some(name) => name,
            None => {
                return None;
            },
        };
        let mut interfaces: Vec<InterfaceBinding> = Vec::new();
        append_bindings(&mut interfaces, ProviderKind::Column, &self.column_provider_iface_infos);
        append_bindings(&mut interfaces, ProviderKind::Info, &self.info_provider_iface_infos);
        append_bindings(&mut interfaces, ProviderKind::Menu, &self.menu_provider_iface_infos);
        append_bindings(
            &mut interfaces,
            ProviderKind::PropertyPage,
            &self.property_page_provider_iface_infos,
        );
        Some(TypeRegistration { module: self.module, name, interfaces })
    }
}

/// Appends a binding of kind `kind` for each descriptor of `infos`, in order.
fn append_bindings(out: &mut Vec<InterfaceBinding>, kind: ProviderKind, infos: &Vec<InterfaceInfo>)
    ensures
        final(out)@ == old(out)@ + bindings_of(kind, slots_of(infos@)),
{
    let ghost start = out@;
    let n = infos.len();
    let mut i: usize = 0;
    while i < n
        invariant
            n == infos@.len(),
            i <= n,
            out@ == start + bindings_of(kind, slots_of(infos@.take(i as int))),
        decreases n - i,
    {
        out.push(InterfaceBinding { kind, slot: infos[i].slot });
        assert(bindings_of(kind, slots_of(infos@.take(i as int + 1))) =~= bindings_of(
            kind,
            slots_of(infos@.take(i as int)),
        ).push(InterfaceBinding { kind, slot: infos@[i as int].slot }));
        i = i + 1;
    }
    assert(infos@.take(n as int) =~= infos@);
}

} // verus!
