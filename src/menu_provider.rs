//! The menu capability: context-menu items for a selection of files or for
//! the background of a folder, and their materialization as host menus.

use vstd::prelude::*;
use crate::info_provider::FileInfo;
use crate::slots::{SlotBank, SlotSetter, slot_setters, SLOT_CAPACITY};
use crate::text::{c_text, nul_free, to_c_text};

verus! {

/// An ordered list of menu items.
pub struct Menu {
    menu_items: Vec<MenuItem>,
}

/// One menu entry: identifier, label, tooltip, optional icon name, optional
/// nested menu, and the optional host entry point (by address) that runs
/// when the item is activated.
pub struct MenuItem {
    name: String,
    label: String,
    tip: String,
    icon: Option<String>,
    submenu: Option<Menu>,
    activate_fn: Option<usize>,
}

/// The name of the signal an activation callback is connected to.
pub open spec fn activate_signal() -> Seq<char> {
    "activate"@
}

/// One connection of a host signal to an entry point, with the payload the
/// entry point receives.
pub struct SignalConnection {
    pub signal: String,
    pub callback: usize,
    pub payload: usize,
}

/// A menu in host-native form.
pub struct NativeMenu {
    pub items: Vec<NativeMenuItem>,
}

/// A menu item in host-native form, with its nested menu and the signal
/// connections made on it.
pub struct NativeMenuItem {
    pub name: Vec<u8>,
    pub label: Vec<u8>,
    pub tip: Vec<u8>,
    pub icon: Option<Vec<u8>>,
    pub submenu: Option<NativeMenu>,
    pub connections: Vec<SignalConnection>,
}

impl Menu {
    /// The items of the menu, in order.
    pub closed spec fn items(self) -> Seq<MenuItem> {
        self.menu_items@
    }
}

impl MenuItem {
    pub closed spec fn spec_name(self) -> Seq<char> {
        self.name@
    }

    pub closed spec fn spec_label(self) -> Seq<char> {
        self.label@
    }

    pub closed spec fn spec_tip(self) -> Seq<char> {
        self.tip@
    }

    pub closed spec fn spec_icon(self) -> Option<Seq<char>> {
        match self.icon {
            Some(s) => Some(s@),
            None => None,
        }
    }

    pub closed spec fn spec_submenu(self) -> Option<Menu> {
        self.submenu
    }

    pub closed spec fn spec_activate_fn(self) -> Option<usize> {
        self.activate_fn
    }
}

/// Every text in the item, and in its nested menus, can cross the boundary.
pub closed spec fn item_crosses(m: MenuItem) -> bool
    decreases m,
{
    &&& nul_free(m.name@)
    &&& nul_free(m.label@)
    &&& nul_free(m.tip@)
    &&& match m.icon {
        Some(ic) => nul_free(ic@),
        None => true,
    }
    &&& match m.submenu {
        Some(sm) => menu_crosses(sm),
        None => true,
    }
}

/// Every text in the menu's tree can cross the boundary.
pub closed spec fn menu_crosses(m: Menu) -> bool
    decreases m,
{
    forall|i: int| 0 <= i < m.menu_items@.len() ==> item_crosses(#[trigger] m.menu_items@[i])
}

/// `n` is the connection of the activation signal to `callback`, carrying
/// `payload`.
pub open spec fn activation_of(n: SignalConnection, callback: usize, payload: usize) -> bool {
    n.signal@ == activate_signal() && n.callback == callback && n.payload == payload
}

/// `n` is the host-native form of `m`: same texts, a nested menu exactly
/// where `m` has one and mirroring it, and one activation connection
/// carrying `payload` exactly where `m` has a callback.
pub closed spec fn item_mirrors(n: NativeMenuItem, m: MenuItem, payload: usize) -> bool
    decreases m,
{
    &&& n.name@ == c_text(m.name@)
    &&& n.label@ == c_text(m.label@)
    &&& n.tip@ == c_text(m.tip@)
    &&& match m.icon {
        Some(ic) => n.icon is Some && n.icon->Some_0@ == c_text(ic@),
        None => n.icon is None,
    }
    &&& match m.submenu {
        Some(sm) => n.submenu is Some && items_mirror(n.submenu->Some_0.items@, sm, payload),
        None => n.submenu is None,
    }
    &&& match m.activate_fn {
        Some(cb) => n.connections@.len() == 1 && activation_of(n.connections@[0], cb, payload),
        None => n.connections@.len() == 0,
    }
}

/// `n` holds the host-native forms of the items of `m`, one for one, in
/// order.
pub closed spec fn items_mirror(n: Seq<NativeMenuItem>, m: Menu, payload: usize) -> bool
    decreases m,
{
    &&& n.len() == m.menu_items@.len()
    &&& forall|i: int|
        0 <= i < n.len() ==> item_mirrors(#[trigger] n[i], m.menu_items@[i], payload)
}

impl Menu {
    pub fn new(menu_items: Vec<MenuItem>) -> (r: Menu)
        ensures
            r.items() == menu_items@,
    {
        Menu { menu_items }
    }

    /// The items of this menu in host-native form, for a top-level list;
    /// `None` where a text of the tree cannot cross the boundary.
    pub fn to_g_list(&self, payload: usize) -> (r: Option<Vec<NativeMenuItem>>)
        ensures
            r is Some <==> menu_crosses(*self),
            r is Some ==> items_mirror(r->Some_0@, *self, payload),
        decreases self, 0nat,
    {
        let n = self.menu_items.len();
        let mut items: Vec<NativeMenuItem> = Vec::new();
        let mut i: usize = 0;
        while i < n
            invariant
                n == self.menu_items@.len(),
                i <= n,
                items@.len() == i,
                forall|j: int| 0 <= j < i ==> item_crosses(#[trigger] self.menu_items@[j]),
                forall|j: int|
                    0 <= j < i ==> item_mirrors(#[trigger] items@[j], self.menu_items@[j], payload),
            decreases n - i,
        {
            proof {
                vstd::std_specs::vec::axiom_vec_index_decreases(self.menu_items, i as int);
            }
            match self.menu_items[i].to_native(payload) {
                Some(item) => items.push(item),
                None => {
                    return None;
                },
            }
            i = i + 1;
        }
        proof {
            reveal_with_fuel(menu_crosses, 1);
            reveal_with_fuel(items_mirror, 1);
        }
        Some(items)
    }

    /// This menu in host-native form, for nesting under an item; `None`
    /// where a text of the tree cannot cross the boundary.
    pub fn to_raw(&self, payload: usize) -> (r: Option<NativeMenu>)
        ensures
            r is Some <==> menu_crosses(*self),
            r is Some ==> items_mirror(r->Some_0.items@, *self, payload),
    {
        match self.to_g_list(payload) {
            Some(items) => Some(NativeMenu { items }),
            None => None,
        }
    }
}

impl MenuItem {
    pub fn new(name: &str, label: &str, tip: &str, icon: Option<&str>) -> (r: MenuItem)
        ensures
            r.spec_name() == name@,
            r.spec_label() == label@,
            r.spec_tip() == tip@,
            r.spec_icon() == match icon {
                Some(s) => Some(s@),
                None => None::<Seq<char>>,
            },
            r.spec_submenu() is None,
            r.spec_activate_fn() is None,
    {
        let icon = match icon {
            Some(s) => Some(s.to_string()),
            None => None,
        };
        MenuItem {
            name: name.to_string(),
            label: label.to_string(),
            tip: tip.to_string(),
            icon,
            submenu: None,
            activate_fn: None,
        }
    }

    /// Nests `submenu` under this item, in place of any earlier one.
    pub fn set_submenu(&mut self, submenu: Menu) -> (r: &mut MenuItem)
        ensures
            *final(self) == *final(r),
            r.spec_submenu() == Some(submenu),
            r.spec_name() == old(self).spec_name(),
            r.spec_label() == old(self).spec_label(),
            r.spec_tip() == old(self).spec_tip(),
            r.spec_icon() == old(self).spec_icon(),
            r.spec_activate_fn() == old(self).spec_activate_fn(),
    {
        self.submenu = Some(submenu);
        self
    }

    /// Makes `activate_cb` (an entry point's address) run when the item is
    /// activated, in place of any earlier one.
    pub fn set_activate_cb(&mut self, activate_cb: usize) -> (r: &mut MenuItem)
        ensures
            *final(self) == *final(r),
            r.spec_activate_fn() == Some(activate_cb),
            r.spec_name() == old(self).spec_name(),
            r.spec_label() == old(self).spec_label(),
            r.spec_tip() == old(self).spec_tip(),
            r.spec_icon() == old(self).spec_icon(),
            r.spec_submenu() == old(self).spec_submenu(),
    {
        self.activate_fn = Some(activate_cb);
        self
    }

    /// This item in host-native form; `None` where a text of its tree cannot
    /// cross the boundary.
    fn to_native(&self, payload: usize) -> (r: Option<NativeMenuItem>)
        ensures
            r is Some <==> item_crosses(*self),
            r is Some ==> item_mirrors(r->Some_0, *self, payload),
        decreases self, 0nat,
    {
        proof {
            reveal_with_fuel(item_crosses, 1);
            reveal_with_fuel(item_mirrors, 1);
        }
        let name = to_c_text(self.name.as_str());
        let label = to_c_text(self.label.as_str());
        let tip = to_c_text(self.tip.as_str());
        let (name, label, tip) = match (name, label, tip) {
            (Some(name), Some(label), Some(tip)) => (name, label, tip),
            _ => {
                return None;
            },
        };
        let icon = match &self.icon {
            Some(ic) => match to_c_text(ic.as_str()) {
                Some(c) => Some(c),
                None => {
                    return None;
                },
            },
            None => None,
        };
        let submenu = match &self.submenu {
            Some(sm) => match process_submenu(sm, payload) {
                Some(m) => Some(m),
                None => {
                    return None;
                },
            },
            None => None,
        };
        let mut connections: Vec<SignalConnection> = Vec::new();
        match self.activate_fn {
            Some(cb) => connections.push(connect_activate_signal(cb, payload)),
            None => {},
        }
        Some(NativeMenuItem { name, label, tip, icon, submenu, connections })
    }
}

/// The host-native form of a menu nested under an item.
fn process_submenu(submenu: &Menu, payload: usize) -> (r: Option<NativeMenu>)
    ensures
        r is Some <==> menu_crosses(*submenu),
        r is Some ==> items_mirror(r->Some_0.items@, *submenu, payload),
    decreases submenu, 1nat,
{
    match submenu.to_g_list(payload) {
        Some(items) => Some(NativeMenu { items }),
        None => None,
    }
}

/// The connection of an item's activation signal to `activate_fn`, carrying
/// `payload`.
fn connect_activate_signal(activate_fn: usize, payload: usize) -> (r: SignalConnection)
    ensures
        activation_of(r, activate_fn, payload),
{
    SignalConnection { signal: "activate".to_string(), callback: activate_fn, payload }
}

/// Supplies context-menu items. Both requests offer none unless an
/// implementation says otherwise, so a provider may answer only one.
pub trait MenuProvider {
    /// The items for the selected `files`, shown in the host window `window`.
    fn get_file_items(&self, window: usize, files: &[FileInfo]) -> (r: Vec<MenuItem>)
        default_ensures
            r@.len() == 0,
    {
        Vec::new()
    }

    /// The items for the background of `current_folder`, shown in the host
    /// window `window`.
    fn get_background_items(&self, window: usize, current_folder: &FileInfo) -> (r: Vec<MenuItem>)
        default_ensures
            r@.len() == 0,
    {
        Vec::new()
    }
}

/// The host-native list for the items of a top-level `menu`, whose
/// activations carry `payload`; an empty list where a text cannot cross the
/// boundary.
pub fn native_menu_items(menu: &Menu, payload: usize) -> (r: Vec<NativeMenuItem>)
    ensures
        menu_crosses(*menu) ==> items_mirror(r@, *menu, payload),
        !menu_crosses(*menu) ==> r@.len() == 0,
{
    match menu.to_g_list(payload) {
        Some(list) => list,
        None => Vec::new(),
    }
}

/// The host's request for the file items of `slot`: the slot's provider's
/// items in host-native form, their activations carrying `payload`. An empty
/// slot gives none.
pub fn menu_provider_get_file_items<P: MenuProvider>(
    bank: &SlotBank<P>,
    slot: usize,
    window: usize,
    files: &[FileInfo],
    payload: usize,
) -> (r: Vec<NativeMenuItem>)
    requires
        bank.wf(),
    ensures
        !bank.occupied(slot as int) ==> r@.len() == 0,
        r@.len() == 0 || exists|m: Menu| items_mirror(r@, m, payload),
{
    match bank.get(slot) {
        Some(p) => {
            let menu = Menu::new(p.get_file_items(window, files));
            let r = native_menu_items(&menu, payload);
            assert(r@.len() == 0 || items_mirror(r@, menu, payload));
            r
        },
        None => Vec::new(),
    }
}

/// The host's request for the background items of `slot`: the slot's
/// provider's items in host-native form, their activations carrying
/// `payload`. An empty slot gives none.
pub fn menu_provider_get_background_items<P: MenuProvider>(
    bank: &SlotBank<P>,
    slot: usize,
    window: usize,
    current_folder: &FileInfo,
    payload: usize,
) -> (r: Vec<NativeMenuItem>)
    requires
        bank.wf(),
    ensures
        !bank.occupied(slot as int) ==> r@.len() == 0,
        r@.len() == 0 || exists|m: Menu| items_mirror(r@, m, payload),
{
    match bank.get(slot) {
        Some(p) => {
            let menu = Menu::new(p.get_background_items(window, current_folder));
            let r = native_menu_items(&menu, payload);
            assert(r@.len() == 0 || items_mirror(r@, menu, payload));
            r
        },
        None => Vec::new(),
    }
}

/// Hands out the next menu-provider slot index.
pub fn take_next_menu_provider_iface_index<P: MenuProvider>(bank: &mut SlotBank<P>) -> (r: usize)
    requires
        old(bank).wf(),
        old(bank).next_index() < usize::MAX,
    ensures
        final(bank).wf(),
        r == old(bank).next_index(),
        final(bank).next_index() == old(bank).next_index() + 1,
        final(bank).cells() == old(bank).cells(),
{
    bank.take_next_index()
}

/// The setters of the menu-provider slots, one per slot, in slot order.
pub fn rust_menu_provider_setters() -> (r: Vec<SlotSetter>)
    ensures
        r@.len() == SLOT_CAPACITY,
        forall|i: int| 0 <= i < SLOT_CAPACITY ==> r@[i].index == i,
{
    slot_setters()
}

/// Materializing a menu item keeps its shape: a nested menu becomes a nested
/// host menu with as many entries, each the native form of the matching
/// entry, and an activation callback becomes exactly one connection of the
/// activation signal, carrying the payload; an item without one gets none.
pub proof fn lemma_item_materialization(n: NativeMenuItem, m: MenuItem, payload: usize)
    requires
        item_mirrors(n, m, payload),
    ensures
        n.name@ == c_text(m.spec_name()),
        n.label@ == c_text(m.spec_label()),
        n.tip@ == c_text(m.spec_tip()),
        m.spec_icon() is None <==> n.icon is None,
        m.spec_icon() is Some ==> n.icon->Some_0@ == c_text(m.spec_icon()->Some_0),
        m.spec_submenu() is None <==> n.submenu is None,
        m.spec_submenu() is Some ==> {
            &&& n.submenu->Some_0.items@.len() == m.spec_submenu()->Some_0.items().len()
            &&& forall|i: int|
                0 <= i < n.submenu->Some_0.items@.len() ==> item_mirrors(
                    #[trigger] n.submenu->Some_0.items@[i],
                    m.spec_submenu()->Some_0.items()[i],
                    payload,
                )
        },
        m.spec_activate_fn() is Some ==> n.connections@.len() == 1 && activation_of(
            n.connections@[0],
            m.spec_activate_fn()->Some_0,
            payload,
        ),
        m.spec_activate_fn() is None ==> n.connections@.len() == 0,
{
    reveal_with_fuel(item_mirrors, 1);
    match m.icon {
        Some(ic) => {},
        None => {},
    }
    match m.submenu {
        Some(sm) => {
            reveal_with_fuel(items_mirror, 1);
        },
        None => {},
    }
}

/// Materializing a menu keeps its length and order: entry `i` of the host
/// list is the native form of item `i` of the menu.
pub proof fn lemma_menu_materialization(n: Seq<NativeMenuItem>, m: Menu, payload: usize)
    requires
        items_mirror(n, m, payload),
    ensures
        n.len() == m.items().len(),
        forall|i: int| 0 <= i < n.len() ==> item_mirrors(#[trigger] n[i], m.items()[i], payload),
{
    reveal_with_fuel(items_mirror, 1);
}

/// When a menu item converts: each of its texts is free of NUL, and so is
/// every text of its nested menu, if it has one.
pub proof fn lemma_item_crosses(m: MenuItem)
    ensures
        item_crosses(m) <==> {
            &&& nul_free(m.spec_name())
            &&& nul_free(m.spec_label())
            &&& nul_free(m.spec_tip())
            &&& (m.spec_icon() is Some ==> nul_free(m.spec_icon()->Some_0))
            &&& (m.spec_submenu() is Some ==> menu_crosses(m.spec_submenu()->Some_0))
        },
{
    reveal_with_fuel(item_crosses, 1);
}

/// When a menu converts: every one of its items does.
pub proof fn lemma_menu_crosses(m: Menu)
    ensures
        menu_crosses(m) <==> forall|i: int|
            0 <= i < m.items().len() ==> item_crosses(#[trigger] m.items()[i]),
{
    reveal_with_fuel(menu_crosses, 1);
    assert(m.items() == m.menu_items@);
    if menu_crosses(m) {
        assert forall|i: int| 0 <= i < m.items().len() implies item_crosses(
            #[trigger] m.items()[i],
        ) by {
            assert(item_crosses(m.menu_items@[i]));
        }
    }
}

/// The number of items with an activation callback in `m` and its nested
/// menus.
pub closed spec fn item_callbacks(m: MenuItem) -> nat
    decreases m, 1nat,
{
    (if m.activate_fn is Some {
        1nat
    } else {
        0nat
    }) + match m.submenu {
        Some(sm) => menu_callbacks(sm, sm.menu_items@.len() as int),
        None => 0nat,
    }
}

/// The number of items with an activation callback among the first `k`
/// items of `m`, nested menus included.
pub closed spec fn menu_callbacks(m: Menu, k: int) -> nat
    decreases m, k,
{
    if k <= 0 || k > m.menu_items@.len() {
        0nat
    } else {
        menu_callbacks(m, k - 1) + item_callbacks(m.menu_items@[k - 1])
    }
}

/// The number of signal connections on `n` and in its nested menus.
pub closed spec fn item_connections(n: NativeMenuItem) -> nat
    decreases n, 1nat,
{
    n.connections@.len() + match n.submenu {
        Some(sm) => menu_connections(sm, sm.items@.len() as int),
        None => 0nat,
    }
}

/// The number of signal connections among the first `k` items of `n`,
/// nested menus included.
pub closed spec fn menu_connections(n: NativeMenu, k: int) -> nat
    decreases n, k,
{
    if k <= 0 || k > n.items@.len() {
        0nat
    } else {
        menu_connections(n, k - 1) + item_connections(n.items@[k - 1])
    }
}

proof fn lemma_item_counts(n: NativeMenuItem, m: MenuItem, payload: usize)
    requires
        item_mirrors(n, m, payload),
    ensures
        item_connections(n) == item_callbacks(m),
    decreases m, 1nat,
{
    reveal_with_fuel(item_mirrors, 1);
    reveal_with_fuel(item_connections, 1);
    reveal_with_fuel(item_callbacks, 1);
    match m.submenu {
        Some(sm) => {
            let ns = n.submenu->Some_0;
            reveal_with_fuel(items_mirror, 1);
            lemma_menu_counts(ns, sm, payload, sm.menu_items@.len() as int);
        },
        None => {},
    }
}

proof fn lemma_menu_counts(n: NativeMenu, m: Menu, payload: usize, k: int)
    requires
        items_mirror(n.items@, m, payload),
        0 <= k <= m.menu_items@.len(),
    ensures
        menu_connections(n, k) == menu_callbacks(m, k),
    decreases m, k,
{
    reveal_with_fuel(items_mirror, 1);
    reveal_with_fuel(menu_connections, 1);
    reveal_with_fuel(menu_callbacks, 1);
    if k > 0 {
        lemma_menu_counts(n, m, payload, k - 1);
        vstd::std_specs::vec::axiom_vec_index_decreases(m.menu_items, k - 1);
        lemma_item_counts(n.items@[k - 1], m.menu_items@[k - 1], payload);
    }
}

/// Materializing a menu makes exactly one signal connection per item with
/// an activation callback, over the whole tree, nested menus included.
pub proof fn lemma_connection_count(n: NativeMenu, m: Menu, payload: usize)
    requires
        items_mirror(n.items@, m, payload),
    ensures
        menu_connections(n, n.items@.len() as int) == menu_callbacks(m, m.items().len() as int),
{
    reveal_with_fuel(items_mirror, 1);
    lemma_menu_counts(n, m, payload, m.menu_items@.len() as int);
}

} // verus!
