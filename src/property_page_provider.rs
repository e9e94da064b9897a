//! The property-page capability: extra pages in the host's file properties
//! dialog.

use vstd::prelude::*;
use crate::info_provider::FileInfo;
use crate::slots::{SlotBank, SlotSetter, slot_setters, SLOT_CAPACITY};
use crate::text::{c_text, nul_free, to_c_text};

verus! {

/// One page: its name, and the host widgets (by handle) of its tab label
/// and of its content, passed through unchanged.
pub struct PropertyPage {
    pub name: String,
    pub raw_label: usize,
    pub raw_page: usize,
}

impl PropertyPage {
    pub fn new(name: &str, raw_label: usize, raw_page: usize) -> (r: PropertyPage)
        ensures
            r.name@ == name@,
            r.raw_label == raw_label,
            r.raw_page == raw_page,
    {
        PropertyPage { name: name.to_string(), raw_label, raw_page }
    }
}

/// Supplies the property pages for a selection of files.
pub trait PropertyPageProvider {
    fn get_pages(&self, files: &Vec<FileInfo>) -> Vec<PropertyPage>;
}

/// A page in host-native form.
pub struct NativePropertyPage {
    pub name: Vec<u8>,
    pub raw_label: usize,
    pub raw_page: usize,
}

/// `n` is the host-native form of `p`.
pub open spec fn native_page_of(n: NativePropertyPage, p: PropertyPage) -> bool {
    &&& n.name@ == c_text(p.name@)
    &&& n.raw_label == p.raw_label
    &&& n.raw_page == p.raw_page
}

/// `n` is the host-native form of some page whose name can cross the
/// boundary.
pub open spec fn is_host_page(n: NativePropertyPage) -> bool {
    exists|p: PropertyPage| nul_free(p.name@) && native_page_of(n, p)
}

/// The pages handed to the host for `pages`: all of them in host-native form,
/// in order, or none where a name cannot cross the boundary.
pub fn native_pages(pages: &Vec<PropertyPage>) -> (r: Vec<NativePropertyPage>)
    ensures
        (forall|i: int| 0 <= i < pages@.len() ==> nul_free((#[trigger] pages@[i]).name@)) ==> {
            &&& r@.len() == pages@.len()
            &&& forall|i: int| 0 <= i < r@.len() ==> native_page_of(#[trigger] r@[i], pages@[i])
        },
        !(forall|i: int| 0 <= i < pages@.len() ==> nul_free((#[trigger] pages@[i]).name@))
            ==> r@.len() == 0,
{
    let n = pages.len();
    let mut r: Vec<NativePropertyPage> = Vec::new();
    let mut i: usize = 0;
    while i < n
        invariant
            n == pages@.len(),
            i <= n,
            r@.len() == i,
            forall|j: int| 0 <= j < i ==> nul_free((#[trigger] pages@[j]).name@),
            forall|j: int| 0 <= j < i ==> native_page_of(#[trigger] r@[j], pages@[j]),
        decreases n - i,
    {
        let page = &pages[i];
        match to_c_text(page.name.as_str()) {
            Some(name) => r.push(
                NativePropertyPage { name, raw_label: page.raw_label, raw_page: page.raw_page },
            ),
            None => {
                return Vec::new();
            },
        }
        i = i + 1;
    }
    r
}

/// The host's request for the pages of `slot` for `files`: the slot's
/// provider's pages in host-native form. An empty slot gives none.
pub fn property_page_provider_get_pages<P: PropertyPageProvider>(
    bank: &SlotBank<P>,
    slot: usize,
    files: &Vec<FileInfo>,
) -> (r: Vec<NativePropertyPage>)
    requires
        bank.wf(),
    ensures
        !bank.occupied(slot as int) ==> r@.len() == 0,
        forall|i: int| 0 <= i < r@.len() ==> is_host_page(#[trigger] r@[i]),
{
    match bank.get(slot) {
        Some(p) => {
            let pages = p.get_pages(files);
            let r = native_pages(&pages);
            assert forall|i: int| 0 <= i < r@.len() implies is_host_page(#[trigger] r@[i]) by {
                assert(nul_free(pages@[i].name@) && native_page_of(r@[i], pages@[i]));
            }
            r
        },
        None => Vec::new(),
    }
}

/// Hands out the next property-page-provider slot index.
pub fn take_next_property_page_provider_iface_index<P: PropertyPageProvider>(
    bank: &mut SlotBank<P>,
) -> (r: usize)
    requires
        old(bank).wf(),
        old(bank).next_index() < usize::MAX,
    ensures
        final(bank).wf(),
        r == old(bank).next_index(),
        final(bank).next_index() == old(bank).next_index() + 1,
        final(bank).cells() == old(bank).cells(),
{
    bank.take_next_index()
}

/// The setters of the property-page-provider slots, one per slot, in slot
/// order.
pub fn rust_property_page_provider_setters() -> (r: Vec<SlotSetter>)
    ensures
        r@.len() == SLOT_CAPACITY,
        forall|i: int| 0 <= i < SLOT_CAPACITY ==> r@[i].index == i,
{
    slot_setters()
}

} // verus!
