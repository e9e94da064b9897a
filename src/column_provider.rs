//! The column capability: extra columns that the host shows in its list view.

use vstd::prelude::*;
use crate::slots::{SlotBank, SlotSetter, slot_setters, SLOT_CAPACITY};
use crate::text::{c_text, nul_free, to_c_text};

verus! {

/// One extra column: its identifier, the file attribute it shows, and the
/// label and description shown to the user.
pub struct Column {
    pub name: String,
    pub attribute: String,
    pub label: String,
    pub description: String,
}

impl Column {
    pub fn new(name: &str, attribute: &str, label: &str, description: &str) -> (r: Column)
        ensures
            r.name@ == name@,
            r.attribute@ == attribute@,
            r.label@ == label@,
            r.description@ == description@,
    {
        Column {
            name: name.to_string(),
            attribute: attribute.to_string(),
            label: label.to_string(),
            description: description.to_string(),
        }
    }
}

/// Supplies the extra columns of an extension; an empty list means none.
pub trait ColumnProvider {
    fn get_columns(&self) -> Vec<Column>;
}

/// All four texts of `c` can cross the boundary.
pub open spec fn column_crosses(c: Column) -> bool {
    nul_free(c.name@) && nul_free(c.attribute@) && nul_free(c.label@) && nul_free(c.description@)
}

/// A column in host-native form: each text null-terminated.
pub struct NativeColumn {
    pub name: Vec<u8>,
    pub attribute: Vec<u8>,
    pub label: Vec<u8>,
    pub description: Vec<u8>,
}

/// `n` is the host-native form of `c`.
pub open spec fn native_column_of(n: NativeColumn, c: Column) -> bool {
    &&& n.name@ == c_text(c.name@)
    &&& n.attribute@ == c_text(c.attribute@)
    &&& n.label@ == c_text(c.label@)
    &&& n.description@ == c_text(c.description@)
}

impl Column {
    /// The host-native form of this column; `None` where a text holds a NUL.
    pub fn to_native(&self) -> (r: Option<NativeColumn>)
        ensures
            r is Some <==> column_crosses(*self),
            r is Some ==> native_column_of(r->Some_0, *self),
    {
        let name = to_c_text(self.name.as_str());
        let attribute = to_c_text(self.attribute.as_str());
        let label = to_c_text(self.label.as_str());
        let description = to_c_text(self.description.as_str());
        match (name, attribute, label, description) {
            (Some(name), Some(attribute), Some(label), Some(description)) => Some(
                NativeColumn { name, attribute, label, description },
            ),
            _ => None,
        }
    }
}

/// `n` is the host-native form of some column that can cross the boundary.
pub open spec fn is_host_column(n: NativeColumn) -> bool {
    exists|c: Column| column_crosses(c) && native_column_of(n, c)
}

/// The columns handed to the host for `columns`: all of them in host-native
/// form, in order, or none where one of them cannot cross the boundary.
pub fn native_columns(columns: &Vec<Column>) -> (r: Vec<NativeColumn>)
    ensures
        (forall|i: int| 0 <= i < columns@.len() ==> column_crosses(#[trigger] columns@[i])) ==> {
            &&& r@.len() == columns@.len()
            &&& forall|i: int| 0 <= i < r@.len() ==> native_column_of(#[trigger] r@[i], columns@[i])
        },
        !(forall|i: int| 0 <= i < columns@.len() ==> column_crosses(#[trigger] columns@[i]))
            ==> r@.len() == 0,
{
    let n = columns.len();
    let mut r: Vec<NativeColumn> = Vec::new();
    let mut i: usize = 0;
    while i < n
        invariant
            n == columns@.len(),
            i <= n,
            r@.len() == i,
            forall|j: int| 0 <= j < i ==> column_crosses(#[trigger] columns@[j]),
            forall|j: int| 0 <= j < i ==> native_column_of(#[trigger] r@[j], columns@[j]),
        decreases n - i,
    {
        match columns[i].to_native() {
            Some(c) => r.push(c),
            None => {
                return Vec::new();
            },
        }
        i = i + 1;
    }
    r
}

/// The host's request for the columns of `slot`: the slot's provider's
/// columns in host-native form. An empty slot gives none.
pub fn column_provider_get_columns<P: ColumnProvider>(bank: &SlotBank<P>, slot: usize) -> (r: Vec<
    NativeColumn,
>)
    requires
        bank.wf(),
    ensures
        !bank.occupied(slot as int) ==> r@.len() == 0,
        forall|i: int| 0 <= i < r@.len() ==> is_host_column(#[trigger] r@[i]),
{
    match bank.get(slot) {
        Some(p) => {
            let columns = p.get_columns();
            let r = native_columns(&columns);
            assert forall|i: int| 0 <= i < r@.len() implies is_host_column(#[trigger] r@[i]) by {
                assert(column_crosses(columns@[i]) && native_column_of(r@[i], columns@[i]));
            }
            r
        },
        None => Vec::new(),
    }
}

/// Hands out the next column-provider slot index.
pub fn take_next_column_provider_iface_index<P: ColumnProvider>(bank: &mut SlotBank<P>) -> (r:
    usize)
    requires
        old(bank).wf(),
        old(bank).next_index() < usize::MAX,
    ensures
        final(bank).wf(),
        r == old(bank).next_index(),
        final(bank).next_index() == old(bank).next_index() + 1,
        final(bank).cells() == old(bank).cells(),
{
    bank.take_next_index()
}

/// The setters of the column-provider slots, one per slot, in slot order.
pub fn rust_column_provider_setters() -> (r: Vec<SlotSetter>)
    ensures
        r@.len() == SLOT_CAPACITY,
        forall|i: int| 0 <= i < SLOT_CAPACITY ==> r@[i].index == i,
{
    slot_setters()
}

} // verus!
