//! Fixed banks of registration slots, one bank per capability kind.
//!
//! Each slot stands for one host entry point known ahead of time. A bank hands
//! out slot indices in increasing order and never reuses one; a registration
//! beyond the last slot fails instead of overwriting.

use vstd::prelude::*;

verus! {

/// The number of slots in each bank: how many implementations of one kind a
/// module can register.
pub const SLOT_CAPACITY: usize = 10;

/// Why a registration was refused.
#[derive(Debug, Clone, Copy, PartialEq, Eq, Structural)]
pub enum RegistrationError {
    /// Every slot of the bank has been handed out.
    CapacityExceeded,
}

/// What a registration on a bank whose counter stands at `next` returns.
pub open spec fn registration_outcome(next: nat) -> Result<usize, RegistrationError> {
    if next < SLOT_CAPACITY {
        Ok(next as usize)
    } else {
        Err(RegistrationError::CapacityExceeded)
    }
}

/// Where a bank's counter stands after one registration from `next`.
pub open spec fn counter_after_registration(next: nat) -> nat {
    if next < SLOT_CAPACITY {
        next + 1
    } else {
        next
    }
}

/// Where the counter of a fresh bank stands after `n` registrations.
pub open spec fn counter_after(n: nat) -> nat
    decreases n,
{
    if n == 0 {
        0
    } else {
        counter_after_registration(counter_after((n - 1) as nat))
    }
}

/// What the `n`-th registration (counting from zero) on a fresh bank returns.
pub open spec fn nth_registration(n: nat) -> Result<usize, RegistrationError> {
    registration_outcome(counter_after(n))
}

/// A bank of `SLOT_CAPACITY` storage cells, each holding at most one
/// implementation, and the counter that hands out the next index.
pub struct SlotBank<P> {
    cells: Vec<Option<P>>,
    next: usize,
}

impl<P> SlotBank<P> {
    /// The bank's shape: one cell per slot, and no cell past the counter filled.
    pub closed spec fn wf(self) -> bool {
        &&& self.cells@.len() == SLOT_CAPACITY
        &&& forall|i: int| self.next <= i < self.cells@.len() ==> self.cells@[i] is None
    }

    /// The contents of the cells, by slot index.
    pub closed spec fn cells(self) -> Seq<Option<P>> {
        self.cells@
    }

    /// The next index the counter hands out.
    pub closed spec fn next_index(self) -> nat {
        self.next as nat
    }

    /// Slot `i` holds an implementation.
    pub open spec fn occupied(self, i: int) -> bool {
        0 <= i < self.cells().len() && self.cells()[i] is Some
    }

    /// A bank with every cell empty and the counter at zero.
    pub fn new() -> (r: SlotBank<P>)
        ensures
            r.wf(),
            r.next_index() == 0,
            r.cells().len() == SLOT_CAPACITY,
            forall|i: int| 0 <= i < SLOT_CAPACITY ==> r.cells()[i] is None,
    {
        let mut cells: Vec<Option<P>> = Vec::new();
        let mut i: usize = 0;
        while i < SLOT_CAPACITY
            invariant
                i <= SLOT_CAPACITY,
                cells@.len() == i,
                forall|j: int| 0 <= j < i ==> cells@[j] is None,
            decreases SLOT_CAPACITY - i,
        {
            cells.push(None);
            i = i + 1;
        }
        SlotBank { cells, next: 0 }
    }

    /// Hands out the next slot index and advances the counter.
    pub fn take_next_index(&mut self) -> (r: usize)
        requires
            old(self).wf(),
            old(self).next_index() < usize::MAX,
        ensures
            final(self).wf(),
            r == old(self).next_index(),
            final(self).next_index() == old(self).next_index() + 1,
            final(self).cells() == old(self).cells(),
    {
        let r = self.next;
        self.next = self.next + 1;
        r
    }

    /// Stores `provider` in slot `index`, which the counter has handed out.
    pub fn install(&mut self, index: usize, provider: P)
        requires
            old(self).wf(),
            index < old(self).next_index(),
            index < SLOT_CAPACITY,
        ensures
            final(self).wf(),
            final(self).next_index() == old(self).next_index(),
            final(self).cells() == old(self).cells().update(index as int, Some(provider)),
    {
        self.cells.set(index, Some(provider));
    }

    /// Claims the next free slot for `provider`: the slot's index, or
    /// `CapacityExceeded` with the bank unchanged once every slot is taken.
    pub fn register(&mut self, provider: P) -> (r: Result<usize, RegistrationError>)
        requires
            old(self).wf(),
        ensures
            final(self).wf(),
            r == registration_outcome(old(self).next_index()),
            final(self).next_index() == counter_after_registration(old(self).next_index()),
            r is Ok ==> final(self).cells() == old(self).cells().update(
                r->Ok_0 as int,
                Some(provider),
            ),
            r is Err ==> final(self).cells() == old(self).cells(),
    {
        if self.next >= SLOT_CAPACITY {
            return Err(RegistrationError::CapacityExceeded);
        }
        let index = self.take_next_index();
        self.install(index, provider);
        Ok(index)
    }

    /// The implementation stored in slot `index`, if any; `None` for an empty
    /// slot or an index past the bank.
    pub fn get(&self, index: usize) -> (r: Option<&P>)
        requires
            self.wf(),
        ensures
            r.is_some() <==> self.occupied(index as int),
            r.is_some() ==> *r.unwrap() == self.cells()[index as int]->Some_0,
    {
        if index < self.cells.len() {
            match &self.cells[index] {
                Some(p) => Some(p),
                None => None,
            }
        } else {
            None
        }
    }
}

/// One entry of a bank's table of setters: it installs an implementation
/// into the slot it is bound to.
#[derive(Debug, Clone, Copy, PartialEq, Eq, Structural)]
pub struct SlotSetter {
    pub index: usize,
}

impl SlotSetter {
    /// Stores `provider` in this setter's slot.
    pub fn set<P>(&self, bank: &mut SlotBank<P>, provider: P)
        requires
            old(bank).wf(),
            self.index < old(bank).next_index(),
            self.index < SLOT_CAPACITY,
        ensures
            final(bank).wf(),
            final(bank).next_index() == old(bank).next_index(),
            final(bank).cells() == old(bank).cells().update(self.index as int, Some(provider)),
    {
        bank.install(self.index, provider);
    }
}

/// The table of setters of a bank, one per slot, in slot order.
pub fn slot_setters() -> (r: Vec<SlotSetter>)
    ensures
        r@.len() == SLOT_CAPACITY,
        forall|i: int| 0 <= i < SLOT_CAPACITY ==> r@[i].index == i,
{
    let mut r: Vec<SlotSetter> = Vec::new();
    let mut i: usize = 0;
    while i < SLOT_CAPACITY
        invariant
            i <= SLOT_CAPACITY,
            r@.len() == i,
            forall|j: int| 0 <= j < i ==> r@[j].index == j,
        decreases SLOT_CAPACITY - i,
    {
        r.push(SlotSetter { index: i });
        i = i + 1;
    }
    r
}

/// Registrations on a fresh bank: each of the first `SLOT_CAPACITY` succeeds
/// with its own slot, in order, and every later one fails with
/// `CapacityExceeded`.
pub proof fn lemma_registration_capacity(m: nat, n: nat)
    ensures
        m < SLOT_CAPACITY ==> nth_registration(m) == Ok::<usize, RegistrationError>(m as usize),
        m < n < SLOT_CAPACITY ==> nth_registration(m) != nth_registration(n),
        m >= SLOT_CAPACITY ==> nth_registration(m) == Err::<usize, RegistrationError>(
            RegistrationError::CapacityExceeded,
        ),
{
    lemma_counter_after(m);
    lemma_counter_after(n);
}

proof fn lemma_counter_after(n: nat)
    ensures
        counter_after(n) == if n < SLOT_CAPACITY { n } else { SLOT_CAPACITY as nat },
    decreases n,
{
    if n > 0 {
        lemma_counter_after((n - 1) as nat);
    }
}

/// The shape of a well-formed bank: one cell per slot, and every cell at or
/// past the counter empty.
pub proof fn lemma_bank_shape<P>(bank: SlotBank<P>)
    requires
        bank.wf(),
    ensures
        bank.cells().len() == SLOT_CAPACITY,
        forall|i: int| bank.next_index() <= i < bank.cells().len() ==> bank.cells()[i] is None,
{
}

} // verus!
