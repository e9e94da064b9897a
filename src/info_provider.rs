//! The file-info capability: decorating files with string attributes, and
//! the protocol that runs the decoration off the host's thread.

use vstd::prelude::*;
use crate::slots::{SlotBank, SlotSetter, slot_setters, SLOT_CAPACITY};
use crate::text::{c_text, nul_free, read_c_text, to_c_text, lemma_c_text_round_trip};

verus! {

/// A file handed over by the host: the host's record (by handle), its URI
/// and URI scheme as the host reported them, and the string attributes an
/// extension adds to it, each name at most once, in the order first added.
pub struct FileInfo {
    raw_file_info: usize,
    uri: String,
    uri_scheme: String,
    attributes: Vec<(String, String)>,
}

/// No name occurs twice in `entries`.
pub open spec fn names_distinct(entries: Seq<(Seq<char>, Seq<char>)>) -> bool {
    forall|i: int, j: int|
        0 <= i < j < entries.len() ==> #[trigger] entries[i].0 != #[trigger] entries[j].0
}

/// Some entry of `entries` has the name `name`.
pub open spec fn has_attribute(entries: Seq<(Seq<char>, Seq<char>)>, name: Seq<char>) -> bool {
    exists|i: int| 0 <= i < entries.len() && entries[i].0 == name
}

/// The position of an entry named `name`, where `has_attribute` holds.
pub open spec fn attribute_position(entries: Seq<(Seq<char>, Seq<char>)>, name: Seq<char>) -> int {
    choose|i: int| 0 <= i < entries.len() && entries[i].0 == name
}

/// The entries after setting `name` to `value`: the value is replaced where
/// the name is present, else the pair is appended.
pub open spec fn set_attribute(
    entries: Seq<(Seq<char>, Seq<char>)>,
    name: Seq<char>,
    value: Seq<char>,
) -> Seq<(Seq<char>, Seq<char>)> {
    if has_attribute(entries, name) {
        entries.update(attribute_position(entries, name), (name, value))
    } else {
        entries.push((name, value))
    }
}

impl FileInfo {
    #[verifier::type_invariant]
    spec fn inv(self) -> bool {
        names_distinct(self.attributes())
    }

    /// The attributes added so far, as (name, value) pairs in order.
    pub closed spec fn attributes(self) -> Seq<(Seq<char>, Seq<char>)> {
        self.attributes@.map_values(|e: (String, String)| (e.0@, e.1@))
    }

    /// The handle of the host's record.
    pub closed spec fn handle(self) -> usize {
        self.raw_file_info
    }

    /// The URI the host reported.
    pub closed spec fn uri(self) -> Seq<char> {
        self.uri@
    }

    /// The URI scheme the host reported.
    pub closed spec fn uri_scheme(self) -> Seq<char> {
        self.uri_scheme@
    }

    /// A file for the host record `raw_file_info`, with no attributes yet.
    pub fn new(raw_file_info: usize, uri: &str, uri_scheme: &str) -> (r: FileInfo)
        ensures
            r.handle() == raw_file_info,
            r.uri() == uri@,
            r.uri_scheme() == uri_scheme@,
            r.attributes() == Seq::<(Seq<char>, Seq<char>)>::empty(),
    {
        let r = FileInfo {
            raw_file_info,
            uri: uri.to_string(),
            uri_scheme: uri_scheme.to_string(),
            attributes: Vec::new(),
        };
        assert(r.attributes() =~= Seq::<(Seq<char>, Seq<char>)>::empty());
        r
    }

    pub fn raw_file_info(&self) -> (r: usize)
        ensures
            r == self.handle(),
    {
        self.raw_file_info
    }

    pub fn get_uri(&self) -> (r: String)
        ensures
            r@ == self.uri(),
    {
        self.uri.clone()
    }

    pub fn get_uri_scheme(&self) -> (r: String)
        ensures
            r@ == self.uri_scheme(),
    {
        self.uri_scheme.clone()
    }

    /// The attributes added so far, in order.
    pub fn attribute_entries(&self) -> (r: Vec<(String, String)>)
        ensures
            names_distinct(self.attributes()),
            r@.len() == self.attributes().len(),
            forall|i: int|
                0 <= i < r@.len() ==> (#[trigger] r@[i]).0@ == self.attributes()[i].0 && r@[i].1@
                    == self.attributes()[i].1,
    {
        proof { use_type_invariant(self); }
        let n = self.attributes.len();
        let mut r: Vec<(String, String)> = Vec::new();
        let mut i: usize = 0;
        while i < n
            invariant
                n == self.attributes@.len(),
                i <= n,
                r@.len() == i,
                forall|j: int|
                    0 <= j < i ==> (#[trigger] r@[j]).0@ == self.attributes()[j].0 && r@[j].1@
                        == self.attributes()[j].1,
            decreases n - i,
        {
            let (name, value) = &self.attributes[i];
            r.push((name.clone(), value.clone()));
            i = i + 1;
        }
        r
    }

    /// Sets attribute `name` to `value`, replacing an earlier value of the
    /// same name.
    pub fn add_attribute(&mut self, name: &str, value: &str) -> (r: &mut FileInfo)
        ensures
            r.attributes() == set_attribute(old(self).attributes(), name@, value@),
            names_distinct(r.attributes()),
            r.handle() == old(self).handle(),
            r.uri() == old(self).uri(),
            r.uri_scheme() == old(self).uri_scheme(),
            *final(self) == *final(r),
    {
        proof { use_type_invariant(&*self); }
        let ghost old_entries = self.attributes();
        let key = name.to_string();
        let n = self.attributes.len();
        let mut rebuilt: Vec<(String, String)> = Vec::new();
        let mut found = false;
        let mut i: usize = 0;
        while i < n
            invariant
                n == self.attributes@.len(),
                old_entries == self.attributes(),
                key@ == name@,
                names_distinct(old_entries),
                i <= n,
                rebuilt@.len() == i,
                found <==> exists|j: int| 0 <= j < i && old_entries[j].0 == name@,
                forall|j: int|
                    0 <= j < i ==> (#[trigger] rebuilt@[j]).0@ == old_entries[j].0 && rebuilt@[j].1@
                        == (if old_entries[j].0 == name@ { value@ } else { old_entries[j].1 }),
            decreases n - i,
        {
            let (k, v) = &self.attributes[i];
            assert(old_entries[i as int] == (k@, v@));
            if *k == key {
                rebuilt.push((key.clone(), value.to_string()));
                found = true;
            } else {
                rebuilt.push((k.clone(), v.clone()));
            }
            i = i + 1;
        }
        if !found {
            rebuilt.push((key, value.to_string()));
        }
        proof {
            let target = set_attribute(old_entries, name@, value@);
            let view = rebuilt@.map_values(|e: (String, String)| (e.0@, e.1@));
            if found {
                let w = choose|w: int| 0 <= w < old_entries.len() && old_entries[w].0 == name@;
                assert forall|j: int| 0 <= j < n && old_entries[j].0 == name@ implies j == w by {
                    if j != w {
                        if j < w {
                            assert(old_entries[j].0 != old_entries[w].0);
                        } else {
                            assert(old_entries[w].0 != old_entries[j].0);
                        }
                    }
                }
                assert(view =~= target);
            } else {
                assert(view =~= target);
            }
        }
        self.attributes = rebuilt;
        proof {
            let target = set_attribute(old_entries, name@, value@);
            assert forall|a: int, b: int| 0 <= a < b < target.len() implies #[trigger] target[a].0
                != #[trigger] target[b].0 by {
                if found {
                } else {
                    if b == old_entries.len() {
                        assert(target[b].0 == name@);
                    }
                }
            }
        }
        self
    }
}

/// Whether a (name, value) pair can be written to the host: neither text
/// holds a NUL.
pub open spec fn crosses_boundary(e: (Seq<char>, Seq<char>)) -> bool {
    nul_free(e.0) && nul_free(e.1)
}

/// The string attributes written to the host record for `entries`, in
/// order: each pair in host-native form, pairs that cannot cross left out.
pub open spec fn host_writes(entries: Seq<(Seq<char>, Seq<char>)>) -> Seq<(Seq<u8>, Seq<u8>)>
    decreases entries.len(),
{
    if entries.len() == 0 {
        Seq::empty()
    } else {
        let prev = host_writes(entries.drop_last());
        let e = entries.last();
        if crosses_boundary(e) {
            prev.push((c_text(e.0), c_text(e.1)))
        } else {
            prev
        }
    }
}

/// One string attribute in host-native form.
pub struct NativeAttribute {
    pub name: Vec<u8>,
    pub value: Vec<u8>,
}

/// The (name, value) byte strings of `writes`.
pub open spec fn native_attribute_view(writes: Seq<NativeAttribute>) -> Seq<(Seq<u8>, Seq<u8>)> {
    writes.map_values(|a: NativeAttribute| (a.name@, a.value@))
}

/// The attribute writes for `file`'s host record.
pub fn native_attributes(file: &FileInfo) -> (r: Vec<NativeAttribute>)
    ensures
        native_attribute_view(r@) == host_writes(file.attributes()),
{
    let entries = file.attribute_entries();
    let ghost es = file.attributes();
    let n = entries.len();
    let mut r: Vec<NativeAttribute> = Vec::new();
    let mut i: usize = 0;
    while i < n
        invariant
            n == entries@.len(),
            n == es.len(),
            forall|j: int|
                0 <= j < entries@.len() ==> (#[trigger] entries@[j]).0@ == es[j].0 && entries@[j].1@
                    == es[j].1,
            i <= n,
            native_attribute_view(r@) == host_writes(es.take(i as int)),
        decreases n - i,
    {
        let (name, value) = &entries[i];
        let cn = to_c_text(name.as_str());
        let cv = to_c_text(value.as_str());
        proof {
            assert(es.take(i as int + 1).drop_last() =~= es.take(i as int));
            assert(es.take(i as int + 1).last() == es[i as int]);
        }
        match (cn, cv) {
            (Some(cn), Some(cv)) => {
                r.push(NativeAttribute { name: cn, value: cv });
                assert(native_attribute_view(r@) =~= host_writes(es.take(i as int + 1)));
            },
            _ => {},
        }
        i = i + 1;
    }
    assert(es.take(n as int) =~= es);
    r
}

/// Decorates files with attributes. `should_update_file_info` is a fast test
/// made on the host's thread; `update_file_info` may be slow and runs on a
/// worker of its own.
pub trait InfoProvider {
    fn should_update_file_info(&self, file_info: &FileInfo) -> bool;

    fn update_file_info(&self, file_info: &mut FileInfo);
}

/// The result codes an update reports to the host.
#[derive(Debug, Clone, Copy, PartialEq, Eq, Structural)]
pub enum OperationResult {
    Complete,
    InProgress,
}

/// The shared state of one update running in the background: set
/// `skip_response` to cancel it.
#[derive(Debug, Clone, Copy, PartialEq, Eq, Structural)]
pub struct UpdateFileInfoOperationHandle {
    pub skip_response: bool,
}

impl UpdateFileInfoOperationHandle {
    /// The handle of an update that has not been cancelled.
    pub fn new() -> (r: UpdateFileInfoOperationHandle)
        ensures
            !r.skip_response,
    {
        UpdateFileInfoOperationHandle { skip_response: false }
    }

    /// Cancels the update; on a finished update this changes nothing that
    /// the host sees.
    pub fn cancel(&mut self)
        ensures
            *final(self) == cancelled(*old(self)),
    {
        self.skip_response = true;
    }
}

/// A handle after cancellation.
pub open spec fn cancelled(h: UpdateFileInfoOperationHandle) -> UpdateFileInfoOperationHandle {
    UpdateFileInfoOperationHandle { skip_response: true }
}

/// How an update request starts: at once complete, or in progress with the
/// handle the background work and the host share.
pub struct UpdateStart {
    pub result: OperationResult,
    pub handle: Option<UpdateFileInfoOperationHandle>,
}

/// Decides how a request starts from the provider's answer: declined, it
/// is complete with no background work; accepted, it is in progress with a
/// fresh handle.
pub fn start_update(should_update: bool) -> (r: UpdateStart)
    ensures
        !should_update ==> r.result == OperationResult::Complete && r.handle is None,
        should_update ==> r.result == OperationResult::InProgress && r.handle == Some(
            UpdateFileInfoOperationHandle { skip_response: false },
        ),
{
    if should_update {
        UpdateStart {
            result: OperationResult::InProgress,
            handle: Some(UpdateFileInfoOperationHandle::new()),
        }
    } else {
        UpdateStart { result: OperationResult::Complete, handle: None }
    }
}

/// How a background update ends: the host record gets the writes and the
/// completion callback fires once, or the update was cancelled and neither
/// happens.
pub enum UpdateFinish {
    Complete(Vec<NativeAttribute>),
    Cancelled,
}

/// What a finished update does on the host: `Some` of the writes made
/// before the completion callback fires, or `None` when nothing is written
/// and the callback does not fire.
pub open spec fn finish_effect(r: UpdateFinish) -> Option<Seq<(Seq<u8>, Seq<u8>)>> {
    match r {
        UpdateFinish::Complete(writes) => Some(native_attribute_view(writes@)),
        UpdateFinish::Cancelled => None,
    }
}

/// The effect of finishing an update whose handle's flag is `skip_response`
/// on a file with attribute entries `entries`.
pub open spec fn update_effect(skip_response: bool, entries: Seq<(Seq<char>, Seq<char>)>) -> Option<
    Seq<(Seq<u8>, Seq<u8>)>,
> {
    if skip_response {
        None
    } else {
        Some(host_writes(entries))
    }
}

/// The end of a background update, decided on the handle once the
/// decoration has returned.
pub fn finish_update(handle: &UpdateFileInfoOperationHandle, file: &FileInfo) -> (r: UpdateFinish)
    ensures
        finish_effect(r) == update_effect(handle.skip_response, file.attributes()),
        handle.skip_response ==> r is Cancelled,
        !handle.skip_response ==> r is Complete && native_attribute_view(r->Complete_0@)
            == host_writes(file.attributes()),
{
    if handle.skip_response {
        UpdateFinish::Cancelled
    } else {
        UpdateFinish::Complete(native_attributes(file))
    }
}

/// The host's update request on `slot`: asks the slot's provider whether
/// `file` needs work. An empty slot completes at once.
pub fn update_file_info_gate<P: InfoProvider>(bank: &SlotBank<P>, slot: usize, file: &FileInfo) -> (r:
    UpdateStart)
    requires
        bank.wf(),
    ensures
        !bank.occupied(slot as int) ==> r.result == OperationResult::Complete && r.handle is None,
        r.result == OperationResult::Complete <==> r.handle is None,
        r.handle is Some ==> !r.handle->Some_0.skip_response,
{
    let should_update = match bank.get(slot) {
        Some(p) => p.should_update_file_info(file),
        None => false,
    };
    start_update(should_update)
}

/// The background work of an update on `slot`: the slot's provider decorates
/// `file`. An empty slot leaves it as it was.
pub fn update_file_info_work<P: InfoProvider>(bank: &SlotBank<P>, slot: usize, file: &mut FileInfo)
    requires
        bank.wf(),
    ensures
        !bank.occupied(slot as int) ==> *final(file) == *old(file),
{
    match bank.get(slot) {
        Some(p) => p.update_file_info(file),
        None => {},
    }
}

/// Hands out the next info-provider slot index.
pub fn take_next_info_provider_iface_index<P: InfoProvider>(bank: &mut SlotBank<P>) -> (r: usize)
    requires
        old(bank).wf(),
        old(bank).next_index() < usize::MAX,
    ensures
        final(bank).wf(),
        r == old(bank).next_index(),
        final(bank).next_index() == old(bank).next_index() + 1,
        final(bank).cells() == old(bank).cells(),
{
    bank.take_next_index()
}

/// The setters of the info-provider slots, one per slot, in slot order.
pub fn rust_info_provider_setters() -> (r: Vec<SlotSetter>)
    ensures
        r@.len() == SLOT_CAPACITY,
        forall|i: int| 0 <= i < SLOT_CAPACITY ==> r@[i].index == i,
{
    slot_setters()
}

/// The host-native form of every entry that can cross the boundary is among
/// the writes for `entries`.
proof fn lemma_host_writes_contains(entries: Seq<(Seq<char>, Seq<char>)>, i: int)
    requires
        0 <= i < entries.len(),
        crosses_boundary(entries[i]),
    ensures
        host_writes(entries).contains((c_text(entries[i].0), c_text(entries[i].1))),
    decreases entries.len(),
{
    let prev = entries.drop_last();
    let w = (c_text(entries[i].0), c_text(entries[i].1));
    if i == entries.len() - 1 {
        assert(host_writes(entries) == host_writes(prev).push(w));
        assert(host_writes(entries)[host_writes(prev).len() as int] == w);
    } else {
        lemma_host_writes_contains(prev, i);
        let k = choose|k: int| 0 <= k < host_writes(prev).len() && host_writes(prev)[k] == w;
        assert(host_writes(entries)[k] == w);
    }
}

/// An attribute set with `add_attribute` reaches the host record: for a name
/// and a value without NUL, the writes for the file's entries hold a pair of
/// host strings that read back as exactly that name and value.
pub proof fn lemma_attribute_round_trip(
    entries: Seq<(Seq<char>, Seq<char>)>,
    name: Seq<char>,
    value: Seq<char>,
)
    requires
        nul_free(name),
        nul_free(value),
    ensures
        exists|w: (Seq<u8>, Seq<u8>)|
            host_writes(set_attribute(entries, name, value)).contains(w) && read_c_text(w.0)
                == name && read_c_text(w.1) == value,
{
    let after = set_attribute(entries, name, value);
    let w: int;
    if has_attribute(entries, name) {
        w = attribute_position(entries, name);
        assert(after == entries.update(w, (name, value)));
    } else {
        w = entries.len() as int;
        assert(after == entries.push((name, value)));
    }
    assert(after[w] == (name, value));
    lemma_host_writes_contains(after, w);
    lemma_c_text_round_trip(name);
    lemma_c_text_round_trip(value);
    let pair = (c_text(name), c_text(value));
    assert(host_writes(after).contains(pair) && read_c_text(pair.0) == name && read_c_text(pair.1)
        == value);
}

/// Once cancelled, an update writes nothing and never fires its completion
/// callback, whatever the decoration produced; cancelling again changes
/// nothing.
pub proof fn lemma_cancelled_update_is_silent(
    h: UpdateFileInfoOperationHandle,
    entries: Seq<(Seq<char>, Seq<char>)>,
)
    ensures
        update_effect(cancelled(h).skip_response, entries) is None,
        cancelled(cancelled(h)) == cancelled(h),
{
}

/// An update that is not cancelled fires its callback with every attribute
/// written: where all entries can cross the boundary, one write per entry,
/// in order, each the host-native form of that entry.
pub proof fn lemma_uncancelled_update_writes_all(
    h: UpdateFileInfoOperationHandle,
    entries: Seq<(Seq<char>, Seq<char>)>,
)
    requires
        !h.skip_response,
        forall|i: int| 0 <= i < entries.len() ==> crosses_boundary(#[trigger] entries[i]),
    ensures
        update_effect(h.skip_response, entries) is Some,
        host_writes(entries).len() == entries.len(),
        forall|i: int|
            0 <= i < entries.len() ==> #[trigger] host_writes(entries)[i] == (
                c_text(entries[i].0),
                c_text(entries[i].1),
            ),
    decreases entries.len(),
{
    if entries.len() > 0 {
        let prev = entries.drop_last();
        assert forall|i: int| 0 <= i < prev.len() implies crosses_boundary(#[trigger] prev[i]) by {
            assert(prev[i] == entries[i]);
        }
        lemma_uncancelled_update_writes_all(h, prev);
        assert(crosses_boundary(entries[entries.len() - 1]));
    }
}

} // verus!
