//! The asynchronous asset pipeline: per-id load state with typed result
//! slots, a loader registry keyed by file extension, and the manager that
//! drives completed background fetches through the right loader.
//!
//! Background byte fetching is an outside service: it deposits completed
//! `(id, bytes)` pairs through [`AssetStorage::complete_fetch`], and
//! [`Assets::tick`] — called on the owning thread — is the only place
//! those bytes are parsed. Decoders registered by callers are outside
//! collaborators too: `tick` hands their work out as [`DecodeJob`] values
//! and the caller reports back through [`Assets::complete_decode`]. Typed
//! results are tracked by stable type tags, and retrieval fails
//! explicitly on a tag mismatch.

use vstd::prelude::*;
use vstd::pervasive::VecAdditionalExecFns;
use vstd::string::StringExecFns;

use crate::text::{ext_of, spec_ext_of, str_eq};

verus! {

/// The stable type tag of the raw-byte asset kind, the fallback when no
/// loader matches an extension.
pub const BYTES_TAG: u64 = 0;

/// How a loader turns fetched bytes into a stored value: in place as raw
/// bytes, or through an outside decoder run by the caller.
#[derive(Clone, Copy, PartialEq, Eq, Structural, Debug)]
pub enum ParseKind {
    Bytes,
    External,
}

/// A typed value in a storage slot: bytes parsed in place, or the arena
/// handle of a value an outside decoder produced.
#[derive(Clone, Debug)]
pub enum StoredValue {
    Bytes(Vec<u8>),
    External { handle: u64 },
}

/// The mathematical value of a [`StoredValue`].
pub enum StoredVal {
    Bytes(Seq<u8>),
    External { handle: u64 },
}

impl View for StoredValue {
    type V = StoredVal;

    open spec fn view(&self) -> StoredVal {
        match self {
            StoredValue::Bytes(b) => StoredVal::Bytes(b@),
            StoredValue::External { handle } => StoredVal::External { handle: *handle },
        }
    }
}

/// Where one asset id stands in its lifecycle.
#[derive(Clone, Copy, PartialEq, Eq, Structural, Debug)]
pub enum SlotState {
    Pending,
    Ready,
    Failed,
}

/// The load state and typed result slot of one asset id.
#[derive(Clone, Debug)]
pub struct Slot {
    pub id: String,
    pub type_tag: u64,
    pub state: SlotState,
    pub value: Option<StoredValue>,
    pub handles: u64,
}

/// The mathematical value of a [`Slot`].
pub struct SlotModel {
    pub id: Seq<char>,
    pub type_tag: u64,
    pub state: SlotState,
    pub value: Option<StoredVal>,
    pub handles: u64,
}

impl View for Slot {
    type V = SlotModel;

    open spec fn view(&self) -> SlotModel {
        SlotModel {
            id: self.id@,
            type_tag: self.type_tag,
            state: self.state,
            value: match self.value {
                Some(ref v) => Some(v@),
                None => None,
            },
            handles: self.handles,
        }
    }
}

/// The index of the slot for `id`, or -1, scanning from position `i`.
pub open spec fn find_slot_from(s: Seq<SlotModel>, id: Seq<char>, i: int) -> int
    decreases s.len() - i,
{
    if i < 0 || i >= s.len() {
        -1
    } else if s[i].id == id {
        i
    } else {
        find_slot_from(s, id, i + 1)
    }
}

/// The index of the slot for `id`, or -1.
pub open spec fn spec_find_slot(s: Seq<SlotModel>, id: Seq<char>) -> int {
    find_slot_from(s, id, 0)
}

proof fn lemma_find_slot_prefix(s: Seq<SlotModel>, id: Seq<char>, i: int)
    requires
        0 <= i <= s.len(),
        forall|j: int| 0 <= j < i ==> s[j].id != id,
    ensures
        spec_find_slot(s, id) == find_slot_from(s, id, i),
    decreases i,
{
    if i > 0 {
        lemma_find_slot_prefix(s, id, i - 1);
    }
}

/// What a found index means.
pub proof fn lemma_find_slot_found(s: Seq<SlotModel>, id: Seq<char>, i: int)
    requires
        0 <= i,
        find_slot_from(s, id, i) >= 0,
    ensures
        i <= find_slot_from(s, id, i) < s.len(),
        s[find_slot_from(s, id, i)].id == id,
    decreases s.len() - i,
{
    if i < s.len() && s[i].id != id {
        lemma_find_slot_found(s, id, i + 1);
    }
}

/// Ids are pairwise distinct.
pub open spec fn slots_unique(s: Seq<SlotModel>) -> bool {
    forall|i: int, j: int| 0 <= i < j < s.len() ==> s[i].id != s[j].id
}

/// Updating a slot in place, id kept, keeps ids distinct.
proof fn lemma_slots_unique_update(s: Seq<SlotModel>, i: int, m: SlotModel)
    requires
        slots_unique(s),
        0 <= i < s.len(),
        m.id == s[i].id,
    ensures
        slots_unique(s.update(i, m)),
{
    let s2 = s.update(i, m);
    assert forall|a: int, b: int| 0 <= a < b < s2.len() implies s2[a].id != s2[b].id by {
        assert(s2[a] == if a == i {
            m
        } else {
            s[a]
        });
        assert(s2[b] == if b == i {
            m
        } else {
            s[b]
        });
    }
}

/// Per-id load state and typed result slots, together with the queue of
/// completed background fetches awaiting the owning thread.
pub struct AssetStorage {
    slots: Vec<Slot>,
    fetched: Vec<(String, Vec<u8>)>,
}

/// The mathematical value of an [`AssetStorage`].
pub struct StorageModel {
    pub slots: Seq<SlotModel>,
    pub fetched: Seq<(Seq<char>, Seq<u8>)>,
}

impl StorageModel {
    pub open spec fn wf(self) -> bool {
        &&& slots_unique(self.slots)
        &&& forall|i: int| 0 <= i < self.fetched.len() ==> (#[trigger] self.fetched[i]).0.len()
            < 0x8000_0000
    }
}

impl View for AssetStorage {
    type V = StorageModel;

    closed spec fn view(&self) -> StorageModel {
        StorageModel {
            slots: self.slots@.map_values(|s: Slot| s@),
            fetched: self.fetched@.map_values(|p: (String, Vec<u8>)| (p.0@, p.1@)),
        }
    }
}

/// Registering an id: a new pending slot keyed by the loader's output
/// tag, or one more handle on the slot already there.
pub open spec fn spec_register(s: Seq<SlotModel>, id: Seq<char>, type_tag: u64) -> Seq<SlotModel> {
    let i = spec_find_slot(s, id);
    if i >= 0 {
        s.update(
            i,
            SlotModel {
                handles: if s[i].handles == u64::MAX {
                    u64::MAX
                } else {
                    (s[i].handles + 1) as u64
                },
                ..s[i]
            },
        )
    } else {
        s.push(SlotModel { id, type_tag, state: SlotState::Pending, value: None, handles: 1 })
    }
}

/// Parsing fetched bytes in place: the slot must exist and its tag must
/// match, else the parse fails explicitly; on success the bytes become
/// the slot's value and the slot is ready.
pub open spec fn spec_parse_bytes(
    s: Seq<SlotModel>,
    id: Seq<char>,
    type_tag: u64,
    bytes: Seq<u8>,
) -> Result<Seq<SlotModel>, Seq<char>> {
    let i = spec_find_slot(s, id);
    if i < 0 {
        Err("asset id is not registered"@)
    } else if s[i].type_tag != type_tag {
        Err("asset type tag mismatch"@)
    } else {
        Ok(
            s.update(
                i,
                SlotModel {
                    state: SlotState::Ready,
                    value: Some(StoredVal::Bytes(bytes)),
                    ..s[i]
                },
            ),
        )
    }
}

/// Storing the outcome of an outside decode: a handle on success, the
/// failed state otherwise; the tag must still match.
pub open spec fn spec_store_decoded(
    s: Seq<SlotModel>,
    id: Seq<char>,
    type_tag: u64,
    outcome: Option<u64>,
) -> Result<Seq<SlotModel>, Seq<char>> {
    let i = spec_find_slot(s, id);
    if i < 0 {
        Err("asset id is not registered"@)
    } else if s[i].type_tag != type_tag {
        Err("asset type tag mismatch"@)
    } else {
        Ok(
            s.update(
                i,
                match outcome {
                    Some(handle) => SlotModel {
                        state: SlotState::Ready,
                        value: Some(StoredVal::External { handle }),
                        ..s[i]
                    },
                    None => SlotModel { state: SlotState::Failed, value: None, ..s[i] },
                },
            ),
        )
    }
}

/// Which slots the periodic cleanup keeps: everything but ready slots
/// whose handles are all gone.
pub open spec fn slot_kept(m: SlotModel) -> bool {
    !(m.state is Ready && m.handles == 0)
}

/// The slots after the periodic cleanup, in order.
pub open spec fn spec_clean_ready(s: Seq<SlotModel>) -> Seq<SlotModel>
    decreases s.len(),
{
    if s.len() == 0 {
        Seq::empty()
    } else {
        (if slot_kept(s[0]) {
            seq![s[0]]
        } else {
            Seq::empty()
        }) + spec_clean_ready(s.subrange(1, s.len() as int))
    }
}

impl AssetStorage {
    /// Empty storage: no slots, nothing fetched.
    pub fn new() -> (s: AssetStorage)
        ensures
            s@.slots == Seq::<SlotModel>::empty(),
            s@.fetched == Seq::<(Seq<char>, Seq<u8>)>::empty(),
            s@.wf(),
    {
        let s = AssetStorage { slots: Vec::new(), fetched: Vec::new() };
        proof {
            assert(s@.slots =~= Seq::<SlotModel>::empty());
            assert(s@.fetched =~= Seq::<(Seq<char>, Seq<u8>)>::empty());
        }
        s
    }

    /// Finds the slot for `id`.
    fn find(&self, id: &str) -> (r: Option<usize>)
        ensures
            match r {
                Some(i) => spec_find_slot(self@.slots, id@) == i && i < self@.slots.len(),
                None => spec_find_slot(self@.slots, id@) == -1,
            },
    {
        let mut i: usize = 0;
        let n = self.slots.len();
        while i < n
            invariant
                n == self.slots.len(),
                0 <= i <= n,
                self@.slots.len() == n,
                forall|j: int| 0 <= j < i ==> self@.slots[j].id != id@,
            decreases n - i,
        {
            if str_eq(self.slots[i].id.as_str(), id) {
                proof {
                    lemma_find_slot_prefix(self@.slots, id@, i as int);
                }
                return Some(i);
            }
            i = i + 1;
        }
        proof {
            lemma_find_slot_prefix(self@.slots, id@, n as int);
        }
        None
    }

    /// Registers `id` with the given output tag; see [`spec_register`].
    pub fn register(&mut self, id: &str, type_tag: u64)
        requires
            old(self)@.wf(),
            id@.len() < 0x8000_0000,
        ensures
            final(self)@.slots == spec_register(old(self)@.slots, id@, type_tag),
            final(self)@.fetched == old(self)@.fetched,
            final(self)@.wf(),
    {
        let found = self.find(id);
        match found {
            Some(i) => {
                let mut slot = Slot {
                    id: String::new(),
                    type_tag: 0,
                    state: SlotState::Pending,
                    value: None,
                    handles: 0,
                };
                self.slots.set_and_swap(i, &mut slot);
                if slot.handles < u64::MAX {
                    slot.handles = slot.handles + 1;
                }
                self.slots.set(i, slot);
                proof {
                    let m = SlotModel {
                        handles: if old(self)@.slots[i as int].handles == u64::MAX {
                            u64::MAX
                        } else {
                            (old(self)@.slots[i as int].handles + 1) as u64
                        },
                        ..old(self)@.slots[i as int]
                    };
                    assert(self@.slots =~= old(self)@.slots.update(i as int, m));
                    assert(self@.slots =~= spec_register(old(self)@.slots, id@, type_tag));
                    lemma_slots_unique_update(old(self)@.slots, i as int, m);
                    assert(slots_unique(self@.slots));
                    assert(self@.fetched =~= old(self)@.fetched);
                    assert(forall|k: int| 0 <= k < self@.fetched.len() ==> (
                    #[trigger] self@.fetched[k]).0.len() < 0x8000_0000);
                    assert(self@.wf());
                }
            },
            None => {
                let slot = Slot {
                    id: <String as StringExecFns>::from_str(id),
                    type_tag,
                    state: SlotState::Pending,
                    value: None,
                    handles: 1,
                };
                self.slots.push(slot);
                proof {
                    assert(self@.slots =~= spec_register(old(self)@.slots, id@, type_tag));
                    assert forall|j: int| 0 <= j < old(self)@.slots.len() implies old(
                        self,
                    )@.slots[j].id != id@ by {
                        if old(self)@.slots[j].id == id@ {
                            lemma_find_slot_prefix(old(self)@.slots, id@, j);
                            lemma_find_slot_found(old(self)@.slots, id@, j);
                        }
                    }
                }
            },
        }
    }

    /// The background fetch service deposits the bytes for `id` here;
    /// the owning thread drains them on the next tick.
    pub fn complete_fetch(&mut self, id: String, bytes: Vec<u8>)
        requires
            old(self)@.wf(),
            id@.len() < 0x8000_0000,
        ensures
            final(self)@.wf(),
            final(self)@.slots == old(self)@.slots,
            final(self)@.fetched == old(self)@.fetched.push((id@, bytes@)),
    {
        self.fetched.push((id, bytes));
        proof {
            assert(final(self)@.fetched =~= old(self)@.fetched.push(
                (final(self).fetched@.last().0@, final(self).fetched@.last().1@),
            ));
        }
    }

    /// Takes the whole queue of completed fetches, leaving it empty.
    pub fn take_fetched(&mut self) -> (q: Vec<(String, Vec<u8>)>)
        requires
            old(self)@.wf(),
        ensures
            final(self)@.wf(),
            forall|i: int| 0 <= i < q@.len() ==> (#[trigger] q@[i]).0@.len() < 0x8000_0000,
            q@.map_values(|p: (String, Vec<u8>)| (p.0@, p.1@)) == old(self)@.fetched,
            final(self)@.slots == old(self)@.slots,
            final(self)@.fetched == Seq::<(Seq<char>, Seq<u8>)>::empty(),
    {
        let mut q: Vec<(String, Vec<u8>)> = Vec::new();
        core::mem::swap(&mut q, &mut self.fetched);
        proof {
            assert(final(self)@.fetched =~= Seq::<(Seq<char>, Seq<u8>)>::empty());
            assert forall|i: int| 0 <= i < q@.len() implies (#[trigger] q@[i]).0@.len()
                < 0x8000_0000 by {
                assert(old(self)@.fetched[i] == (q@[i].0@, q@[i].1@));
            }
        }
        q
    }

    /// Parses fetched bytes into the slot; see [`spec_parse_bytes`].
    pub fn parse_bytes(&mut self, id: &str, type_tag: u64, bytes: Vec<u8>) -> (r: Result<(), String>)
        requires
            old(self)@.wf(),
        ensures
            final(self)@.fetched == old(self)@.fetched,
            final(self)@.wf(),
            match r {
                Ok(()) => spec_parse_bytes(old(self)@.slots, id@, type_tag, bytes@) == Ok::<
                    Seq<SlotModel>,
                    Seq<char>,
                >(final(self)@.slots),
                Err(e) => spec_parse_bytes(old(self)@.slots, id@, type_tag, bytes@) == Err::<
                    Seq<SlotModel>,
                    Seq<char>,
                >(e@) && final(self)@.slots == old(self)@.slots,
            },
    {
        let found = self.find(id);
        match found {
            None => Err(<String as StringExecFns>::from_str("asset id is not registered")),
            Some(i) => {
                proof {
                    lemma_find_slot_found(self@.slots, id@, 0);
                }
                if self.slots[i].type_tag != type_tag {
                    return Err(<String as StringExecFns>::from_str("asset type tag mismatch"));
                }
                let mut slot = Slot {
                    id: String::new(),
                    type_tag: 0,
                    state: SlotState::Pending,
                    value: None,
                    handles: 0,
                };
                self.slots.set_and_swap(i, &mut slot);
                slot.state = SlotState::Ready;
                slot.value = Some(StoredValue::Bytes(bytes));
                let ghost sv = slot@;
                self.slots.set(i, slot);
                proof {
                    assert(self@.slots[i as int] == sv);
                    let m = SlotModel {
                        state: SlotState::Ready,
                        value: Some(StoredVal::Bytes(bytes@)),
                        ..old(self)@.slots[i as int]
                    };
                    assert(sv == m);
                    assert(forall|k: int|
                        0 <= k < self@.slots.len() && k != i ==> self@.slots[k] == old(
                            self,
                        )@.slots[k]);
                    assert(self@.slots =~= old(self)@.slots.update(i as int, m));
                    lemma_slots_unique_update(old(self)@.slots, i as int, m);
                    assert(slots_unique(self@.slots));
                    assert(self@.fetched =~= old(self)@.fetched);
                    assert(forall|k: int| 0 <= k < self@.fetched.len() ==> (
                    #[trigger] self@.fetched[k]).0.len() < 0x8000_0000);
                    assert(self@.wf());
                }
                Ok(())
            },
        }
    }

    /// Stores the outcome of an outside decode; see
    /// [`spec_store_decoded`].
    pub fn store_decoded(&mut self, id: &str, type_tag: u64, outcome: Option<u64>) -> (r: Result<
        (),
        String,
    >)
        requires
            old(self)@.wf(),
        ensures
            final(self)@.fetched == old(self)@.fetched,
            final(self)@.wf(),
            match r {
                Ok(()) => spec_store_decoded(old(self)@.slots, id@, type_tag, outcome) == Ok::<
                    Seq<SlotModel>,
                    Seq<char>,
                >(final(self)@.slots),
                Err(e) => spec_store_decoded(old(self)@.slots, id@, type_tag, outcome) == Err::<
                    Seq<SlotModel>,
                    Seq<char>,
                >(e@) && final(self)@.slots == old(self)@.slots,
            },
    {
        let found = self.find(id);
        match found {
            None => Err(<String as StringExecFns>::from_str("asset id is not registered")),
            Some(i) => {
                proof {
                    lemma_find_slot_found(self@.slots, id@, 0);
                }
                if self.slots[i].type_tag != type_tag {
                    return Err(<String as StringExecFns>::from_str("asset type tag mismatch"));
                }
                let mut slot = Slot {
                    id: String::new(),
                    type_tag: 0,
                    state: SlotState::Pending,
                    value: None,
                    handles: 0,
                };
                self.slots.set_and_swap(i, &mut slot);
                match outcome {
                    Some(handle) => {
                        slot.state = SlotState::Ready;
                        slot.value = Some(StoredValue::External { handle });
                    },
                    None => {
                        slot.state = SlotState::Failed;
                        slot.value = None;
                    },
                }
                self.slots.set(i, slot);
                proof {
                    let m = match outcome {
                        Some(handle) => SlotModel {
                            state: SlotState::Ready,
                            value: Some(StoredVal::External { handle }),
                            ..old(self)@.slots[i as int]
                        },
                        None => SlotModel {
                            state: SlotState::Failed,
                            value: None,
                            ..old(self)@.slots[i as int]
                        },
                    };
                    assert(self@.slots =~= old(self)@.slots.update(i as int, m));
                    lemma_slots_unique_update(old(self)@.slots, i as int, m);
                    assert(slots_unique(self@.slots));
                    assert(self@.fetched =~= old(self)@.fetched);
                    assert(forall|k: int| 0 <= k < self@.fetched.len() ==> (
                    #[trigger] self@.fetched[k]).0.len() < 0x8000_0000);
                    assert(self@.wf());
                }
                Ok(())
            },
        }
    }

    /// Removes every ready slot whose handles are all released.
    pub fn clean_ready_assets(&mut self)
        requires
            old(self)@.wf(),
        ensures
            final(self)@.slots == spec_clean_ready(old(self)@.slots),
            final(self)@.fetched == old(self)@.fetched,
            final(self)@.wf(),
    {
        let mut pending: Vec<Slot> = Vec::new();
        core::mem::swap(&mut pending, &mut self.slots);
        let ghost orig = pending@.map_values(|s: Slot| s@);
        proof {
            assert(self@.slots =~= Seq::<SlotModel>::empty());
        }
        while pending.len() > 0
            invariant
                self@.fetched == old(self)@.fetched,
                spec_clean_ready(orig) =~= self@.slots + spec_clean_ready(
                    pending@.map_values(|s: Slot| s@),
                ),
                slots_unique(self@.slots + pending@.map_values(|s: Slot| s@)),
            decreases pending.len(),
        {
            let ghost rem = pending@.map_values(|s: Slot| s@);
            let slot = pending.remove(0);
            let keep = match slot.state {
                SlotState::Ready => slot.handles != 0,
                _ => true,
            };
            proof {
                assert(pending@.map_values(|s: Slot| s@) =~= rem.subrange(1, rem.len() as int));
                assert(keep == slot_kept(rem[0]));
            }
            let ghost sofar = self@.slots;
            if keep {
                self.slots.push(slot);
                proof {
                    assert(self@.slots =~= sofar.push(rem[0]));
                    assert(sofar.push(rem[0]) + rem.subrange(1, rem.len() as int) =~= sofar + rem);
                    assert(sofar + (seq![rem[0]] + spec_clean_ready(
                        rem.subrange(1, rem.len() as int),
                    )) =~= sofar.push(rem[0]) + spec_clean_ready(rem.subrange(1, rem.len() as int)));
                }
            } else {
                proof {
                    assert forall|i: int, j: int|
                        0 <= i < j < (sofar + rem.subrange(1, rem.len() as int)).len() implies (
                    sofar + rem.subrange(1, rem.len() as int))[i].id != (sofar + rem.subrange(
                        1,
                        rem.len() as int,
                    ))[j].id by {
                        let all = sofar + rem;
                        let cut = sofar + rem.subrange(1, rem.len() as int);
                        let n = sofar.len() as int;
                        let fi = if i < n {
                            i
                        } else {
                            i + 1
                        };
                        let fj = if j < n {
                            j
                        } else {
                            j + 1
                        };
                        assert(cut[i] == all[fi]);
                        assert(cut[j] == all[fj]);
                    }
                }
            }
        }
        proof {
            assert(pending@.map_values(|s: Slot| s@) =~= Seq::<SlotModel>::empty());
            assert(spec_clean_ready(orig) =~= self@.slots);
        }
    }

    /// Whether `id`'s asset is ready to read.
    pub fn is_done(&self, id: &str) -> (r: bool)
        ensures
            r == {
                let i = spec_find_slot(self@.slots, id@);
                i >= 0 && self@.slots[i].state is Ready
            },
    {
        let found = self.find(id);
        match found {
            Some(i) => {
                proof {
                    lemma_find_slot_found(self@.slots, id@, 0);
                }
                match self.slots[i].state {
                    SlotState::Ready => true,
                    _ => false,
                }
            },
            None => false,
        }
    }

    /// One more handle was dropped by its holder.
    pub fn release(&mut self, id: &str)
        requires
            old(self)@.wf(),
        ensures
            final(self)@.wf(),
            final(self)@.fetched == old(self)@.fetched,
            final(self)@.slots == {
                let i = spec_find_slot(old(self)@.slots, id@);
                if i >= 0 && old(self)@.slots[i].handles > 0 {
                    old(self)@.slots.update(
                        i,
                        SlotModel {
                            handles: (old(self)@.slots[i].handles - 1) as u64,
                            ..old(self)@.slots[i]
                        },
                    )
                } else {
                    old(self)@.slots
                }
            },
    {
        let found = self.find(id);
        match found {
            Some(i) => {
                proof {
                    lemma_find_slot_found(self@.slots, id@, 0);
                }
                if self.slots[i].handles > 0 {
                    let mut slot = Slot {
                        id: String::new(),
                        type_tag: 0,
                        state: SlotState::Pending,
                        value: None,
                        handles: 0,
                    };
                    self.slots.set_and_swap(i, &mut slot);
                    slot.handles = slot.handles - 1;
                    self.slots.set(i, slot);
                    proof {
                        let m = SlotModel {
                            handles: (old(self)@.slots[i as int].handles - 1) as u64,
                            ..old(self)@.slots[i as int]
                        };
                        assert(self@.slots =~= old(self)@.slots.update(i as int, m));
                        lemma_slots_unique_update(old(self)@.slots, i as int, m);
                        assert(slots_unique(self@.slots));
                        assert(self@.fetched =~= old(self)@.fetched);
                        assert(forall|k: int| 0 <= k < self@.fetched.len() ==> (
                        #[trigger] self@.fetched[k]).0.len() < 0x8000_0000);
                        assert(self@.wf());
                    }
                }
            },
            None => {},
        }
    }

    /// How many slots are registered.
    pub fn slot_count(&self) -> (n: usize)
        ensures
            n == self@.slots.len(),
    {
        self.slots.len()
    }

    /// The bytes stored for `id`, when it is ready and byte-typed.
    pub fn bytes_of(&self, id: &str) -> (r: Option<&Vec<u8>>)
        ensures
            match r {
                Some(b) => {
                    let i = spec_find_slot(self@.slots, id@);
                    &&& i >= 0
                    &&& self@.slots[i].state is Ready
                    &&& self@.slots[i].value == Some(StoredVal::Bytes(b@))
                },
                None => {
                    let i = spec_find_slot(self@.slots, id@);
                    i < 0 || !(self@.slots[i].state is Ready) || !(self@.slots[i].value matches Some(
                        StoredVal::Bytes(_),
                    ))
                },
            },
    {
        let found = self.find(id);
        match found {
            Some(i) => {
                proof {
                    lemma_find_slot_found(self@.slots, id@, 0);
                }
                match self.slots[i].state {
                    SlotState::Ready => match &self.slots[i].value {
                        Some(StoredValue::Bytes(b)) => Some(b),
                        _ => None,
                    },
                    _ => None,
                }
            },
            None => None,
        }
    }
}

/// What a registered loader declares: its output type tag and how it
/// parses.
#[derive(Clone, Copy, PartialEq, Eq, Structural, Debug)]
pub struct LoaderCallback {
    pub type_tag: Option<u64>,
    pub kind: ParseKind,
}

/// The built-in fallback: raw bytes stored in place under [`BYTES_TAG`].
pub open spec fn byte_loader() -> LoaderCallback {
    LoaderCallback { type_tag: Some(BYTES_TAG), kind: ParseKind::Bytes }
}

/// A batch of loader registrations a caller hands to [`Assets::add_loader`]:
/// one callback serving several extensions.
#[derive(Clone, Debug)]
pub struct AssetLoader {
    pub extensions: Vec<String>,
    pub type_tag: Option<u64>,
    pub kind: ParseKind,
}

/// One registry entry: an extension and the callback serving it.
#[derive(Clone, Debug)]
pub struct Loader {
    pub ext: String,
    pub callback: LoaderCallback,
}

/// The mathematical value of a [`Loader`].
pub struct LoaderModel {
    pub ext: Seq<char>,
    pub callback: LoaderCallback,
}

impl View for Loader {
    type V = LoaderModel;

    open spec fn view(&self) -> LoaderModel {
        LoaderModel { ext: self.ext@, callback: self.callback }
    }
}

/// The index of the loader for `ext`, or -1, scanning from position `i`.
pub open spec fn find_loader_from(s: Seq<LoaderModel>, ext: Seq<char>, i: int) -> int
    decreases s.len() - i,
{
    if i < 0 || i >= s.len() {
        -1
    } else if s[i].ext == ext {
        i
    } else {
        find_loader_from(s, ext, i + 1)
    }
}

/// The index of the loader for `ext`, or -1.
pub open spec fn spec_find_loader(s: Seq<LoaderModel>, ext: Seq<char>) -> int {
    find_loader_from(s, ext, 0)
}

proof fn lemma_find_loader_prefix(s: Seq<LoaderModel>, ext: Seq<char>, i: int)
    requires
        0 <= i <= s.len(),
        forall|j: int| 0 <= j < i ==> s[j].ext != ext,
    ensures
        spec_find_loader(s, ext) == find_loader_from(s, ext, i),
    decreases i,
{
    if i > 0 {
        lemma_find_loader_prefix(s, ext, i - 1);
    }
}

/// What a found loader index means.
pub proof fn lemma_find_loader_found(s: Seq<LoaderModel>, ext: Seq<char>, i: int)
    requires
        0 <= i,
        find_loader_from(s, ext, i) >= 0,
    ensures
        i <= find_loader_from(s, ext, i) < s.len(),
        s[find_loader_from(s, ext, i)].ext == ext,
    decreases s.len() - i,
{
    if i < s.len() && s[i].ext != ext {
        lemma_find_loader_found(s, ext, i + 1);
    }
}

/// Extensions are pairwise distinct.
pub open spec fn loaders_unique(s: Seq<LoaderModel>) -> bool {
    forall|i: int, j: int| 0 <= i < j < s.len() ==> s[i].ext != s[j].ext
}

/// Replacing a registry entry, extension kept, keeps extensions
/// distinct.
proof fn lemma_loaders_unique_update(s: Seq<LoaderModel>, i: int, m: LoaderModel)
    requires
        loaders_unique(s),
        0 <= i < s.len(),
        m.ext == s[i].ext,
    ensures
        loaders_unique(s.update(i, m)),
{
    let s2 = s.update(i, m);
    assert forall|a: int, b: int| 0 <= a < b < s2.len() implies s2[a].ext != s2[b].ext by {
        assert(s2[a] == if a == i {
            m
        } else {
            s[a]
        });
        assert(s2[b] == if b == i {
            m
        } else {
            s[b]
        });
    }
}

/// The loader resolved for an extension: the registered one, else the
/// raw-byte fallback.
pub open spec fn spec_loader_for(s: Seq<LoaderModel>, ext: Seq<char>) -> LoaderCallback {
    let i = spec_find_loader(s, ext);
    if i >= 0 {
        s[i].callback
    } else {
        byte_loader()
    }
}

/// One registration: replaces the entry already serving the extension —
/// the last registration wins — or appends a new one.
pub open spec fn spec_insert_loader(
    s: Seq<LoaderModel>,
    ext: Seq<char>,
    cb: LoaderCallback,
) -> Seq<LoaderModel> {
    let i = spec_find_loader(s, ext);
    if i >= 0 {
        s.update(i, LoaderModel { ext, callback: cb })
    } else {
        s.push(LoaderModel { ext, callback: cb })
    }
}

/// A batch of registrations applied in order from position `i`.
pub open spec fn spec_insert_loaders(
    s: Seq<LoaderModel>,
    exts: Seq<Seq<char>>,
    cb: LoaderCallback,
    i: int,
) -> Seq<LoaderModel>
    decreases exts.len() - i,
{
    if i < 0 || i >= exts.len() {
        s
    } else {
        spec_insert_loaders(spec_insert_loader(s, exts[i], cb), exts, cb, i + 1)
    }
}

/// A handle to a typed asset that may not be populated yet; it becomes
/// readable once the manager's storage marks its id ready.
#[derive(Clone, Debug)]
pub struct Asset {
    pub id: String,
    pub type_tag: u64,
}

/// A collection of handles loaded together, supporting "are all loaded"
/// queries.
#[derive(Clone, Debug)]
pub struct AssetList {
    pub ids: Vec<String>,
}

/// Decode work `tick` hands back to the caller: the fetched bytes of an
/// id whose loader parses through an outside decoder.
#[derive(Clone, Debug)]
pub struct DecodeJob {
    pub id: String,
    pub type_tag: u64,
    pub bytes: Vec<u8>,
}

/// The mathematical value of a [`DecodeJob`].
pub struct JobModel {
    pub id: Seq<char>,
    pub type_tag: u64,
    pub bytes: Seq<u8>,
}

impl View for DecodeJob {
    type V = JobModel;

    open spec fn view(&self) -> JobModel {
        JobModel { id: self.id@, type_tag: self.type_tag, bytes: self.bytes@ }
    }
}

/// What one whole drain leaves behind: the slots, the decode jobs handed
/// out, and the first loader error if one stopped the drain.
pub struct DrainOutcome {
    pub slots: Seq<SlotModel>,
    pub jobs: Seq<JobModel>,
    pub error: Option<Seq<char>>,
}

/// `tick`'s drain, processing the newest completed fetch first (the
/// queue is consumed from its back): each id's loader is resolved by its
/// extension, byte-parsing loaders run in place, outside decoders become
/// jobs, and the first parse error stops the drain — the rest of that
/// drain's queue is dropped.
pub open spec fn spec_drain(
    slots: Seq<SlotModel>,
    queue: Seq<(Seq<char>, Seq<u8>)>,
    loaders: Seq<LoaderModel>,
) -> DrainOutcome
    decreases queue.len(),
{
    if queue.len() == 0 {
        DrainOutcome { slots, jobs: Seq::empty(), error: None }
    } else {
        let (id, bytes) = queue.last();
        let cb = spec_loader_for(loaders, spec_ext_of(id));
        let tag = match cb.type_tag {
            Some(t) => t,
            None => BYTES_TAG,
        };
        match cb.kind {
            ParseKind::Bytes => match spec_parse_bytes(slots, id, tag, bytes) {
                Ok(slots2) => spec_drain(slots2, queue.drop_last(), loaders),
                Err(e) => DrainOutcome { slots, jobs: Seq::empty(), error: Some(e) },
            },
            ParseKind::External => {
                let rest = spec_drain(slots, queue.drop_last(), loaders);
                match rest.error {
                    Some(e) => rest,
                    None => DrainOutcome {
                        slots: rest.slots,
                        jobs: seq![JobModel { id, type_tag: tag, bytes }] + rest.jobs,
                        error: None,
                    },
                }
            },
        }
    }
}

/// Loading one id: resolve the loader by extension (falling back to the
/// byte loader), fail if it declares no output tag, else register a
/// pending slot under that tag.
pub open spec fn spec_load(
    slots: Seq<SlotModel>,
    loaders: Seq<LoaderModel>,
    id: Seq<char>,
) -> Result<(Seq<SlotModel>, u64), Seq<char>> {
    let cb = spec_loader_for(loaders, spec_ext_of(id));
    match cb.type_tag {
        None => Err("Loader without output type id"@),
        Some(tag) => Ok((spec_register(slots, id, tag), tag)),
    }
}

/// Loading a list of ids in order; the first failure stops the list,
/// leaving the earlier registrations in place. Yields the slots reached
/// and the error that stopped the list, if one did.
pub open spec fn spec_load_many(
    slots: Seq<SlotModel>,
    loaders: Seq<LoaderModel>,
    ids: Seq<Seq<char>>,
    i: int,
) -> (Seq<SlotModel>, Option<Seq<char>>)
    decreases ids.len() - i,
{
    if i < 0 || i >= ids.len() {
        (slots, None)
    } else {
        match spec_load(slots, loaders, ids[i]) {
            Ok(p) => spec_load_many(p.0, loaders, ids, i + 1),
            Err(e) => (slots, Some(e)),
        }
    }
}

/// The asset manager: storage plus the loader registry, driven once per
/// frame by [`Assets::tick`].
pub struct Assets {
    storage: AssetStorage,
    loaders: Vec<Loader>,
}

/// The mathematical value of an [`Assets`].
pub struct AssetsModel {
    pub storage: StorageModel,
    pub loaders: Seq<LoaderModel>,
}

impl AssetsModel {
    pub open spec fn wf(self) -> bool {
        self.storage.wf() && loaders_unique(self.loaders)
    }
}

impl View for Assets {
    type V = AssetsModel;

    closed spec fn view(&self) -> AssetsModel {
        AssetsModel { storage: self.storage@, loaders: self.loaders@.map_values(|l: Loader| l@) }
    }
}

/// The view of a fetched-pair list.
pub open spec fn pairs_view(q: Seq<(String, Vec<u8>)>) -> Seq<(Seq<char>, Seq<u8>)> {
    q.map_values(|p: (String, Vec<u8>)| (p.0@, p.1@))
}

impl Assets {
    /// A fresh manager: empty storage, no registered loaders.
    pub fn new() -> (a: Assets)
        ensures
            a@.storage.slots == Seq::<SlotModel>::empty(),
            a@.storage.fetched == Seq::<(Seq<char>, Seq<u8>)>::empty(),
            a@.loaders == Seq::<LoaderModel>::empty(),
            a@.wf(),
    {
        let a = Assets { storage: AssetStorage::new(), loaders: Vec::new() };
        proof {
            assert(a@.loaders =~= Seq::<LoaderModel>::empty());
        }
        a
    }

    /// Read-only access to the storage.
    pub fn storage(&self) -> (s: &AssetStorage)
        ensures
            s@ == self@.storage,
    {
        &self.storage
    }

    /// The background fetch service deposits completed bytes here.
    pub fn complete_fetch(&mut self, id: String, bytes: Vec<u8>)
        requires
            old(self)@.wf(),
            id@.len() < 0x8000_0000,
        ensures
            final(self)@.wf(),
            final(self)@.loaders == old(self)@.loaders,
            final(self)@.storage.slots == old(self)@.storage.slots,
            final(self)@.storage.fetched == old(self)@.storage.fetched.push((id@, bytes@)),
    {
        self.storage.complete_fetch(id, bytes);
    }

    fn find_loader(&self, ext: &str) -> (r: Option<usize>)
        ensures
            match r {
                Some(i) => spec_find_loader(self@.loaders, ext@) == i && i < self@.loaders.len(),
                None => spec_find_loader(self@.loaders, ext@) == -1,
            },
    {
        let mut i: usize = 0;
        let n = self.loaders.len();
        while i < n
            invariant
                n == self.loaders.len(),
                0 <= i <= n,
                self@.loaders.len() == n,
                forall|j: int| 0 <= j < i ==> self@.loaders[j].ext != ext@,
            decreases n - i,
        {
            if str_eq(self.loaders[i].ext.as_str(), ext) {
                proof {
                    lemma_find_loader_prefix(self@.loaders, ext@, i as int);
                }
                return Some(i);
            }
            i = i + 1;
        }
        proof {
            lemma_find_loader_prefix(self@.loaders, ext@, n as int);
        }
        None
    }

    /// Resolves the loader for an extension; see [`spec_loader_for`].
    fn loader_for(&self, ext: &str) -> (cb: LoaderCallback)
        ensures
            cb == spec_loader_for(self@.loaders, ext@),
    {
        let found = self.find_loader(ext);
        match found {
            Some(i) => {
                proof {
                    lemma_find_loader_found(self@.loaders, ext@, 0);
                }
                self.loaders[i].callback
            },
            None => LoaderCallback { type_tag: Some(BYTES_TAG), kind: ParseKind::Bytes },
        }
    }

    fn insert_loader(&mut self, ext: String, cb: LoaderCallback)
        requires
            old(self)@.wf(),
        ensures
            final(self)@.loaders == spec_insert_loader(old(self)@.loaders, ext@, cb),
            final(self)@.storage == old(self)@.storage,
            final(self)@.wf(),
    {
        let found = self.find_loader(ext.as_str());
        match found {
            Some(i) => {
                proof {
                    lemma_find_loader_found(self@.loaders, ext@, 0);
                }
                let ghost e = ext@;
                self.loaders.remove(i);
                self.loaders.insert(i, Loader { ext, callback: cb });
                proof {
                    assert(self@.loaders =~= spec_insert_loader(old(self)@.loaders, e, cb));
                    lemma_loaders_unique_update(old(self)@.loaders, i as int, self@.loaders[i as int]);
                }
            },
            None => {
                self.loaders.push(Loader { ext, callback: cb });
                proof {
                    assert(self@.loaders =~= spec_insert_loader(old(self)@.loaders, ext@, cb));
                    assert forall|j: int| 0 <= j < old(self)@.loaders.len() implies old(
                        self,
                    )@.loaders[j].ext != ext@ by {
                        if old(self)@.loaders[j].ext == ext@ {
                            lemma_find_loader_prefix(old(self)@.loaders, ext@, j);
                            lemma_find_loader_found(old(self)@.loaders, ext@, j);
                        }
                    }
                }
            },
        }
    }

    /// Merges a batch of registrations, one per extension, the last
    /// registration of an extension winning. A batch naming no extension
    /// is a failed registration; as in the rest of the pipeline that
    /// failure is swallowed and the manager goes on unchanged.
    pub fn add_loader(&mut self, loader: AssetLoader)
        requires
            old(self)@.wf(),
        ensures
            final(self)@.storage == old(self)@.storage,
            final(self)@.wf(),
            loader.extensions@.len() == 0 ==> final(self)@.loaders == old(self)@.loaders,
            loader.extensions@.len() > 0 ==> final(self)@.loaders == spec_insert_loaders(
                old(self)@.loaders,
                loader.extensions@.map_values(|s: String| s@),
                LoaderCallback { type_tag: loader.type_tag, kind: loader.kind },
                0,
            ),
    {
        if loader.extensions.len() == 0 {
            return ;
        }
        let cb = LoaderCallback { type_tag: loader.type_tag, kind: loader.kind };
        let ghost exts = loader.extensions@.map_values(|s: String| s@);
        let ghost l0 = self@.loaders;
        let n = loader.extensions.len();
        let mut i: usize = 0;
        while i < n
            invariant
                old(self)@.wf(),
                self@.wf(),
                n == loader.extensions@.len(),
                0 <= i <= n,
                exts == loader.extensions@.map_values(|s: String| s@),
                self@.storage == old(self)@.storage,
                spec_insert_loaders(self@.loaders, exts, cb, i as int) == spec_insert_loaders(
                    l0,
                    exts,
                    cb,
                    0,
                ),
            decreases n - i,
        {
            let ext = loader.extensions[i].clone();
            proof {
                assert(ext@ == exts[i as int]);
            }
            self.insert_loader(ext, cb);
            i = i + 1;
        }
        proof {
            assert(spec_insert_loaders(self@.loaders, exts, cb, n as int) == self@.loaders);
        }
    }

    /// Resolves the loader for `id`'s extension and registers a pending
    /// slot under the loader's output tag; see [`spec_load`].
    fn load(&mut self, id: &str) -> (r: Result<u64, String>)
        requires
            old(self)@.wf(),
            id@.len() < 0x8000_0000,
        ensures
            final(self)@.loaders == old(self)@.loaders,
            final(self)@.storage.fetched == old(self)@.storage.fetched,
            final(self)@.wf(),
            match r {
                Ok(tag) => spec_load(old(self)@.storage.slots, old(self)@.loaders, id@) == Ok::<
                    (Seq<SlotModel>, u64),
                    Seq<char>,
                >((final(self)@.storage.slots, tag)),
                Err(e) => spec_load(old(self)@.storage.slots, old(self)@.loaders, id@) == Err::<
                    (Seq<SlotModel>, u64),
                    Seq<char>,
                >(e@) && final(self)@.storage.slots == old(self)@.storage.slots,
            },
    {
        let ext = ext_of(id);
        let cb = self.loader_for(ext.as_str());
        match cb.type_tag {
            None => Err(<String as StringExecFns>::from_str("Loader without output type id")),
            Some(tag) => {
                self.storage.register(id, tag);
                Ok(tag)
            },
        }
    }

    /// Loads one id, returning a handle that becomes readable once the
    /// load resolves; the slot is shared by every handle of that id.
    pub fn load_asset(&mut self, id: &str) -> (r: Result<Asset, String>)
        requires
            old(self)@.wf(),
            id@.len() < 0x8000_0000,
        ensures
            final(self)@.loaders == old(self)@.loaders,
            final(self)@.storage.fetched == old(self)@.storage.fetched,
            final(self)@.wf(),
            match r {
                Ok(a) => a.id@ == id@ && spec_load(old(self)@.storage.slots, old(self)@.loaders, id@)
                    == Ok::<(Seq<SlotModel>, u64), Seq<char>>((final(self)@.storage.slots, a.type_tag)),
                Err(e) => spec_load(old(self)@.storage.slots, old(self)@.loaders, id@) == Err::<
                    (Seq<SlotModel>, u64),
                    Seq<char>,
                >(e@) && final(self)@.storage.slots == old(self)@.storage.slots,
            },
    {
        let tag = match self.load(id) {
            Ok(t) => t,
            Err(e) => {
                return Err(e);
            },
        };
        Ok(Asset { id: <String as StringExecFns>::from_str(id), type_tag: tag })
    }

    /// Loads a list of ids, returning the collection of their handles;
    /// the first failure stops the list.
    pub fn load_list(&mut self, paths: &Vec<String>) -> (r: Result<AssetList, String>)
        requires
            old(self)@.wf(),
            forall|i: int| 0 <= i < paths@.len() ==> (#[trigger] paths@[i])@.len() < 0x8000_0000,
        ensures
            final(self)@.loaders == old(self)@.loaders,
            final(self)@.storage.fetched == old(self)@.storage.fetched,
            final(self)@.wf(),
            ({
                let out = spec_load_many(
                    old(self)@.storage.slots,
                    old(self)@.loaders,
                    paths@.map_values(|s: String| s@),
                    0,
                );
                &&& final(self)@.storage.slots == out.0
                &&& match r {
                    Ok(list) => out.1 is None && list.ids@.map_values(|s: String| s@)
                        == paths@.map_values(|s: String| s@),
                    Err(e) => out.1 == Some(e@),
                }
            }),
    {
        let ghost ids = paths@.map_values(|s: String| s@);
        let ghost s0 = self@.storage.slots;
        let mut list_ids: Vec<String> = Vec::new();
        let n = paths.len();
        let mut i: usize = 0;
        while i < n
            invariant
                old(self)@.wf(),
                self@.wf(),
                n == paths@.len(),
                0 <= i <= n,
                ids == paths@.map_values(|s: String| s@),
                s0 == old(self)@.storage.slots,
                forall|k: int| 0 <= k < n ==> (#[trigger] ids[k]).len() < 0x8000_0000,
                self@.loaders == old(self)@.loaders,
                self@.storage.fetched == old(self)@.storage.fetched,
                list_ids@.map_values(|s: String| s@) == ids.subrange(0, i as int),
                spec_load_many(self@.storage.slots, self@.loaders, ids, i as int) == spec_load_many(
                    s0,
                    old(self)@.loaders,
                    ids,
                    0,
                ),
            decreases n - i,
        {
            let ghost pre_slots = self@.storage.slots;
            proof {
                assert(ids[i as int] == (paths@[i as int])@);
            }
            match self.load(paths[i].as_str()) {
                Ok(tag) => {
                    proof {
                        assert(spec_load_many(pre_slots, self@.loaders, ids, i as int)
                            == spec_load_many(self@.storage.slots, self@.loaders, ids, i + 1));
                    }
                },
                Err(e) => {
                    proof {
                        assert(spec_load_many(pre_slots, old(self)@.loaders, ids, i as int) == (
                        pre_slots,
                        Some(e@),
                        ));
                    }
                    return Err(e);
                },
            }
            let ghost pre_list = list_ids@;
            let cloned = paths[i].clone();
            proof {
                assert(cloned@ == ids[i as int]);
            }
            let ghost cv = cloned@;
            list_ids.push(cloned);
            proof {
                assert(list_ids@.map_values(|s: String| s@) =~= pre_list.map_values(
                    |s: String| s@,
                ).push(cv));
                assert(list_ids@.map_values(|s: String| s@) =~= ids.subrange(0, i + 1));
            }
            i = i + 1;
        }
        proof {
            assert(ids.subrange(0, n as int) =~= ids);
        }
        Ok(AssetList { ids: list_ids })
    }

    /// Drains every completed background fetch: each id's loader is
    /// resolved again by extension, byte loaders parse in place, and
    /// outside decoders come back as jobs for the caller to run. The
    /// first loader error aborts the tick — the rest of that drain is
    /// dropped — and after a full drain the ready slots nobody holds are
    /// cleaned up.
    pub fn tick(&mut self) -> (r: Result<Vec<DecodeJob>, String>)
        requires
            old(self)@.wf(),
        ensures
            final(self)@.loaders == old(self)@.loaders,
            final(self)@.storage.fetched == Seq::<(Seq<char>, Seq<u8>)>::empty(),
            final(self)@.wf(),
            ({
                let out = spec_drain(
                    old(self)@.storage.slots,
                    old(self)@.storage.fetched,
                    old(self)@.loaders,
                );
                match r {
                    Ok(jobs) => out.error is None && jobs@.map_values(|j: DecodeJob| j@) == out.jobs
                        && final(self)@.storage.slots == spec_clean_ready(out.slots),
                    Err(e) => out.error == Some(e@) && final(self)@.storage.slots == out.slots,
                }
            }),
    {
        let ghost s0 = self@.storage.slots;
        let ghost q0 = self@.storage.fetched;
        let ghost ls = self@.loaders;
        let mut queue = self.storage.take_fetched();
        let mut jobs: Vec<DecodeJob> = Vec::new();
        while queue.len() > 0
            invariant
                old(self)@.wf(),
                self@.wf(),
                self@.loaders == ls,
                ls == old(self)@.loaders,
                s0 == old(self)@.storage.slots,
                q0 == old(self)@.storage.fetched,
                self@.storage.fetched == Seq::<(Seq<char>, Seq<u8>)>::empty(),
                forall|k: int| 0 <= k < queue@.len() ==> (#[trigger] queue@[k]).0@.len()
                    < 0x8000_0000,
                ({
                    let target = spec_drain(s0, q0, ls);
                    let cur = spec_drain(self@.storage.slots, pairs_view(queue@), ls);
                    match cur.error {
                        Some(e) => target == cur,
                        None => target == (DrainOutcome {
                            slots: cur.slots,
                            jobs: jobs@.map_values(|j: DecodeJob| j@) + cur.jobs,
                            error: None,
                        }),
                    }
                }),
            decreases queue@.len(),
        {
            let ghost qpre = queue@;
            let popped = queue.pop();
            let (id, bytes) = popped.unwrap();
            proof {
                assert(pairs_view(qpre).last() == (id@, bytes@));
                assert(pairs_view(queue@) =~= pairs_view(qpre).drop_last());
            }
            let ext = ext_of(id.as_str());
            let cb = self.loader_for(ext.as_str());
            let tag = match cb.type_tag {
                Some(t) => t,
                None => BYTES_TAG,
            };
            match cb.kind {
                ParseKind::Bytes => {
                    let ghost pre_slots = self@.storage.slots;
                    match self.storage.parse_bytes(id.as_str(), tag, bytes) {
                        Ok(()) => {},
                        Err(e) => {
                            proof {
                                assert(spec_drain(pre_slots, pairs_view(qpre), ls)
                                    == (DrainOutcome {
                                    slots: pre_slots,
                                    jobs: Seq::<JobModel>::empty(),
                                    error: Some(e@),
                                }));
                            }
                            return Err(e);
                        },
                    }
                },
                ParseKind::External => {
                    let ghost jobs_pre = jobs@;
                    let job = DecodeJob { id, type_tag: tag, bytes };
                    let ghost jv = job@;
                    jobs.push(job);
                    proof {
                        assert(jobs@.map_values(|j: DecodeJob| j@) =~= jobs_pre.map_values(
                            |j: DecodeJob| j@,
                        ).push(jv));
                        assert(jobs_pre.map_values(|j: DecodeJob| j@).push(jv) + spec_drain(
                            self@.storage.slots,
                            pairs_view(queue@),
                            ls,
                        ).jobs =~= jobs_pre.map_values(|j: DecodeJob| j@) + (seq![jv] + spec_drain(
                            self@.storage.slots,
                            pairs_view(queue@),
                            ls,
                        ).jobs));
                    }
                },
            }
        }
        proof {
            assert(pairs_view(queue@) =~= Seq::<(Seq<char>, Seq<u8>)>::empty());
            let target = spec_drain(s0, q0, ls);
            let cur = spec_drain(self@.storage.slots, pairs_view(queue@), ls);
            assert(cur == (DrainOutcome {
                slots: self@.storage.slots,
                jobs: Seq::<JobModel>::empty(),
                error: None::<Seq<char>>,
            }));
            assert(jobs@.map_values(|j: DecodeJob| j@) + Seq::<JobModel>::empty() =~= jobs@.map_values(
                |j: DecodeJob| j@,
            ));
        }
        self.storage.clean_ready_assets();
        proof {
            assert(self@.loaders == ls);
            assert(loaders_unique(self@.loaders));
            assert(self@.wf());
        }
        Ok(jobs)
    }

    /// The caller reports the outcome of a decode job: a handle into its
    /// arena on success, or failure; the slot's tag must still match.
    pub fn complete_decode(&mut self, id: &str, type_tag: u64, outcome: Option<u64>) -> (r: Result<
        (),
        String,
    >)
        requires
            old(self)@.wf(),
        ensures
            final(self)@.loaders == old(self)@.loaders,
            final(self)@.storage.fetched == old(self)@.storage.fetched,
            final(self)@.wf(),
            match r {
                Ok(()) => spec_store_decoded(old(self)@.storage.slots, id@, type_tag, outcome) == Ok::<
                    Seq<SlotModel>,
                    Seq<char>,
                >(final(self)@.storage.slots),
                Err(e) => spec_store_decoded(old(self)@.storage.slots, id@, type_tag, outcome)
                    == Err::<Seq<SlotModel>, Seq<char>>(e@) && final(self)@.storage.slots == old(
                    self,
                )@.storage.slots,
            },
    {
        self.storage.store_decoded(id, type_tag, outcome)
    }

    /// Whether the asset behind a handle is ready to read.
    pub fn is_done(&self, asset: &Asset) -> (r: bool)
        ensures
            r == {
                let i = spec_find_slot(self@.storage.slots, asset.id@);
                i >= 0 && self@.storage.slots[i].state is Ready
            },
    {
        self.storage.is_done(asset.id.as_str())
    }

    /// A handle holder dropped its handle: the shared slot's handle
    /// count goes down by one, and nothing else moves.
    pub fn release(&mut self, asset: &Asset)
        requires
            old(self)@.wf(),
        ensures
            final(self)@.loaders == old(self)@.loaders,
            final(self)@.storage.fetched == old(self)@.storage.fetched,
            final(self)@.wf(),
            final(self)@.storage.slots == {
                let i = spec_find_slot(old(self)@.storage.slots, asset.id@);
                if i >= 0 && old(self)@.storage.slots[i].handles > 0 {
                    old(self)@.storage.slots.update(
                        i,
                        SlotModel {
                            handles: (old(self)@.storage.slots[i].handles - 1) as u64,
                            ..old(self)@.storage.slots[i]
                        },
                    )
                } else {
                    old(self)@.storage.slots
                }
            },
    {
        self.storage.release(asset.id.as_str());
    }
}

proof fn lemma_find_slot_first(s: Seq<SlotModel>, id: Seq<char>, k: int)
    requires
        0 <= k,
        find_slot_from(s, id, k) >= 0,
    ensures
        forall|j: int| k <= j < find_slot_from(s, id, k) ==> s[j].id != id,
    decreases s.len() - k,
{
    if k < s.len() && s[k].id != id {
        lemma_find_slot_first(s, id, k + 1);
    }
}

proof fn lemma_find_slot_absent(s: Seq<SlotModel>, id: Seq<char>, k: int)
    requires
        0 <= k,
        find_slot_from(s, id, k) == -1,
    ensures
        forall|j: int| k <= j < s.len() ==> s[j].id != id,
    decreases s.len() - k,
{
    if k < s.len() {
        lemma_find_slot_absent(s, id, k + 1);
    }
}

proof fn lemma_find_slot_push(s: Seq<SlotModel>, id: Seq<char>, m: SlotModel)
    requires
        spec_find_slot(s, id) == -1,
        m.id == id,
    ensures
        spec_find_slot(s.push(m), id) == s.len(),
{
    lemma_find_slot_absent(s, id, 0);
    assert forall|j: int| 0 <= j < s.len() implies s.push(m)[j].id != id by {
        assert(s.push(m)[j] == s[j]);
    }
    lemma_find_slot_prefix(s.push(m), id, s.len() as int);
    assert(s.push(m)[s.len() as int] == m);
}

/// A tick that finds no completed fetch changes no slot, hands out no
/// work and reports success; on empty storage the whole tick is a
/// no-op returning success.
pub proof fn lemma_tick_idle(slots: Seq<SlotModel>, loaders: Seq<LoaderModel>)
    ensures
        spec_drain(slots, Seq::empty(), loaders) == (DrainOutcome {
            slots,
            jobs: Seq::<JobModel>::empty(),
            error: None::<Seq<char>>,
        }),
        spec_clean_ready(Seq::<SlotModel>::empty()) == Seq::<SlotModel>::empty(),
{
}

/// An id whose extension has no registered loader falls back to the
/// raw-byte loader: loading it registers one pending slot under the
/// byte tag, and the tick after its fetch parses the bytes in place —
/// the id resolves to a ready asset holding exactly those bytes.
pub proof fn lemma_byte_fallback_resolves(
    slots: Seq<SlotModel>,
    loaders: Seq<LoaderModel>,
    id: Seq<char>,
    bytes: Seq<u8>,
)
    requires
        spec_find_loader(loaders, spec_ext_of(id)) == -1,
        spec_find_slot(slots, id) == -1,
    ensures
        spec_load(slots, loaders, id) == Ok::<(Seq<SlotModel>, u64), Seq<char>>(
            (
                slots.push(
                    SlotModel {
                        id,
                        type_tag: BYTES_TAG,
                        state: SlotState::Pending,
                        value: None,
                        handles: 1,
                    },
                ),
                BYTES_TAG,
            ),
        ),
        ({
            let slots2 = spec_register(slots, id, BYTES_TAG);
            let out = spec_drain(slots2, seq![(id, bytes)], loaders);
            &&& out.error is None
            &&& out.jobs == Seq::<JobModel>::empty()
            &&& out.slots == slots2.update(
                slots.len() as int,
                SlotModel {
                    id,
                    type_tag: BYTES_TAG,
                    state: SlotState::Ready,
                    value: Some(StoredVal::Bytes(bytes)),
                    handles: 1,
                },
            )
            &&& slot_kept(out.slots[slots.len() as int])
        }),
{
    let m = SlotModel { id, type_tag: BYTES_TAG, state: SlotState::Pending, value: None, handles: 1 };
    let slots2 = spec_register(slots, id, BYTES_TAG);
    assert(slots2 == slots.push(m));
    lemma_find_slot_push(slots, id, m);
    let q = seq![(id, bytes)];
    assert(q.last() == (id, bytes));
    assert(q.drop_last() =~= Seq::<(Seq<char>, Seq<u8>)>::empty());
    let ready = SlotModel {
        id,
        type_tag: BYTES_TAG,
        state: SlotState::Ready,
        value: Some(StoredVal::Bytes(bytes)),
        handles: 1,
    };
    let slots3 = slots2.update(slots.len() as int, ready);
    assert(slots2[slots.len() as int] == m);
    assert(spec_parse_bytes(slots2, id, BYTES_TAG, bytes) == Ok::<Seq<SlotModel>, Seq<char>>(slots3));
    assert(spec_drain(slots3, q.drop_last(), loaders) == (DrainOutcome {
        slots: slots3,
        jobs: Seq::<JobModel>::empty(),
        error: None::<Seq<char>>,
    }));
    assert(spec_drain(slots2, q, loaders) == (DrainOutcome {
        slots: slots3,
        jobs: Seq::<JobModel>::empty(),
        error: None::<Seq<char>>,
    }));
    assert(slots3[slots.len() as int] == ready);
}

/// Loading an id already registered hands out a handle backed by the
/// one shared slot: no slot is added, the slot is found at the same
/// place, and its state, tag and value are untouched — only the handle
/// count grows. Two handles of one id therefore read one slot and
/// become ready together.
pub proof fn lemma_second_load_shares_slot(slots: Seq<SlotModel>, id: Seq<char>, type_tag: u64)
    requires
        spec_find_slot(slots, id) >= 0,
    ensures
        ({
            let i = spec_find_slot(slots, id);
            let slots2 = spec_register(slots, id, type_tag);
            &&& slots2.len() == slots.len()
            &&& spec_find_slot(slots2, id) == i
            &&& slots2[i].id == slots[i].id
            &&& slots2[i].state == slots[i].state
            &&& slots2[i].type_tag == slots[i].type_tag
            &&& slots2[i].value == slots[i].value
        }),
{
    let i = spec_find_slot(slots, id);
    let slots2 = spec_register(slots, id, type_tag);
    lemma_find_slot_found(slots, id, 0);
    lemma_find_slot_first(slots, id, 0);
    assert forall|j: int| 0 <= j < i implies slots2[j].id != id by {
        assert(slots2[j] == slots[j]);
    }
    lemma_find_slot_prefix(slots2, id, i);
    assert(slots2[i].id == id);
}

impl AssetList {
    /// How many handles the list tracks.
    pub fn len(&self) -> (n: usize)
        ensures
            n == self.ids@.len(),
    {
        self.ids.len()
    }

    /// Whether every id in the list is ready.
    pub fn is_loaded(&self, assets: &Assets) -> (r: bool)
        ensures
            r == forall|i: int|
                0 <= i < self.ids@.len() ==> {
                    let k = spec_find_slot(assets@.storage.slots, (#[trigger] self.ids@[i])@);
                    k >= 0 && assets@.storage.slots[k].state is Ready
                },
    {
        let n = self.ids.len();
        let mut i: usize = 0;
        while i < n
            invariant
                n == self.ids@.len(),
                0 <= i <= n,
                forall|j: int|
                    0 <= j < i ==> {
                        let k = spec_find_slot(assets@.storage.slots, (#[trigger] self.ids@[j])@);
                        k >= 0 && assets@.storage.slots[k].state is Ready
                    },
            decreases n - i,
        {
            if !assets.storage().is_done(self.ids[i].as_str()) {
                return false;
            }
            i = i + 1;
        }
        true
    }
}

} // verus!
