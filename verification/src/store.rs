//! The storage substrate model: a slot-addressed, write-once record store and
//! an append-only event log.

use vstd::prelude::*;

use crate::launch::{LaunchRecord, PepelabError, TokenLaunched};

verus! {

/// Whether some entry of `s` uses the slot number `slot`.
pub(crate) open spec fn slot_taken(s: Seq<(u64, LaunchRecord)>, slot: u64) -> bool {
    exists|i: int| 0 <= i < s.len() && (#[trigger] s[i]).0 == slot
}

/// An index of `s` whose entry uses the slot number `slot` (meaningful only
/// when `slot_taken(s, slot)` holds).
pub(crate) open spec fn slot_index(s: Seq<(u64, LaunchRecord)>, slot: u64) -> int {
    choose|i: int| 0 <= i < s.len() && (#[trigger] s[i]).0 == slot
}

/// No two entries of `s` use the same slot number.
pub(crate) open spec fn unique_slots(s: Seq<(u64, LaunchRecord)>) -> bool {
    forall|i: int, j: int|
        0 <= i < j < s.len() ==> (#[trigger] s[i]).0 != (#[trigger] s[j]).0
}

/// The entries of `s` read as a map from slot number to stored record.
pub(crate) open spec fn contents_of(s: Seq<(u64, LaunchRecord)>) -> Map<u64, LaunchRecord> {
    Map::new(|slot: u64| slot_taken(s, slot), |slot: u64| s[slot_index(s, slot)].1)
}

/// With unique slot numbers, the entry at index `i` is exactly what the
/// contents map stores under its slot number.
proof fn lemma_entry_is_contents(s: Seq<(u64, LaunchRecord)>, i: int)
    requires
        unique_slots(s),
        0 <= i < s.len(),
    ensures
        contents_of(s).contains_key(s[i].0),
        contents_of(s)[s[i].0] == s[i].1,
{
    assert(slot_taken(s, s[i].0));
    let j = slot_index(s, s[i].0);
    assert(0 <= j < s.len() && s[j].0 == s[i].0);
    if i != j {
        assert(s[i].0 != s[j].0);
    }
}

/// Appending an entry for a fresh slot inserts exactly that record into the
/// contents map, and keeps the slot numbers unique.
proof fn lemma_append_fresh_slot(s: Seq<(u64, LaunchRecord)>, slot: u64, rec: LaunchRecord)
    requires
        unique_slots(s),
        !slot_taken(s, slot),
    ensures
        unique_slots(s.push((slot, rec))),
        contents_of(s.push((slot, rec))) == contents_of(s).insert(slot, rec),
{
    let t = s.push((slot, rec));
    assert forall|i: int, j: int| 0 <= i < j < t.len() implies (#[trigger] t[i]).0 != (
    #[trigger] t[j]).0 by {
        if j < s.len() {
            assert(t[i] == s[i] && t[j] == s[j]);
        } else {
            assert(t[j] == (slot, rec));
            assert(t[i] == s[i]);
            assert(!(s[i].0 == slot)) by {
                if s[i].0 == slot {
                    assert(slot_taken(s, slot));
                }
            }
        }
    }
    assert forall|k: u64| #[trigger] slot_taken(t, k) <==> slot_taken(s, k) || k == slot by {
        if slot_taken(t, k) {
            let i = choose|i: int| 0 <= i < t.len() && (#[trigger] t[i]).0 == k;
            if i < s.len() {
                assert(s[i] == t[i]);
                assert(slot_taken(s, k));
            } else {
                assert(t[i] == (slot, rec));
            }
        }
        if slot_taken(s, k) {
            let i = choose|i: int| 0 <= i < s.len() && (#[trigger] s[i]).0 == k;
            assert(t[i] == s[i]);
            assert(slot_taken(t, k));
        }
        if k == slot {
            assert(t[s.len() as int] == (slot, rec));
            assert(slot_taken(t, k));
        }
    }
    assert forall|k: u64| slot_taken(t, k) implies #[trigger] contents_of(t)[k] == contents_of(
        s,
    ).insert(slot, rec)[k] by {
        let i = slot_index(t, k);
        assert(0 <= i < t.len() && t[i].0 == k);
        if k == slot {
            if i < s.len() {
                assert(s[i] == t[i]);
                assert(slot_taken(s, slot));
            }
            assert(t[i] == (slot, rec));
        } else {
            assert(i < s.len());
            assert(t[i] == s[i]);
            lemma_entry_is_contents(s, i);
            assert(unique_slots(t));
            lemma_entry_is_contents(t, i);
        }
    }
    assert(contents_of(t) =~= contents_of(s).insert(slot, rec));
}

/// The record store: a slot-addressed, write-once store of launch records.
///
/// Each record sits in a caller-chosen slot; a slot is filled at most once,
/// and a second write to the same slot is refused with `AllocationError`.
pub struct RecordStore {
    slots: Vec<(u64, LaunchRecord)>,
}

impl RecordStore {
    /// The store read as a map from slot number to stored record.
    pub closed spec fn contents(self) -> Map<u64, LaunchRecord> {
        contents_of(self.slots@)
    }

    /// Well-formedness: no slot number is used twice.
    pub closed spec fn wf(self) -> bool {
        unique_slots(self.slots@)
    }

    /// An empty store: no slot holds a record.
    pub fn new() -> (s: RecordStore)
        ensures
            s.wf(),
            s.contents() == Map::<u64, LaunchRecord>::empty(),
    {
        let s = RecordStore { slots: Vec::new() };
        proof {
            assert(s.contents() =~= Map::<u64, LaunchRecord>::empty());
        }
        s
    }

    /// How many records the store holds.
    pub fn count(&self) -> (n: usize)
        requires
            self.wf(),
        ensures
            n == self.contents().dom().len(),
    {
        proof {
            lemma_len_is_dom_len(self.slots@);
        }
        self.slots.len()
    }

    /// Whether the slot already holds a record.
    pub fn is_occupied(&self, slot: u64) -> (r: bool)
        ensures
            r == self.contents().contains_key(slot),
    {
        let n = self.slots.len();
        let mut i: usize = 0;
        while i < n
            invariant
                n == self.slots@.len(),
                0 <= i <= n,
                forall|j: int| 0 <= j < i ==> (#[trigger] self.slots@[j]).0 != slot,
            decreases n - i,
        {
            if self.slots[i].0 == slot {
                return true;
            }
            i += 1;
        }
        false
    }

    /// The record stored in the slot, if any.
    pub fn record_at(&self, slot: u64) -> (r: Option<LaunchRecord>)
        requires
            self.wf(),
        ensures
            match r {
                Some(rec) => self.contents().contains_key(slot) && rec == self.contents()[slot],
                None => !self.contents().contains_key(slot),
            },
    {
        let n = self.slots.len();
        let mut i: usize = 0;
        while i < n
            invariant
                self.wf(),
                n == self.slots@.len(),
                0 <= i <= n,
                forall|j: int| 0 <= j < i ==> (#[trigger] self.slots@[j]).0 != slot,
            decreases n - i,
        {
            if self.slots[i].0 == slot {
                proof {
                    lemma_entry_is_contents(self.slots@, i as int);
                }
                return Some(self.slots[i].1);
            }
            i += 1;
        }
        None
    }

    /// Write a record into a fresh slot; refuse an occupied slot.
    ///
    /// On success the store gains exactly the one record; on failure it is
    /// unchanged, so no partial write is ever observable.
    pub fn write_record(&mut self, slot: u64, rec: LaunchRecord) -> (r: Result<
        (),
        PepelabError,
    >)
        requires
            old(self).wf(),
        ensures
            final(self).wf(),
            old(self).contents().contains_key(slot) ==> r == Err::<(), PepelabError>(
                PepelabError::AllocationError,
            ) && *final(self) == *old(self),
            !old(self).contents().contains_key(slot) ==> r == Ok::<(), PepelabError>(())
                && final(self).contents() == old(self).contents().insert(slot, rec),
    {
        if self.is_occupied(slot) {
            return Err(PepelabError::AllocationError);
        }
        proof {
            lemma_append_fresh_slot(self.slots@, slot, rec);
        }
        self.slots.push((slot, rec));
        Ok(())
    }
}

/// With unique slot numbers, the contents map has exactly one key per entry.
proof fn lemma_len_is_dom_len(s: Seq<(u64, LaunchRecord)>)
    requires
        unique_slots(s),
    ensures
        contents_of(s).dom().len() == s.len(),
        contents_of(s).dom().finite(),
    decreases s.len(),
{
    if s.len() == 0 {
        assert(contents_of(s).dom() =~= Set::<u64>::empty());
    } else {
        let t = s.drop_last();
        let last = s.last();
        assert(t == s.subrange(0, s.len() - 1));
        assert(unique_slots(t)) by {
            assert forall|i: int, j: int| 0 <= i < j < t.len() implies (#[trigger] t[i]).0 != (
            #[trigger] t[j]).0 by {
                assert(t[i] == s[i] && t[j] == s[j]);
            }
        }
        assert(!slot_taken(t, last.0)) by {
            if slot_taken(t, last.0) {
                let i = choose|i: int| 0 <= i < t.len() && (#[trigger] t[i]).0 == last.0;
                assert(s[i] == t[i]);
                assert(s[i].0 == s[s.len() - 1].0);
            }
        }
        lemma_len_is_dom_len(t);
        lemma_append_fresh_slot(t, last.0, last.1);
        assert(t.push(last) =~= s);
        assert(contents_of(s).dom() =~= contents_of(t).dom().insert(last.0));
        vstd::set::axiom_set_insert_len(contents_of(t).dom(), last.0);
    }
}

/// The event log: an append-only sequence of launch events, the channel that
/// external indexers consume.
pub struct EventLog {
    events: Vec<TokenLaunched>,
}

impl EventLog {
    /// The events published so far, oldest first.
    pub closed spec fn entries(self) -> Seq<TokenLaunched> {
        self.events@
    }

    /// An empty log: nothing has been published.
    pub fn new() -> (log: EventLog)
        ensures
            log.entries() == Seq::<TokenLaunched>::empty(),
    {
        EventLog { events: Vec::new() }
    }

    /// Publish one event. The log is append-only: everything already
    /// published stays, in order, and exactly the new event follows it.
    pub fn emit(&mut self, event: TokenLaunched)
        ensures
            final(self).entries() == old(self).entries().push(event),
    {
        self.events.push(event);
    }

    /// How many events have been published.
    pub fn len(&self) -> (n: usize)
        ensures
            n == self.entries().len(),
    {
        self.events.len()
    }

    /// The `i`-th published event (oldest first), if it exists.
    pub fn event_at(&self, i: usize) -> (r: Option<TokenLaunched>)
        ensures
            match r {
                Some(event) => i < self.entries().len() && event == self.entries()[i as int],
                None => i >= self.entries().len(),
            },
    {
        if i < self.events.len() {
            Some(self.events[i])
        } else {
            None
        }
    }
}

} // verus!
