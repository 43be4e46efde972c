//! Correlation table: the pending slots of one session, keyed by correlation id.
//!
//! Each registered id holds exactly one slot until a response resolves it or
//! teardown drains it. Entries keep the order in which they were registered.

use vstd::prelude::*;

verus! {

/// Whether some entry of `s` carries the id `id`.
pub open spec fn has_id<S>(s: Seq<(u64, S)>, id: u64) -> bool {
    exists|i: int| 0 <= i < s.len() && s[i].0 == id
}

/// No two entries of `s` carry the same id.
pub open spec fn distinct_ids<S>(s: Seq<(u64, S)>) -> bool {
    forall|i: int, j: int| 0 <= i < s.len() && 0 <= j < s.len() && i != j ==> s[i].0 != s[j].0
}

/// The index of the entry that carries `id`.
pub open spec fn position<S>(s: Seq<(u64, S)>, id: u64) -> int {
    choose|i: int| 0 <= i < s.len() && s[i].0 == id
}

/// The slot registered under each pending id.
pub open spec fn slot_map<S>(s: Seq<(u64, S)>) -> Map<u64, S> {
    Map::new(|id: u64| has_id(s, id), |id: u64| s[position(s, id)].1)
}

/// The slot that a response with `id` reaches in `s`, if any.
pub open spec fn lookup_slot<S>(s: Seq<(u64, S)>, id: u64) -> Option<S> {
    if has_id(s, id) {
        Some(s[position(s, id)].1)
    } else {
        None
    }
}

/// The entries left after a response with `id` has taken its slot.
pub open spec fn without<S>(s: Seq<(u64, S)>, id: u64) -> Seq<(u64, S)> {
    if has_id(s, id) {
        s.remove(position(s, id))
    } else {
        s
    }
}

/// Taking the entry of `id` out of a table with distinct ids removes exactly
/// that id from the map of slots.
pub proof fn lemma_without_slot_map<S>(s: Seq<(u64, S)>, id: u64)
    requires
        distinct_ids(s),
    ensures
        distinct_ids(without(s, id)),
        slot_map(without(s, id)) == slot_map(s).remove(id),
{
    if has_id(s, id) {
        let p = position(s, id);
        let t = s.remove(p);
        assert forall|k: u64| #[trigger] has_id(t, k) == (has_id(s, k) && k != id) by {
            if has_id(t, k) {
                let i = choose|i: int| 0 <= i < t.len() && t[i].0 == k;
                if i < p {
                    assert(s[i].0 == k);
                } else {
                    assert(s[i + 1].0 == k);
                }
            }
            if has_id(s, k) && k != id {
                let i = choose|i: int| 0 <= i < s.len() && s[i].0 == k;
                if i < p {
                    assert(t[i].0 == k);
                } else {
                    assert(i != p);
                    assert(t[i - 1].0 == k);
                }
            }
        }
        assert forall|k: u64| has_id(t, k) implies t[position(t, k)].1 == s[position(s, k)].1 by {
            let i = position(t, k);
            let j = position(s, k);
            if i < p {
                assert(s[i].0 == k);
            } else {
                assert(s[i + 1].0 == k);
            }
        }
        assert(slot_map(t) =~= slot_map(s).remove(id));
    } else {
        assert(slot_map(s) =~= slot_map(s).remove(id));
    }
}

/// Pending slots keyed by correlation id.
pub struct CorrelationTable<S> {
    entries: Vec<(u64, S)>,
}

impl<S> View for CorrelationTable<S> {
    type V = Seq<(u64, S)>;

    closed spec fn view(&self) -> Seq<(u64, S)> {
        self.entries@
    }
}

impl<S> CorrelationTable<S> {
    /// Every id is registered at most once.
    pub open spec fn wf(&self) -> bool {
        distinct_ids(self@)
    }

    /// The slot registered under each pending id.
    pub open spec fn slots(&self) -> Map<u64, S> {
        slot_map(self@)
    }

    /// An empty table.
    pub fn new() -> (r: Self)
        ensures
            r.wf(),
            r@ == Seq::<(u64, S)>::empty(),
    {
        CorrelationTable { entries: Vec::new() }
    }

    /// How many slots are pending.
    pub fn len(&self) -> (r: usize)
        ensures
            r == self@.len(),
    {
        self.entries.len()
    }

    /// Whether a slot is pending under `id`.
    pub fn contains(&self, id: u64) -> (r: bool)
        ensures
            r == has_id(self@, id),
    {
        let mut i: usize = 0;
        while i < self.entries.len()
            invariant
                i <= self@.len(),
                forall|j: int| 0 <= j < i ==> self@[j].0 != id,
            decreases self@.len() - i,
        {
            if self.entries[i].0 == id {
                return true;
            }
            i = i + 1;
        }
        false
    }

    /// Registers `slot` under `id`. An id that is still pending keeps its slot:
    /// the new one is handed back.
    pub fn register(&mut self, id: u64, slot: S) -> (r: Result<(), S>)
        requires
            old(self).wf(),
        ensures
            final(self).wf(),
            has_id(old(self)@, id) ==> r == Err::<(), S>(slot) && final(self)@ == old(self)@,
            !has_id(old(self)@, id) ==> r is Ok && final(self)@ == old(self)@.push((id, slot)),
    {
        if self.contains(id) {
            return Err(slot);
        }
        self.entries.push((id, slot));
        proof {
            let s = old(self)@;
            let t = final(self)@;
            assert forall|i: int, j: int| 0 <= i < t.len() && 0 <= j < t.len() && i != j implies t[i].0
                != t[j].0 by {
                if i == s.len() {
                    assert(s[j].0 == t[j].0);
                } else if j == s.len() {
                    assert(s[i].0 == t[i].0);
                }
            }
        }
        Ok(())
    }

    /// Takes the slot registered under `id` out of the table; `None` when no
    /// slot is pending under it (already resolved, or never registered).
    pub fn resolve(&mut self, id: u64) -> (r: Option<S>)
        requires
            old(self).wf(),
        ensures
            final(self).wf(),
            r == lookup_slot(old(self)@, id),
            final(self)@ == without(old(self)@, id),
            final(self).slots() == old(self).slots().remove(id),
    {
        proof {
            lemma_without_slot_map(self@, id);
        }
        let mut i: usize = 0;
        while i < self.entries.len()
            invariant
                self@ == old(self)@,
                distinct_ids(old(self)@),
                distinct_ids(without(old(self)@, id)),
                slot_map(without(old(self)@, id)) == slot_map(old(self)@).remove(id),
                i <= self@.len(),
                forall|j: int| 0 <= j < i ==> self@[j].0 != id,
            decreases self@.len() - i,
        {
            if self.entries[i].0 == id {
                proof {
                    assert(self@[i as int].0 == id);
                    assert(has_id(self@, id));
                    let p = position(self@, id);
                    assert(self@[p].0 == id);
                    assert(p == i);
                }
                let e = self.entries.remove(i);
                return Some(e.1);
            }
            i = i + 1;
        }
        None
    }

    /// Empties the table and hands out every pending slot, in the order of
    /// registration, so that each can be failed.
    pub fn drain_all(&mut self) -> (r: Vec<S>)
        requires
            old(self).wf(),
        ensures
            final(self).wf(),
            final(self)@ == Seq::<(u64, S)>::empty(),
            r@ == old(self)@.map_values(|e: (u64, S)| e.1),
    {
        let mut out: Vec<S> = Vec::new();
        let ghost all = self@.map_values(|e: (u64, S)| e.1);
        while self.entries.len() > 0
            invariant
                out@ + self@.map_values(|e: (u64, S)| e.1) == all,
            decreases self@.len(),
        {
            let ghost before = self@;
            let e = self.entries.remove(0);
            out.push(e.1);
            assert(before.map_values(|e: (u64, S)| e.1) =~= seq![e.1] + self@.map_values(
                |e: (u64, S)| e.1,
            ));
            assert(out@ + self@.map_values(|e: (u64, S)| e.1) =~= all);
        }
        assert(out@ =~= all);
        assert(self@ =~= Seq::<(u64, S)>::empty());
        out
    }
}

} // verus!
