//! The live session holder: a stable place that always yields the latest
//! installed session, rebound after a reconnect.

use vstd::prelude::*;

use crate::session::{accepts_sends, after_issue, after_teardown, session_wf, SessionState, SessionView};
use crate::table::lookup_slot;

verus! {

/// Holds the current handle; `swap` installs a new one and hands back the old.
pub struct LiveSessionHolder<H> {
    current: H,
}

impl<H> View for LiveSessionHolder<H> {
    type V = H;

    closed spec fn view(&self) -> H {
        self.current
    }
}

impl<H> LiveSessionHolder<H> {
    /// A holder whose current handle is `first`.
    pub fn new(first: H) -> (r: Self)
        ensures
            r@ == first,
    {
        LiveSessionHolder { current: first }
    }

    /// The latest installed handle.
    pub fn current(&self) -> (r: &H)
        ensures
            *r == self@,
    {
        &self.current
    }

    /// Installs `fresh` and hands back the handle it replaces, so that the
    /// caller tears it down.
    pub fn swap(&mut self, fresh: H) -> (r: H)
        ensures
            final(self)@ == fresh,
            r == old(self)@,
    {
        let mut other = fresh;
        std::mem::swap(&mut self.current, &mut other);
        other
    }
}

/// Swapping sessions: once `fresh` is installed in place of `stale`, the
/// holder yields `fresh`, which takes the next command under its own ids; the
/// stale session, torn down, takes no command, and no response can reach any
/// slot of it any more, so its calls in flight fail instead of completing
/// through the new session.
pub proof fn lemma_swap_isolates_sessions<S>(
    stale: SessionView<S>,
    fresh: SessionView<S>,
    slot: S,
)
    requires
        session_wf(stale),
        session_wf(fresh),
        accepts_sends(fresh),
    ensures
        !accepts_sends(after_teardown(stale, SessionState::Terminated)),
        forall|id: u64| lookup_slot(after_teardown(stale, SessionState::Terminated).pending, id) is None,
        after_issue(fresh, slot).pending.last() == (fresh.next_id, slot),
        lookup_slot(after_issue(fresh, slot).pending, fresh.next_id) == Some(slot),
{
    let p = after_issue(fresh, slot).pending;
    let i = p.len() - 1;
    assert(p[i].0 == fresh.next_id);
    assert forall|j: int| 0 <= j < p.len() && p[j].0 == fresh.next_id implies j == i by {
        if j < i {
            assert(p[j] == fresh.pending[j]);
        }
    }
}

} // verus!
