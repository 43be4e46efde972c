//! The decisions of one session: correlation ids, the lifecycle, where each
//! inbound frame goes, and which calls fail on teardown.
//!
//! A session owns the pending slots of its calls. Waiting on a slot, writing
//! to the transport and delivering to subscribers happen around it; this core
//! decides what is sent, which slot an answer reaches and what a caller sees.

use vstd::prelude::*;

use crate::codec::{decode, decode_text, CdpEvent, Command, DecodeError, FrameModel, InboundFrame};
use crate::error::{CdpError, CdpErrorData};
use crate::table::{
    distinct_ids, has_id, lemma_without_slot_map, lookup_slot, slot_map, without, CorrelationTable,
};

verus! {

/// The lifecycle of a session: `Connecting -> Open -> (Closing | Failed) -> Terminated`.
#[derive(PartialEq, Eq, Structural, Clone, Copy, Debug)]
pub enum SessionState {
    Connecting,
    Open,
    Closing,
    Failed,
    Terminated,
}

/// The abstract state of a session.
pub struct SessionView<S> {
    pub state: SessionState,
    /// The id that the next command gets.
    pub next_id: u64,
    /// The pending slots, in the order of registration.
    pub pending: Seq<(u64, S)>,
}

/// Whether a session in this state takes a new command.
pub open spec fn accepts_sends<S>(m: SessionView<S>) -> bool {
    m.state == SessionState::Open && m.next_id < u64::MAX
}

/// The session after it issued its next id to a call waiting on `slot`.
pub open spec fn after_issue<S>(m: SessionView<S>, slot: S) -> SessionView<S> {
    SessionView {
        state: m.state,
        next_id: (m.next_id + 1) as u64,
        pending: m.pending.push((m.next_id, slot)),
    }
}

/// The session after its transport ended, in the final state `st`.
pub open spec fn after_teardown<S>(m: SessionView<S>, st: SessionState) -> SessionView<S> {
    SessionView { state: st, next_id: m.next_id, pending: Seq::empty() }
}

/// The state a session is left in when its transport fails: a session that
/// was already terminated stays so.
pub open spec fn failed_state(st: SessionState) -> SessionState {
    if st == SessionState::Terminated {
        SessionState::Terminated
    } else {
        SessionState::Failed
    }
}

/// Ids start at 1, every pending id was issued before, and none twice.
pub open spec fn session_wf<S>(m: SessionView<S>) -> bool {
    &&& 1 <= m.next_id
    &&& distinct_ids(m.pending)
    &&& forall|i: int| 0 <= i < m.pending.len() ==> 1 <= #[trigger] m.pending[i].0 < m.next_id
}

/// What the reader does with one inbound frame.
pub enum Delivery<S> {
    /// A response reached the slot of its call.
    Resolved { slot: S, outcome: Result<String, CdpErrorData> },
    /// A response whose id has no pending slot; it is ignored.
    Unmatched,
    /// An event, for the subscribers.
    Publish(CdpEvent),
    /// A frame that could not be decoded; it is skipped.
    Skipped(DecodeError),
}

/// What a call returns once its slot is settled: `None` when the slot was
/// abandoned, else what the far end answered.
pub open spec fn call_outcome(received: Option<Result<String, CdpErrorData>>) -> Result<
    String,
    CdpError,
> {
    match received {
        None => Err(CdpError::ResponseDropped),
        Some(Ok(v)) => Ok(v),
        Some(Err(e)) => Err(CdpError::ResponseError { code: e.code, message: e.message }),
    }
}

/// Turns what a caller's slot received into the call's result.
pub fn finish_call(received: Option<Result<String, CdpErrorData>>) -> (r: Result<String, CdpError>)
    ensures
        r == call_outcome(received),
{
    match received {
        None => Err(CdpError::ResponseDropped),
        Some(Ok(v)) => Ok(v),
        Some(Err(e)) => Err(CdpError::from_data(e)),
    }
}

/// One session: its lifecycle, its id counter and its pending slots.
pub struct SessionCore<S> {
    state: SessionState,
    next_id: u64,
    table: CorrelationTable<S>,
}

impl<S> View for SessionCore<S> {
    type V = SessionView<S>;

    closed spec fn view(&self) -> SessionView<S> {
        SessionView { state: self.state, next_id: self.next_id, pending: self.table@ }
    }
}

impl<S> SessionCore<S> {
    /// The table is consistent and every pending id was issued once.
    pub closed spec fn wf(&self) -> bool {
        &&& self.table.wf()
        &&& session_wf(self@)
    }

    /// A session whose transport is being connected.
    pub fn new() -> (r: Self)
        ensures
            r.wf(),
            r@.state == SessionState::Connecting,
            r@.next_id == 1,
            r@.pending == Seq::<(u64, S)>::empty(),
    {
        SessionCore { state: SessionState::Connecting, next_id: 1, table: CorrelationTable::new() }
    }

    /// The state of the session.
    pub fn state(&self) -> (r: SessionState)
        ensures
            r == self@.state,
    {
        self.state
    }

    /// How many calls wait for an answer.
    pub fn pending_count(&self) -> (r: usize)
        requires
            self.wf(),
        ensures
            r == self@.pending.len(),
    {
        self.table.len()
    }

    /// The handshake is done: a connecting session opens; any other is left as
    /// it is.
    pub fn mark_open(&mut self)
        requires
            old(self).wf(),
        ensures
            final(self).wf(),
            old(self)@.state == SessionState::Connecting ==> final(self)@ == (SessionView {
                state: SessionState::Open,
                ..old(self)@
            }),
            old(self)@.state != SessionState::Connecting ==> final(self)@ == old(self)@,
    {
        if self.state == SessionState::Connecting {
            self.state = SessionState::Open;
        }
    }

    /// The transport is being shut down: an open session stops taking new
    /// commands while pending calls may still be answered.
    pub fn begin_closing(&mut self)
        requires
            old(self).wf(),
        ensures
            final(self).wf(),
            old(self)@.state == SessionState::Open ==> final(self)@ == (SessionView {
                state: SessionState::Closing,
                ..old(self)@
            }),
            old(self)@.state != SessionState::Open ==> final(self)@ == old(self)@,
    {
        if self.state == SessionState::Open {
            self.state = SessionState::Closing;
        }
    }

    /// Issues the next correlation id to a call that waits on `slot`, and
    /// registers the slot before the command is handed to the writer. A session
    /// that is not open, or whose ids are used up, fails the call with
    /// `SendFailed` and leaves everything as it was.
    pub fn begin_send(&mut self, method: String, params: String, slot: S) -> (r: Result<
        Command,
        CdpError,
    >)
        requires
            old(self).wf(),
        ensures
            final(self).wf(),
            accepts_sends(old(self)@) ==> (r matches Ok(cmd) && cmd.id == old(self)@.next_id
                && cmd.method == method && cmd.params == params),
            accepts_sends(old(self)@) ==> final(self)@ == after_issue(old(self)@, slot),
            !accepts_sends(old(self)@) ==> r == Err::<Command, CdpError>(CdpError::SendFailed)
                && final(self)@ == old(self)@,
    {
        if self.state != SessionState::Open || self.next_id == u64::MAX {
            return Err(CdpError::SendFailed);
        }
        let id = self.next_id;
        proof {
            if has_id(self.table@, id) {
                let i = choose|i: int| 0 <= i < self.table@.len() && self.table@[i].0 == id;
                assert(self@.pending[i].0 < self@.next_id);
            }
        }
        let reg = self.table.register(id, slot);
        self.next_id = id + 1;
        proof {
            assert(reg is Ok);
            let p = self.table@;
            assert forall|i: int| 0 <= i < p.len() implies 1 <= #[trigger] p[i].0 < self.next_id by {
                if i < old(self)@.pending.len() {
                    assert(p[i] == old(self)@.pending[i]);
                }
            }
            assert(self@ == after_issue(old(self)@, slot));
        }
        Ok(Command { id, method, params })
    }

    /// Routes one classified frame: a response takes the slot of its id out of
    /// the table; an event leaves every slot pending and goes to subscribers.
    pub fn on_frame(&mut self, frame: InboundFrame) -> (r: Delivery<S>)
        requires
            old(self).wf(),
        ensures
            final(self).wf(),
            final(self)@.state == old(self)@.state,
            final(self)@.next_id == old(self)@.next_id,
            match frame {
                InboundFrame::Response { id, outcome } => {
                    &&& final(self)@.pending == without(old(self)@.pending, id)
                    &&& match lookup_slot(old(self)@.pending, id) {
                        Some(s) => r == (Delivery::Resolved { slot: s, outcome }),
                        None => r is Unmatched,
                    }
                },
                InboundFrame::Event(ev) => final(self)@ == old(self)@ && r == Delivery::<S>::Publish(
                    ev,
                ),
            },
    {
        match frame {
            InboundFrame::Response { id, outcome } => {
                let found = self.table.resolve(id);
                proof {
                    let p = self.table@;
                    assert forall|i: int| 0 <= i < p.len() implies 1 <= #[trigger] p[i].0
                        < self.next_id by {
                        let q = old(self)@.pending;
                        if has_id(q, id) {
                            let k = crate::table::position(q, id);
                            if i < k {
                                assert(p[i] == q[i]);
                            } else {
                                assert(p[i] == q[i + 1]);
                            }
                        }
                    }
                }
                match found {
                    Some(slot) => Delivery::Resolved { slot, outcome },
                    None => Delivery::Unmatched,
                }
            },
            InboundFrame::Event(ev) => Delivery::Publish(ev),
        }
    }

    /// Decodes one inbound frame and routes it; a frame that cannot be decoded
    /// is skipped and changes nothing.
    pub fn on_text(&mut self, text: &str) -> (r: Delivery<S>)
        requires
            old(self).wf(),
        ensures
            final(self).wf(),
            final(self)@.state == old(self)@.state,
            final(self)@.next_id == old(self)@.next_id,
            match decode_text(text@) {
                Err(e) => final(self)@ == old(self)@ && r == Delivery::<S>::Skipped(e),
                Ok(FrameModel::Response { id, outcome }) => {
                    &&& final(self)@.pending == without(old(self)@.pending, id)
                    &&& match lookup_slot(old(self)@.pending, id) {
                        Some(s) => r matches Delivery::Resolved { slot, outcome: o } && slot == s
                            && match (o, outcome) {
                            (Ok(v), Ok(w)) => v@ == w,
                            (Err(e), Err(f)) => e@ == f,
                            _ => false,
                        },
                        None => r is Unmatched,
                    }
                },
                Ok(FrameModel::Event { method, params }) => final(self)@ == old(self)@
                    && (r matches Delivery::Publish(ev) && ev.method@ == method && ev.params@
                    == params),
            },
    {
        match decode(text) {
            Ok(frame) => self.on_frame(frame),
            Err(e) => Delivery::Skipped(e),
        }
    }

    fn teardown(&mut self, st: SessionState) -> (r: Vec<S>)
        requires
            old(self).wf(),
        ensures
            final(self).wf(),
            final(self)@ == after_teardown(old(self)@, st),
            r@ == old(self)@.pending.map_values(|e: (u64, S)| e.1),
    {
        self.state = st;
        let r = self.table.drain_all();
        assert(distinct_ids(self.table@));
        r
    }

    /// The transport died: the session fails and hands out every pending slot,
    /// so that each call completes with a failure instead of waiting forever.
    pub fn fail(&mut self) -> (r: Vec<S>)
        requires
            old(self).wf(),
        ensures
            final(self).wf(),
            final(self)@ == after_teardown(old(self)@, failed_state(old(self)@.state)),
            r@ == old(self)@.pending.map_values(|e: (u64, S)| e.1),
    {
        if self.state == SessionState::Terminated {
            self.teardown(SessionState::Terminated)
        } else {
            self.teardown(SessionState::Failed)
        }
    }

    /// The session is over: it hands out every pending slot and takes no more
    /// commands.
    pub fn terminate(&mut self) -> (r: Vec<S>)
        requires
            old(self).wf(),
        ensures
            final(self).wf(),
            final(self)@ == after_teardown(old(self)@, SessionState::Terminated),
            r@ == old(self)@.pending.map_values(|e: (u64, S)| e.1),
    {
        self.teardown(SessionState::Terminated)
    }
}

/// The pending entries left after responses with the ids `ids` arrived, in
/// that order.
pub open spec fn after_responses<S>(pending: Seq<(u64, S)>, ids: Seq<u64>) -> Seq<(u64, S)>
    decreases ids.len(),
{
    if ids.len() == 0 {
        pending
    } else {
        without(after_responses(pending, ids.drop_last()), ids.last())
    }
}

/// The slot that a response reaches is the one that its id maps to.
pub proof fn lemma_lookup_slot_map<S>(s: Seq<(u64, S)>, id: u64)
    ensures
        lookup_slot(s, id) == (if slot_map(s).dom().contains(id) {
            Some(slot_map(s)[id])
        } else {
            None
        }),
{
}

/// After a run of responses, the pending slots are the earlier ones less
/// those whose ids answered.
pub proof fn lemma_after_responses<S>(pending: Seq<(u64, S)>, ids: Seq<u64>)
    requires
        distinct_ids(pending),
    ensures
        distinct_ids(after_responses(pending, ids)),
        slot_map(after_responses(pending, ids)) == slot_map(pending).remove_keys(ids.to_set()),
    decreases ids.len(),
{
    if ids.len() == 0 {
        assert(ids.to_set() =~= Set::<u64>::empty());
        assert(slot_map(pending).remove_keys(ids.to_set()) =~= slot_map(pending));
    } else {
        let front = ids.drop_last();
        lemma_after_responses(pending, front);
        lemma_without_slot_map(after_responses(pending, front), ids.last());
        assert(ids =~= front.push(ids.last()));
        assert(ids.to_set() =~= front.to_set().insert(ids.last())) by {
            assert forall|x: u64| ids.to_set().contains(x) == front.to_set().insert(
                ids.last(),
            ).contains(x) by {
                if ids.contains(x) {
                    let i = choose|i: int| 0 <= i < ids.len() && ids[i] == x;
                    if i < ids.len() - 1 {
                        assert(front[i] == x);
                    }
                }
                if front.contains(x) {
                    let i = choose|i: int| 0 <= i < front.len() && front[i] == x;
                    assert(ids[i] == x);
                }
            }
        }
        assert(slot_map(pending).remove_keys(front.to_set()).remove(ids.last()) =~= slot_map(
            pending,
        ).remove_keys(ids.to_set()));
    }
}

/// Correlation: whatever order the responses to distinct pending ids come in,
/// each reaches exactly the slot that was registered under its own id.
pub proof fn lemma_responses_reach_own_slots<S>(pending: Seq<(u64, S)>, order: Seq<u64>)
    requires
        distinct_ids(pending),
        order.no_duplicates(),
    ensures
        forall|k: int|
            0 <= k < order.len() ==> lookup_slot(after_responses(pending, #[trigger] order.take(k)), order[k])
                == lookup_slot(pending, order[k]),
{
    assert forall|k: int| 0 <= k < order.len() implies lookup_slot(
        after_responses(pending, #[trigger] order.take(k)),
        order[k],
    ) == lookup_slot(pending, order[k]) by {
        let done = order.take(k);
        lemma_after_responses(pending, done);
        lemma_lookup_slot_map(after_responses(pending, done), order[k]);
        lemma_lookup_slot_map(pending, order[k]);
        assert(!done.to_set().contains(order[k])) by {
            if done.contains(order[k]) {
                let i = choose|i: int| 0 <= i < done.len() && done[i] == order[k];
                assert(order[i] == order[k]);
            }
        }
    }
}

/// Abandonment: when the transport of a session ends, every one of its pending
/// calls is handed out to be failed, each completes with `ResponseDropped`,
/// and the session takes no further command.
pub proof fn lemma_teardown_fails_every_pending_call<S>(m: SessionView<S>, st: SessionState)
    requires
        session_wf(m),
        st == SessionState::Failed || st == SessionState::Terminated,
    ensures
        after_teardown(m, st).pending.len() == 0,
        !accepts_sends(after_teardown(m, st)),
        m.pending.map_values(|e: (u64, S)| e.1).len() == m.pending.len(),
        forall|i: int|
            0 <= i < m.pending.len() ==> m.pending.map_values(|e: (u64, S)| e.1)[i]
                == #[trigger] m.pending[i].1,
        call_outcome(None) == Err::<String, CdpError>(CdpError::ResponseDropped),
{
}

/// The session after issuing ids to calls waiting on each of `slots`, in turn.
pub open spec fn issue_all<S>(m: SessionView<S>, slots: Seq<S>) -> SessionView<S>
    decreases slots.len(),
{
    if slots.len() == 0 {
        m
    } else {
        after_issue(issue_all(m, slots.drop_last()), slots.last())
    }
}

/// No id reuse: issuing ids to `slots.len()` calls on an open session gives
/// them the ids `next_id`, `next_id + 1`, ..., each registered once, distinct
/// from one another and from every id still pending.
pub proof fn lemma_issued_ids_distinct<S>(m: SessionView<S>, slots: Seq<S>)
    requires
        session_wf(m),
        m.next_id + slots.len() <= u64::MAX,
    ensures
        session_wf(issue_all(m, slots)),
        issue_all(m, slots).next_id == m.next_id + slots.len(),
        issue_all(m, slots).pending.len() == m.pending.len() + slots.len(),
        issue_all(m, slots).pending.take(m.pending.len() as int) == m.pending,
        forall|k: int|
            0 <= k < slots.len() ==> #[trigger] issue_all(m, slots).pending[m.pending.len() + k] == (
            (m.next_id + k) as u64,
            slots[k],
            ),
    decreases slots.len(),
{
    if slots.len() > 0 {
        let front = slots.drop_last();
        lemma_issued_ids_distinct(m, front);
        let b = issue_all(m, front);
        let a = issue_all(m, slots);
        assert(a == after_issue(b, slots.last()));
        assert forall|i: int, j: int|
            0 <= i < a.pending.len() && 0 <= j < a.pending.len() && i != j implies a.pending[i].0
            != a.pending[j].0 by {
            if i == b.pending.len() {
                assert(1 <= b.pending[j].0 < b.next_id);
            } else if j == b.pending.len() {
                assert(1 <= b.pending[i].0 < b.next_id);
            } else {
                assert(a.pending[i] == b.pending[i]);
                assert(a.pending[j] == b.pending[j]);
            }
        }
        assert forall|i: int| 0 <= i < a.pending.len() implies 1 <= #[trigger] a.pending[i].0
            < a.next_id by {
            if i < b.pending.len() {
                assert(a.pending[i] == b.pending[i]);
            }
        }
        assert(a.pending.take(m.pending.len() as int) =~= b.pending.take(m.pending.len() as int));
        assert forall|k: int| 0 <= k < slots.len() implies #[trigger] a.pending[m.pending.len() + k]
            == ((m.next_id + k) as u64, slots[k]) by {
            if k < front.len() {
                assert(a.pending[m.pending.len() + k] == b.pending[m.pending.len() + k]);
                assert(front[k] == slots[k]);
            }
        }
    }
}

} // verus!
