//! Ordered multi-step commands: issued one after another, stopping at the
//! first failure, yielding the last result.
//!
//! The run is a state machine: it names the next command to send, takes the
//! result of that command, and says when it is over and with what outcome.

use vstd::prelude::*;

use crate::error::CdpError;

verus! {

/// The abstract state of a run.
pub struct SequenceView {
    /// Each command as (method, parameters text).
    pub commands: Seq<(Seq<char>, Seq<char>)>,
    /// How many commands were issued so far.
    pub issued: nat,
    /// The result of the last command that succeeded (`null` before any).
    pub last: Seq<char>,
    /// The error that stopped the run, if one did.
    pub failed: Option<CdpError>,
}

/// A run that has not issued anything yet.
pub open spec fn run_start(commands: Seq<(Seq<char>, Seq<char>)>) -> SequenceView {
    SequenceView { commands, issued: 0, last: "null"@, failed: None }
}

/// Whether the run is over: a command failed, or all were issued.
pub open spec fn run_finished(v: SequenceView) -> bool {
    v.failed is Some || v.issued >= v.commands.len()
}

/// The run after the command just issued came back with `result`.
pub open spec fn run_step(v: SequenceView, result: Result<Seq<char>, CdpError>) -> SequenceView {
    match result {
        Ok(value) => SequenceView { issued: v.issued + 1, last: value, ..v },
        Err(e) => SequenceView { issued: v.issued + 1, failed: Some(e), ..v },
    }
}

/// The run after the results `rs` came back, in order.
pub open spec fn run_feed(v: SequenceView, rs: Seq<Result<Seq<char>, CdpError>>) -> SequenceView
    decreases rs.len(),
{
    if rs.len() == 0 {
        v
    } else {
        run_step(run_feed(v, rs.drop_last()), rs.last())
    }
}

/// What a finished run yields.
pub open spec fn run_outcome(v: SequenceView) -> Result<Seq<char>, CdpError> {
    match v.failed {
        Some(e) => Err(e),
        None => Ok(v.last),
    }
}

/// A sequence of commands being executed.
pub struct SequenceRun {
    commands: Vec<(String, String)>,
    issued: usize,
    last: String,
    failed: Option<CdpError>,
}

impl View for SequenceRun {
    type V = SequenceView;

    closed spec fn view(&self) -> SequenceView {
        SequenceView {
            commands: self.commands@.map_values(|c: (String, String)| (c.0@, c.1@)),
            issued: self.issued as nat,
            last: self.last@,
            failed: self.failed,
        }
    }
}

impl SequenceRun {
    /// No more commands were issued than the run holds.
    pub closed spec fn wf(&self) -> bool {
        self.issued <= self.commands@.len()
    }

    /// A run of `commands`, each a (method, parameters text) pair.
    pub fn new(commands: Vec<(String, String)>) -> (r: Self)
        ensures
            r.wf(),
            r@ == run_start(commands@.map_values(|c: (String, String)| (c.0@, c.1@))),
    {
        SequenceRun { commands, issued: 0, last: String::from_str("null"), failed: None }
    }

    /// Whether the run is over.
    pub fn is_finished(&self) -> (r: bool)
        requires
            self.wf(),
        ensures
            r == run_finished(self@),
    {
        self.failed.is_some() || self.issued >= self.commands.len()
    }

    /// The command to send next; `None` once the run is over.
    pub fn next_command(&self) -> (r: Option<(String, String)>)
        requires
            self.wf(),
        ensures
            run_finished(self@) ==> r is None,
            !run_finished(self@) ==> (r matches Some(c) && (c.0@, c.1@) == self@.commands[self@.issued as int]),
    {
        if self.failed.is_some() || self.issued >= self.commands.len() {
            return None;
        }
        let c = &self.commands[self.issued];
        Some((c.0.clone(), c.1.clone()))
    }

    /// Takes the result of the command that `next_command` named.
    pub fn record(&mut self, result: Result<String, CdpError>)
        requires
            old(self).wf(),
            !run_finished(old(self)@),
        ensures
            final(self).wf(),
            final(self)@ == run_step(
                old(self)@,
                match result {
                    Ok(v) => Ok(v@),
                    Err(e) => Err(e),
                },
            ),
    {
        assert(self@.commands.len() == self.commands@.len());
        let n = self.commands.len();
        assert(self.issued < n);
        self.issued = self.issued + 1;
        match result {
            Ok(v) => {
                self.last = v;
            },
            Err(e) => {
                self.failed = Some(e);
            },
        }
    }

    /// The outcome: the error that stopped the run, else the last result.
    pub fn outcome(self) -> (r: Result<String, CdpError>)
        ensures
            match r {
                Ok(v) => run_outcome(self@) == Ok::<Seq<char>, CdpError>(v@),
                Err(e) => run_outcome(self@) == Err::<Seq<char>, CdpError>(e),
            },
    {
        match self.failed {
            Some(e) => Err(e),
            None => Ok(self.last),
        }
    }
}

/// A run fed only successes issues one command per result, in order.
pub proof fn lemma_feed_successes(cmds: Seq<(Seq<char>, Seq<char>)>, rs: Seq<Result<Seq<char>, CdpError>>)
    requires
        rs.len() <= cmds.len(),
        forall|i: int| 0 <= i < rs.len() ==> #[trigger] rs[i] is Ok,
    ensures
        run_feed(run_start(cmds), rs).issued == rs.len(),
        run_feed(run_start(cmds), rs).failed is None,
        run_feed(run_start(cmds), rs).commands == cmds,
        rs.len() > 0 ==> run_feed(run_start(cmds), rs).last == rs.last()->Ok_0,
    decreases rs.len(),
{
    if rs.len() > 0 {
        let front = rs.drop_last();
        assert forall|i: int| 0 <= i < front.len() implies #[trigger] front[i] is Ok by {
            assert(front[i] == rs[i]);
        }
        lemma_feed_successes(cmds, front);
    }
}

/// Short-circuit: when the command at index `k` fails after all before it
/// succeeded, the run is over at once, having issued exactly `k + 1` commands,
/// names no further command, and yields that failure.
pub proof fn lemma_sequence_short_circuit(
    cmds: Seq<(Seq<char>, Seq<char>)>,
    rs: Seq<Result<Seq<char>, CdpError>>,
    e: CdpError,
)
    requires
        rs.len() <= cmds.len(),
        rs.len() > 0,
        rs.last() == Err::<Seq<char>, CdpError>(e),
        forall|i: int| 0 <= i < rs.len() - 1 ==> #[trigger] rs[i] is Ok,
    ensures
        run_finished(run_feed(run_start(cmds), rs)),
        run_feed(run_start(cmds), rs).issued == rs.len(),
        run_outcome(run_feed(run_start(cmds), rs)) == Err::<Seq<char>, CdpError>(e),
{
    let front = rs.drop_last();
    assert forall|i: int| 0 <= i < front.len() implies #[trigger] front[i] is Ok by {
        assert(front[i] == rs[i]);
    }
    lemma_feed_successes(cmds, front);
}

/// Success: when every command succeeds, the run issues all of them, in
/// order, and yields the result of the last one.
pub proof fn lemma_sequence_all_succeed(
    cmds: Seq<(Seq<char>, Seq<char>)>,
    rs: Seq<Result<Seq<char>, CdpError>>,
)
    requires
        rs.len() == cmds.len(),
        rs.len() > 0,
        forall|i: int| 0 <= i < rs.len() ==> #[trigger] rs[i] is Ok,
    ensures
        run_finished(run_feed(run_start(cmds), rs)),
        run_feed(run_start(cmds), rs).issued == cmds.len(),
        run_outcome(run_feed(run_start(cmds), rs)) == Ok::<Seq<char>, CdpError>(rs.last()->Ok_0),
{
    lemma_feed_successes(cmds, rs);
}

} // verus!
