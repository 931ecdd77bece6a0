//! The non-blocking facade's decisions: for each direction, whether a poll
//! reports the relay thread's failure or goes on to the pipe.
use vstd::prelude::*;
use crate::failure::{reports, Error, IoReport};

verus! {

/// What polling a termination channel gave.
#[derive(Debug)]
pub enum SignalPoll {
    /// The relay thread is still running.
    NotReady,
    /// The relay thread ended with this failure (already flattened).
    Ended(Error),
}

/// A direction's view of its relay thread: still pending, or resolved to
/// the cached failure.
#[derive(Debug)]
pub enum Observation {
    Pending,
    Resolved(Error),
}

/// What a poll of one direction does.
#[derive(Debug)]
pub enum Step {
    /// Poll the facade's pipe endpoint and return what it gives.
    Delegate,
    /// Return ready with this error.
    Fail(IoReport),
}

/// The observation after one poll.
pub open spec fn next_observation(o: Observation, s: SignalPoll) -> Observation {
    match o {
        Observation::Pending => match s {
            SignalPoll::NotReady => Observation::Pending,
            SignalPoll::Ended(e) => Observation::Resolved(e),
        },
        Observation::Resolved(e) => Observation::Resolved(e),
    }
}

/// The failure that one poll reports, if any.
pub open spec fn poll_outcome(o: Observation, s: SignalPoll) -> Option<Error> {
    match next_observation(o, s) {
        Observation::Pending => None,
        Observation::Resolved(e) => Some(e),
    }
}

/// The failures reported by a run of polls, one per signal.
pub open spec fn run_outcomes(o: Observation, signals: Seq<SignalPoll>) -> Seq<Option<Error>>
    decreases signals.len(),
{
    if signals.len() == 0 {
        Seq::empty()
    } else {
        seq![poll_outcome(o, signals[0])] + run_outcomes(
            next_observation(o, signals[0]),
            signals.drop_first(),
        )
    }
}

/// `r` is what a poll does when it reports `outcome`.
pub open spec fn step_matches(r: Step, outcome: Option<Error>) -> bool {
    match outcome {
        None => r is Delegate,
        Some(e) => match r {
            Step::Fail(rep) => reports(rep, e),
            Step::Delegate => false,
        },
    }
}

/// One direction of the facade: the pending or resolved termination signal
/// of its relay thread.
#[derive(Debug)]
pub struct Direction {
    pub observation: Observation,
}

impl Direction {
    /// A direction whose relay thread has not reported anything yet.
    pub fn new() -> (r: Direction)
        ensures
            r.observation is Pending,
    {
        Direction { observation: Observation::Pending }
    }

    /// Whether the termination channel still has to be polled; once it has
    /// resolved, its cached value is used instead.
    pub fn needs_signal(&self) -> (r: bool)
        ensures
            r == (self.observation is Pending),
    {
        match self.observation {
            Observation::Pending => true,
            Observation::Resolved(_) => false,
        }
    }

    /// One poll of this direction, given what the termination channel gave
    /// (ignored once the direction has resolved). A failure is reported and
    /// cached; later polls report it again.
    pub fn poll(&mut self, signal: SignalPoll) -> (r: Step)
        ensures
            final(self).observation == next_observation(old(self).observation, signal),
            step_matches(r, poll_outcome(old(self).observation, signal)),
    {
        if let Observation::Pending = self.observation {
            if let SignalPoll::Ended(e) = signal {
                self.observation = Observation::Resolved(e);
            }
        }
        match &self.observation {
            Observation::Pending => Step::Delegate,
            Observation::Resolved(e) => Step::Fail(e.report()),
        }
    }
}

/// A run of polls reports one outcome per signal.
pub proof fn lemma_run_len(o: Observation, signals: Seq<SignalPoll>)
    ensures
        run_outcomes(o, signals).len() == signals.len(),
    decreases signals.len(),
{
    if signals.len() > 0 {
        lemma_run_len(next_observation(o, signals[0]), signals.drop_first());
    }
}

/// Once a direction has reported a failure, every later poll of it reports
/// the same failure, whatever its termination channel gives.
pub proof fn lemma_error_durable(o: Observation, signals: Seq<SignalPoll>, i: int, j: int)
    requires
        0 <= i <= j < signals.len(),
        run_outcomes(o, signals)[i] is Some,
    ensures
        run_outcomes(o, signals)[j] == run_outcomes(o, signals)[i],
    decreases signals.len(),
{
    lemma_run_len(o, signals);
    let rest = signals.drop_first();
    let o1 = next_observation(o, signals[0]);
    lemma_run_len(o1, rest);
    assert(run_outcomes(o, signals) =~= seq![poll_outcome(o, signals[0])] + run_outcomes(o1, rest));
    if i == 0 {
        lemma_resolved_stays(o1, rest, j - 1);
    } else {
        lemma_error_durable(o1, rest, i - 1, j - 1);
    }
}

/// A resolved direction reports its cached failure on every poll.
pub proof fn lemma_resolved_stays(o: Observation, signals: Seq<SignalPoll>, k: int)
    requires
        o is Resolved,
        -1 <= k < signals.len(),
    ensures
        k >= 0 ==> run_outcomes(o, signals)[k] == Some(o->Resolved_0),
    decreases signals.len(),
{
    if k >= 0 {
        let rest = signals.drop_first();
        let o1 = next_observation(o, signals[0]);
        lemma_run_len(o1, rest);
        assert(run_outcomes(o, signals) =~= seq![poll_outcome(o, signals[0])] + run_outcomes(o1, rest));
        lemma_resolved_stays(o1, rest, k - 1);
    }
}

/// A poll of the facade: of its read side or of its write side, with what
/// that side's termination channel gave.
#[derive(Debug)]
pub enum FacadePoll {
    Read(SignalPoll),
    Write(SignalPoll),
}

/// The signals of the polls of one side (the write side if `write`).
pub open spec fn side_signals(events: Seq<FacadePoll>, write: bool) -> Seq<SignalPoll>
    decreases events.len(),
{
    if events.len() == 0 {
        Seq::empty()
    } else {
        let rest = side_signals(events.drop_first(), write);
        match events[0] {
            FacadePoll::Read(s) => if write { rest } else { seq![s] + rest },
            FacadePoll::Write(s) => if write { seq![s] + rest } else { rest },
        }
    }
}

/// The outcomes of the polls of one side, in order, when the facade starts
/// with read observation `r` and write observation `w`.
pub open spec fn side_outcomes(
    r: Observation,
    w: Observation,
    events: Seq<FacadePoll>,
    write: bool,
) -> Seq<Option<Error>>
    decreases events.len(),
{
    if events.len() == 0 {
        Seq::empty()
    } else {
        let rest = events.drop_first();
        match events[0] {
            FacadePoll::Read(s) => {
                let tail = side_outcomes(next_observation(r, s), w, rest, write);
                if write { tail } else { seq![poll_outcome(r, s)] + tail }
            },
            FacadePoll::Write(s) => {
                let tail = side_outcomes(r, next_observation(w, s), rest, write);
                if write { seq![poll_outcome(w, s)] + tail } else { tail }
            },
        }
    }
}

/// The facade's two directions.
#[derive(Debug)]
pub struct StreamState {
    pub read: Direction,
    pub write: Direction,
}

impl StreamState {
    /// Both relay threads running.
    pub fn new() -> (r: StreamState)
        ensures
            r.read.observation is Pending,
            r.write.observation is Pending,
    {
        StreamState { read: Direction::new(), write: Direction::new() }
    }

    /// A poll of the read side; the write side is untouched.
    pub fn poll_read(&mut self, signal: SignalPoll) -> (r: Step)
        ensures
            final(self).read.observation == next_observation(old(self).read.observation, signal),
            final(self).write == old(self).write,
            step_matches(r, poll_outcome(old(self).read.observation, signal)),
    {
        self.read.poll(signal)
    }

    /// A poll of the write side (write, flush or shutdown); the read side
    /// is untouched.
    pub fn poll_write(&mut self, signal: SignalPoll) -> (r: Step)
        ensures
            final(self).write.observation == next_observation(old(self).write.observation, signal),
            final(self).read == old(self).read,
            step_matches(r, poll_outcome(old(self).write.observation, signal)),
    {
        self.write.poll(signal)
    }
}

/// Each side of the facade reports exactly what it would report alone: the
/// other side's polls and failures leave its outcomes unchanged.
pub proof fn lemma_side_alone(r: Observation, w: Observation, events: Seq<FacadePoll>, write: bool)
    ensures
        side_outcomes(r, w, events, write) == run_outcomes(
            if write { w } else { r },
            side_signals(events, write),
        ),
    decreases events.len(),
{
    if events.len() > 0 {
        let rest = events.drop_first();
        match events[0] {
            FacadePoll::Read(s) => {
                lemma_side_alone(next_observation(r, s), w, rest, write);
                if !write {
                    assert(side_signals(events, write).drop_first() =~= side_signals(rest, write));
                }
            },
            FacadePoll::Write(s) => {
                lemma_side_alone(r, next_observation(w, s), rest, write);
                if write {
                    assert(side_signals(events, write).drop_first() =~= side_signals(rest, write));
                }
            },
        }
    }
}

/// Independence of the directions: two runs whose polls of one side receive
/// the same signals report the same outcomes on that side, whatever the other
/// side's state, signals and failures.
pub proof fn lemma_directions_independent(
    r1: Observation,
    w1: Observation,
    events1: Seq<FacadePoll>,
    r2: Observation,
    w2: Observation,
    events2: Seq<FacadePoll>,
    write: bool,
)
    requires
        side_signals(events1, write) == side_signals(events2, write),
        write ==> w1 == w2,
        !write ==> r1 == r2,
    ensures
        side_outcomes(r1, w1, events1, write) == side_outcomes(r2, w2, events2, write),
{
    lemma_side_alone(r1, w1, events1, write);
    lemma_side_alone(r2, w2, events2, write);
}

} // verus!
