//! The driving loop as a step function.
//!
//! One thread serves two schedulers: the reactor that polls the stream and
//! the timer, and an outside dispatcher that runs the producers' callbacks.
//! The loop gives the reactor one bounded slice, lets the dispatcher do one
//! unit of pending work, reads the flag, and starts over. What to do next is
//! decided here; doing it is the caller's part, which reports back what came
//! of it.

use vstd::prelude::*;

use crate::flag::QuitFuture;

verus! {

/// What the loop is waiting to hear.
#[derive(Clone, Copy, Debug, PartialEq, Eq, Structural)]
pub enum Phase {
    /// Whether the flag is set.
    AwaitFlag,
    /// That the reactor's slice is over.
    AwaitTurn,
    /// Whether the dispatcher has pending work.
    AwaitPending,
    /// That the dispatcher has done one unit of work.
    AwaitDispatch,
    /// Nothing more: the loop has ended.
    Done,
}

/// What the caller is asked to do next.
#[derive(Clone, Copy, Debug, PartialEq, Eq, Structural)]
pub enum Action {
    /// Read the flag.
    Observe,
    /// Run the reactor for at most this many milliseconds.
    Turn(u64),
    /// Ask the dispatcher whether work is pending.
    AskPending,
    /// Let the dispatcher do one unit of work.
    Dispatch,
    /// Leave the loop.
    Exit,
}

/// What the caller reports back.
#[derive(Clone, Copy, Debug, PartialEq, Eq, Structural)]
pub enum Report {
    /// The flag was read, with what it held.
    Flag(bool),
    /// The reactor's slice is over.
    Turned,
    /// The dispatcher was asked, with its answer.
    Pending(bool),
    /// The dispatcher did one unit of work.
    Dispatched,
}

/// The loop's state: where in an iteration it stands, and the slice that the
/// reactor gets in each iteration.
#[derive(Clone, Copy, Debug, PartialEq, Eq, Structural)]
pub struct DriverLoop {
    pub phase: Phase,
    pub budget_ms: u64,
}

impl DriverLoop {
    /// The action that a loop in this state asks for.
    pub open spec fn spec_request(self) -> Action {
        match self.phase {
            Phase::AwaitFlag => Action::Observe,
            Phase::AwaitTurn => Action::Turn(self.budget_ms),
            Phase::AwaitPending => Action::AskPending,
            Phase::AwaitDispatch => Action::Dispatch,
            Phase::Done => Action::Exit,
        }
    }

    /// Whether `report` answers what a loop in this state asked for.
    pub open spec fn expects(self, report: Report) -> bool {
        match (self.phase, report) {
            (Phase::AwaitFlag, Report::Flag(_)) => true,
            (Phase::AwaitTurn, Report::Turned) => true,
            (Phase::AwaitPending, Report::Pending(_)) => true,
            (Phase::AwaitDispatch, Report::Dispatched) => true,
            _ => false,
        }
    }

    /// The phase that follows `report`. A report that does not answer the
    /// loop's request leaves it where it is.
    pub open spec fn spec_next_phase(self, report: Report) -> Phase {
        match (self.phase, report) {
            (Phase::AwaitFlag, Report::Flag(true)) => Phase::Done,
            (Phase::AwaitFlag, Report::Flag(false)) => Phase::AwaitTurn,
            (Phase::AwaitTurn, Report::Turned) => Phase::AwaitPending,
            (Phase::AwaitPending, Report::Pending(true)) => Phase::AwaitDispatch,
            (Phase::AwaitPending, Report::Pending(false)) => Phase::AwaitFlag,
            (Phase::AwaitDispatch, Report::Dispatched) => Phase::AwaitFlag,
            _ => self.phase,
        }
    }

    /// The loop after `report`.
    pub open spec fn spec_step(self, report: Report) -> DriverLoop {
        DriverLoop { phase: self.spec_next_phase(report), budget_ms: self.budget_ms }
    }

    /// The loop after each of `reports` in turn.
    pub open spec fn spec_run(self, reports: Seq<Report>) -> DriverLoop
        decreases reports.len(),
    {
        if reports.len() == 0 {
            self
        } else {
            self.spec_step(reports.first()).spec_run(reports.drop_first())
        }
    }

    /// A loop that has not started: it first asks for the flag, and gives
    /// the reactor `budget_ms` milliseconds in each iteration.
    pub fn new(budget_ms: u64) -> (driver: Self)
        ensures
            driver == (DriverLoop { phase: Phase::AwaitFlag, budget_ms }),
    {
        DriverLoop { phase: Phase::AwaitFlag, budget_ms }
    }

    /// What the loop asks for in its present state.
    pub fn request(&self) -> (action: Action)
        ensures
            action == self.spec_request(),
    {
        match self.phase {
            Phase::AwaitFlag => Action::Observe,
            Phase::AwaitTurn => Action::Turn(self.budget_ms),
            Phase::AwaitPending => Action::AskPending,
            Phase::AwaitDispatch => Action::Dispatch,
            Phase::Done => Action::Exit,
        }
    }

    /// Whether the loop has ended.
    pub fn is_done(&self) -> (done: bool)
        ensures
            done == (self.phase == Phase::Done),
    {
        match self.phase {
            Phase::Done => true,
            _ => false,
        }
    }

    /// Takes the caller's report and says what to do next.
    ///
    /// A set flag ends the loop; an unset one starts an iteration: one slice
    /// of the reactor, the question to the dispatcher, one unit of its work
    /// if it has any, and the flag again. A report that does not answer the
    /// last request changes nothing, and the request is repeated.
    pub fn step(&mut self, report: Report) -> (action: Action)
        ensures
            *final(self) == old(self).spec_step(report),
            action == final(self).spec_request(),
    {
        let next = match (self.phase, report) {
            (Phase::AwaitFlag, Report::Flag(true)) => Phase::Done,
            (Phase::AwaitFlag, Report::Flag(false)) => Phase::AwaitTurn,
            (Phase::AwaitTurn, Report::Turned) => Phase::AwaitPending,
            (Phase::AwaitPending, Report::Pending(true)) => Phase::AwaitDispatch,
            (Phase::AwaitPending, Report::Pending(false)) => Phase::AwaitFlag,
            (Phase::AwaitDispatch, Report::Dispatched) => Phase::AwaitFlag,
            (phase, _) => phase,
        };
        self.phase = next;
        self.request()
    }

    /// Once the flag has been set, however often, the first observation ends
    /// the loop: the caller is told to leave.
    pub proof fn lemma_exit_on_first_observation(self, quitted: bool, sets: nat)
        requires
            self.phase == Phase::AwaitFlag,
            sets >= 1,
        ensures
            self.spec_step(Report::Flag(QuitFuture::set_times(quitted, sets))).phase == Phase::Done,
            self.spec_step(Report::Flag(QuitFuture::set_times(quitted, sets))).spec_request()
                == Action::Exit,
    {
        QuitFuture::lemma_set_is_idempotent(quitted, sets);
    }

    /// A loop that has ended stays ended, whatever is reported to it, and
    /// keeps telling the caller to leave.
    pub proof fn lemma_done_is_final(self, reports: Seq<Report>)
        requires
            self.phase == Phase::Done,
        ensures
            self.spec_run(reports) == self,
            self.spec_run(reports).spec_request() == Action::Exit,
        decreases reports.len(),
    {
        if reports.len() > 0 {
            assert(self.spec_step(reports.first()) == self);
            self.lemma_done_is_final(reports.drop_first());
        }
    }

    /// A report that does not answer the loop's request changes nothing, so
    /// the same request is made again.
    pub proof fn lemma_unexpected_report_is_ignored(self, report: Report)
        requires
            !self.expects(report),
        ensures
            self.spec_step(report) == self,
            self.spec_step(report).spec_request() == self.spec_request(),
    {
    }

    /// The slice never changes: every turn that a run asks for is bounded by
    /// the budget that the loop was made with.
    pub proof fn lemma_budget_is_kept(self, reports: Seq<Report>)
        ensures
            self.spec_run(reports).budget_ms == self.budget_ms,
            self.spec_run(reports).phase == Phase::AwaitTurn ==> self.spec_run(
                reports,
            ).spec_request() == Action::Turn(self.budget_ms),
        decreases reports.len(),
    {
        if reports.len() > 0 {
            self.spec_step(reports.first()).lemma_budget_is_kept(reports.drop_first());
        }
    }

    /// The reactor gets a slice only right after the flag was read unset:
    /// no second turn begins before the flag has been read again.
    pub proof fn lemma_turn_follows_unset_flag(self, report: Report)
        requires
            self.phase != Phase::AwaitTurn,
            self.spec_step(report).phase == Phase::AwaitTurn,
        ensures
            self.phase == Phase::AwaitFlag,
            report == Report::Flag(false),
    {
    }

    /// An iteration with an idle dispatcher: after an unset flag the loop
    /// asks for one turn of the configured budget, then asks the dispatcher,
    /// and on hearing that nothing is pending stands at the flag again.
    pub proof fn lemma_idle_iteration(self)
        requires
            self.phase == Phase::AwaitFlag,
        ensures
            self.spec_step(Report::Flag(false)).spec_request() == Action::Turn(self.budget_ms),
            self.spec_step(Report::Flag(false)).spec_step(Report::Turned).spec_request()
                == Action::AskPending,
            self.spec_step(Report::Flag(false)).spec_step(Report::Turned).spec_step(
                Report::Pending(false),
            ) == self,
            self.spec_run(seq![Report::Flag(false), Report::Turned, Report::Pending(false)])
                == self,
    {
        let reports = seq![Report::Flag(false), Report::Turned, Report::Pending(false)];
        let one = self.spec_step(Report::Flag(false));
        let two = one.spec_step(Report::Turned);
        let three = two.spec_step(Report::Pending(false));
        let rest1 = reports.drop_first();
        let rest2 = rest1.drop_first();
        let rest3 = rest2.drop_first();
        assert(rest3.len() == 0);
        assert(three.spec_run(rest3) == three);
        assert(two.spec_run(rest2) == three);
        assert(one.spec_run(rest1) == three);
    }

    /// An iteration with a busy dispatcher: the dispatcher does exactly one
    /// unit of work before the flag is read again.
    pub proof fn lemma_busy_iteration(self)
        requires
            self.phase == Phase::AwaitFlag,
        ensures
            self.spec_step(Report::Flag(false)).spec_step(Report::Turned).spec_step(
                Report::Pending(true),
            ).spec_request() == Action::Dispatch,
            self.spec_step(Report::Flag(false)).spec_step(Report::Turned).spec_step(
                Report::Pending(true),
            ).spec_step(Report::Dispatched) == self,
    {
    }
}

} // verus!
