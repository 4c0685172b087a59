use vstd::prelude::*;

use crate::fault::{diagnostic_message, failure_message, Fault};

verus! {

/// Default pause, in milliseconds, between two looks at an empty backlog and
/// between two polls of a running job.
pub const DEFAULT_POLLING_INTERVAL_MS: u64 = 250;

/// Where the loop stands, that is, which event it waits for next.
#[derive(Clone, Copy, Debug, PartialEq, Eq, Structural)]
pub enum Phase {
    /// At the head of the loop: waits for `Ready` with the stop signal's value.
    Idle,
    /// Has asked the store for a job: waits for `NextJob`.
    Claiming,
    /// Holds one dispatched job: waits for `TaskPolled`.
    Supervising,
    /// Terminal: accepts no more events.
    Stopped,
}

/// What a poll of the running job saw.
#[derive(Clone, Debug, PartialEq, Eq)]
pub enum TaskStatus {
    Running,
    Completed,
    Faulted(Fault),
}

/// What the driver reports back after carrying out the last action.
#[derive(Clone, Debug, PartialEq, Eq)]
pub enum LoopEvent {
    /// The driver is at the loop head; carries the stop signal as it reads now.
    Ready(bool),
    /// Answer of the store to `ClaimJob`: whether a job was handed out.
    NextJob(bool),
    /// State of the dispatched job at this poll.
    TaskPolled(TaskStatus),
}

/// Why the loop ended.
#[derive(Clone, Copy, Debug, PartialEq, Eq, Structural)]
pub enum StopReason {
    StopRequested,
    BudgetExhausted,
    BacklogDrained,
}

/// What the driver has to do next.
#[derive(Clone, Debug, PartialEq, Eq)]
pub enum LoopAction {
    /// Ask the store for the next job, then report `NextJob`.
    ClaimJob,
    /// Start the claimed job, poll it at once, and report `TaskPolled`.
    DispatchJob,
    /// Sleep one polling interval, poll the job again, report `TaskPolled`.
    WaitAndPoll,
    /// Sleep one polling interval, then report `Ready`.
    IdleSleep,
    /// Persist the job's artifacts, then report `Ready`.
    SaveResult,
    /// Persist the job's failure with this message, then report `Ready`.
    SaveFailure(String),
    /// Return from the loop.
    Finish(StopReason),
}

/// The decisions of the claim / supervise loop, as a state machine.
///
/// The ghost counters record the loop's history: how many claims it asked
/// for, how many jobs it dispatched and how many outcomes it handed out.
pub struct RunLoop {
    /// `None` runs without bound; `Some(n)` dispatches at most `n` more jobs.
    pub iterations_left: Option<usize>,
    pub phase: Phase,
    pub claims: Ghost<nat>,
    pub jobs: Ghost<nat>,
    pub successes: Ghost<nat>,
    pub failures: Ghost<nat>,
}

/// The model of a loop state, with plain mathematical counters.
pub struct LoopModel {
    pub iterations_left: Option<usize>,
    pub phase: Phase,
    pub claims: nat,
    pub jobs: nat,
    pub successes: nat,
    pub failures: nat,
}

/// The shape of an action, without the message that a failure carries.
pub enum ActionKind {
    ClaimJob,
    DispatchJob,
    WaitAndPoll,
    IdleSleep,
    SaveResult,
    SaveFailure,
    Finish(StopReason),
}

/// The shape of an action.
pub open spec fn kind_of(a: LoopAction) -> ActionKind {
    match a {
        LoopAction::ClaimJob => ActionKind::ClaimJob,
        LoopAction::DispatchJob => ActionKind::DispatchJob,
        LoopAction::WaitAndPoll => ActionKind::WaitAndPoll,
        LoopAction::IdleSleep => ActionKind::IdleSleep,
        LoopAction::SaveResult => ActionKind::SaveResult,
        LoopAction::SaveFailure(_) => ActionKind::SaveFailure,
        LoopAction::Finish(r) => ActionKind::Finish(r),
    }
}

/// The message of a failure action.
pub open spec fn message_of(a: LoopAction) -> Option<Seq<char>> {
    match a {
        LoopAction::SaveFailure(m) => Some(m@),
        _ => None,
    }
}

impl View for RunLoop {
    type V = LoopModel;

    open spec fn view(&self) -> LoopModel {
        LoopModel {
            iterations_left: self.iterations_left,
            phase: self.phase,
            claims: self.claims@,
            jobs: self.jobs@,
            successes: self.successes@,
            failures: self.failures@,
        }
    }
}

impl LoopModel {
    /// Outcomes handed out so far, of either kind.
    pub open spec fn outcomes(self) -> nat {
        self.successes + self.failures
    }

    /// The loop holds a dispatched job that has no outcome yet.
    pub open spec fn holds_job(self) -> bool {
        self.phase == Phase::Supervising
    }

    /// A fixed budget that has reached zero.
    pub open spec fn budget_exhausted(self) -> bool {
        self.iterations_left == Some(0usize)
    }

    /// The state invariant: every dispatched job but the one being
    /// supervised has exactly one outcome, and a claim is asked for only
    /// while some budget is left.
    pub open spec fn inv(self) -> bool {
        &&& self.jobs == self.outcomes() + if self.holds_job() { 1nat } else { 0nat }
        &&& self.jobs + if self.phase == Phase::Claiming { 1nat } else { 0nat } <= self.claims
        &&& (self.phase == Phase::Claiming ==> !self.budget_exhausted())
    }

    /// Which events the loop accepts in this state.
    pub open spec fn accepts(self, e: LoopEvent) -> bool {
        match e {
            LoopEvent::Ready(_) => self.phase == Phase::Idle,
            LoopEvent::NextJob(_) => self.phase == Phase::Claiming,
            LoopEvent::TaskPolled(_) => self.phase == Phase::Supervising,
        }
    }

    /// A fresh loop with the given budget.
    pub open spec fn initial(iterations_left: Option<usize>) -> LoopModel {
        LoopModel {
            iterations_left,
            phase: Phase::Idle,
            claims: 0,
            jobs: 0,
            successes: 0,
            failures: 0,
        }
    }

    /// The transition: the next state and the action for the driver.
    pub open spec fn next(self, e: LoopEvent) -> (LoopModel, ActionKind) {
        match e {
            LoopEvent::Ready(stop) => {
                if self.budget_exhausted() {
                    (
                        LoopModel { phase: Phase::Stopped, ..self },
                        ActionKind::Finish(StopReason::BudgetExhausted),
                    )
                } else if stop {
                    (
                        LoopModel { phase: Phase::Stopped, ..self },
                        ActionKind::Finish(StopReason::StopRequested),
                    )
                } else {
                    (
                        LoopModel { phase: Phase::Claiming, claims: self.claims + 1, ..self },
                        ActionKind::ClaimJob,
                    )
                }
            },
            LoopEvent::NextJob(found) => {
                if found {
                    (
                        LoopModel {
                            phase: Phase::Supervising,
                            iterations_left: match self.iterations_left {
                                Some(n) => Some(if n > 0 { (n - 1) as usize } else { 0 }),
                                None => None,
                            },
                            jobs: self.jobs + 1,
                            ..self
                        },
                        ActionKind::DispatchJob,
                    )
                } else if self.iterations_left.is_some() {
                    (
                        LoopModel { phase: Phase::Stopped, ..self },
                        ActionKind::Finish(StopReason::BacklogDrained),
                    )
                } else {
                    (LoopModel { phase: Phase::Idle, ..self }, ActionKind::IdleSleep)
                }
            },
            LoopEvent::TaskPolled(status) => match status {
                TaskStatus::Running => (self, ActionKind::WaitAndPoll),
                TaskStatus::Completed => (
                    LoopModel { phase: Phase::Idle, successes: self.successes + 1, ..self },
                    ActionKind::SaveResult,
                ),
                TaskStatus::Faulted(_) => (
                    LoopModel { phase: Phase::Idle, failures: self.failures + 1, ..self },
                    ActionKind::SaveFailure,
                ),
            },
        }
    }
}

impl RunLoop {
    /// A loop at its head, with nothing claimed yet.
    pub fn new(iterations_left: Option<usize>) -> (r: RunLoop)
        ensures
            r@ == LoopModel::initial(iterations_left),
            r@.inv(),
    {
        RunLoop {
            iterations_left,
            phase: Phase::Idle,
            claims: Ghost(0),
            jobs: Ghost(0),
            successes: Ghost(0),
            failures: Ghost(0),
        }
    }

    /// Whether the loop has finished.
    pub fn is_stopped(&self) -> (r: bool)
        ensures
            r == (self.phase == Phase::Stopped),
    {
        self.phase == Phase::Stopped
    }

    /// Whether `step` may be called with this event now.
    pub fn accepts(&self, e: &LoopEvent) -> (r: bool)
        ensures
            r == self@.accepts(*e),
    {
        match e {
            LoopEvent::Ready(_) => self.phase == Phase::Idle,
            LoopEvent::NextJob(_) => self.phase == Phase::Claiming,
            LoopEvent::TaskPolled(_) => self.phase == Phase::Supervising,
        }
    }

    /// Takes one event and returns the action that the driver carries out.
    pub fn step(&mut self, e: LoopEvent) -> (r: LoopAction)
        requires
            old(self)@.accepts(e),
        ensures
            (final(self)@, kind_of(r)) == old(self)@.next(e),
            old(self)@.inv() ==> final(self)@.inv(),
            message_of(r) == match e {
                LoopEvent::TaskPolled(TaskStatus::Faulted(f)) => Some(failure_message(f)),
                _ => None::<Seq<char>>,
            },
    {
        match e {
            LoopEvent::Ready(stop) => {
                if self.iterations_left == Some(0usize) {
                    self.phase = Phase::Stopped;
                    LoopAction::Finish(StopReason::BudgetExhausted)
                } else if stop {
                    self.phase = Phase::Stopped;
                    LoopAction::Finish(StopReason::StopRequested)
                } else {
                    self.phase = Phase::Claiming;
                    self.claims = Ghost(self.claims@ + 1);
                    LoopAction::ClaimJob
                }
            },
            LoopEvent::NextJob(found) => {
                if found {
                    self.phase = Phase::Supervising;
                    self.iterations_left = match self.iterations_left {
                        Some(n) => Some(if n > 0 { n - 1 } else { 0 }),
                        None => None,
                    };
                    self.jobs = Ghost(self.jobs@ + 1);
                    LoopAction::DispatchJob
                } else if self.iterations_left.is_some() {
                    self.phase = Phase::Stopped;
                    LoopAction::Finish(StopReason::BacklogDrained)
                } else {
                    self.phase = Phase::Idle;
                    LoopAction::IdleSleep
                }
            },
            LoopEvent::TaskPolled(status) => match status {
                TaskStatus::Running => LoopAction::WaitAndPoll,
                TaskStatus::Completed => {
                    self.phase = Phase::Idle;
                    self.successes = Ghost(self.successes@ + 1);
                    LoopAction::SaveResult
                },
                TaskStatus::Faulted(f) => {
                    self.phase = Phase::Idle;
                    self.failures = Ghost(self.failures@ + 1);
                    LoopAction::SaveFailure(diagnostic_message(&f))
                },
            },
        }
    }
}

} // verus!
