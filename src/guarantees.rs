use vstd::prelude::*;

use crate::fault::{failure_message, Fault};
use crate::run_loop::{ActionKind, LoopEvent, LoopModel, Phase, StopReason, TaskStatus};

verus! {

/// The answer of a backlog that holds `pending` claimable jobs, a stop signal
/// that is never set, and jobs that complete at their first poll. Returns the
/// event for the loop and the number of jobs still pending afterwards.
pub open spec fn respond(s: LoopModel, pending: nat) -> (LoopEvent, nat) {
    match s.phase {
        Phase::Idle => (LoopEvent::Ready(false), pending),
        Phase::Claiming => if pending > 0 {
            (LoopEvent::NextJob(true), (pending - 1) as nat)
        } else {
            (LoopEvent::NextJob(false), 0)
        },
        _ => (LoopEvent::TaskPolled(TaskStatus::Completed), pending),
    }
}

/// Runs the loop against that backlog for at most `steps` events, or until it
/// stops. Returns the last state and the number of jobs still pending.
pub open spec fn drive(s: LoopModel, pending: nat, steps: nat) -> (LoopModel, nat)
    decreases steps,
{
    if steps == 0 || s.phase == Phase::Stopped {
        (s, pending)
    } else {
        let (e, p) = respond(s, pending);
        drive(s.next(e).0, p, (steps - 1) as nat)
    }
}

/// The smaller of two naturals.
pub open spec fn min_nat(a: nat, b: nat) -> nat {
    if a <= b {
        a
    } else {
        b
    }
}

/// The loop never holds more than one unresolved job: every step keeps the
/// invariant, a claim is asked for and a job dispatched only while every earlier
/// job has its outcome, and at most one dispatched job lacks one.
pub proof fn lemma_single_job_in_flight(s: LoopModel, e: LoopEvent)
    requires
        s.inv(),
        s.accepts(e),
    ensures
        s.next(e).0.inv(),
        s.next(e).0.jobs <= s.next(e).0.outcomes() + 1,
        s.next(e).1 == ActionKind::ClaimJob ==> s.jobs == s.outcomes() && s.next(e).0.jobs
            == s.next(e).0.outcomes(),
        s.next(e).1 == ActionKind::DispatchJob ==> s.jobs == s.outcomes(),
{
}

/// With a budget of zero the loop returns at once and claims nothing, whatever
/// the stop signal says.
pub proof fn lemma_zero_budget_claims_nothing(stop: bool)
    ensures
        LoopModel::initial(Some(0usize)).next(LoopEvent::Ready(stop)).1 == ActionKind::Finish(
            StopReason::BudgetExhausted,
        ),
        LoopModel::initial(Some(0usize)).next(LoopEvent::Ready(stop)).0.phase == Phase::Stopped,
        LoopModel::initial(Some(0usize)).next(LoopEvent::Ready(stop)).0.claims == 0,
{
}

/// A stop signal that is set before the first claim ends the loop with no claim.
pub proof fn lemma_stop_before_first_claim(iterations_left: Option<usize>)
    ensures
        LoopModel::initial(iterations_left).next(LoopEvent::Ready(true)).1 is Finish,
        LoopModel::initial(iterations_left).next(LoopEvent::Ready(true)).0.phase == Phase::Stopped,
        LoopModel::initial(iterations_left).next(LoopEvent::Ready(true)).0.claims == 0,
        LoopModel::initial(iterations_left).next(LoopEvent::Ready(true)).0.jobs == 0,
{
}

/// While a job is supervised the loop neither reads the stop signal nor stops:
/// each event leaves it supervising the same job or gives that job its outcome.
/// Stopping is possible only in a state that holds no job.
pub proof fn lemma_supervised_job_resolves(s: LoopModel, e: LoopEvent)
    requires
        s.inv(),
        s.holds_job(),
        s.accepts(e),
    ensures
        s.next(e).0.phase != Phase::Stopped,
        s.next(e).0.phase == Phase::Supervising ==> s.next(e).0 == s,
        s.next(e).0.phase == Phase::Idle ==> s.next(e).0.outcomes() == s.outcomes() + 1
            && s.next(e).0.jobs == s.next(e).0.outcomes(),
        e is TaskPolled,
{
}

/// Stopping leaves no job without its outcome.
pub proof fn lemma_stopped_holds_no_job(s: LoopModel)
    requires
        s.inv(),
        s.phase == Phase::Stopped,
    ensures
        s.jobs == s.outcomes(),
{
}

/// A supervised job gets exactly one outcome: a failure, with a non-empty
/// message, when it faulted, a success when it completed, and none while it runs.
pub proof fn lemma_one_outcome_per_job(s: LoopModel, status: TaskStatus)
    requires
        s.inv(),
        s.holds_job(),
    ensures
        ({
            let (t, a) = s.next(LoopEvent::TaskPolled(status));
            match status {
                TaskStatus::Running => t == s && a == ActionKind::WaitAndPoll,
                TaskStatus::Completed => a == ActionKind::SaveResult && t.successes
                    == s.successes + 1 && t.failures == s.failures && !t.holds_job(),
                TaskStatus::Faulted(f) => a == ActionKind::SaveFailure && t.failures
                    == s.failures + 1 && t.successes == s.successes && !t.holds_job()
                    && failure_message(f).len() > 0,
            }
        }),
{
    if let TaskStatus::Faulted(f) = status {
        lemma_failure_message_nonempty(f);
    }
}

/// Every fault gets a non-empty diagnostic message.
pub proof fn lemma_failure_message_nonempty(f: Fault)
    ensures
        failure_message(f).len() > 0,
{
    reveal_strlit("Unknown panic");
    reveal_strlit("Cancelled task");
}

/// From the idle state with budget `k`, against a backlog of `p` jobs and no stop
/// signal, the loop dispatches `min(k, p)` jobs, gives each its outcome, and stops.
pub proof fn lemma_bounded_run_from_idle(s: LoopModel, k: usize, p: nat)
    requires
        s.inv(),
        s.phase == Phase::Idle,
        s.iterations_left == Some(k),
    ensures
        ({
            let (t, rest) = drive(s, p, (3 * k + 2) as nat);
            &&& t.phase == Phase::Stopped
            &&& t.jobs == s.jobs + min_nat(k as nat, p)
            &&& t.outcomes() == t.jobs
            &&& rest == p - min_nat(k as nat, p)
            &&& t.claims == s.claims + if p >= k { k as nat } else { p + 1 }
        }),
    decreases k,
{
    let steps = (3 * k + 2) as nat;
    if k == 0 {
        let t1 = s.next(LoopEvent::Ready(false)).0;
        assert(drive(s, p, steps) == drive(t1, p, (steps - 1) as nat));
        assert(drive(t1, p, (steps - 1) as nat) == (t1, p));
    } else if p == 0 {
        let t1 = s.next(LoopEvent::Ready(false)).0;
        let t2 = t1.next(LoopEvent::NextJob(false)).0;
        assert(drive(s, p, steps) == drive(t1, p, (steps - 1) as nat));
        assert(drive(t1, p, (steps - 1) as nat) == drive(t2, 0, (steps - 2) as nat));
        assert(drive(t2, 0, (steps - 2) as nat) == (t2, 0nat));
    } else {
        let t1 = s.next(LoopEvent::Ready(false)).0;
        let t2 = t1.next(LoopEvent::NextJob(true)).0;
        let t3 = t2.next(LoopEvent::TaskPolled(TaskStatus::Completed)).0;
        let q = (p - 1) as nat;
        let k1 = (k - 1) as usize;
        assert(drive(s, p, steps) == drive(t1, p, (steps - 1) as nat));
        assert(drive(t1, p, (steps - 1) as nat) == drive(t2, q, (steps - 2) as nat));
        assert(drive(t2, q, (steps - 2) as nat) == drive(t3, q, (steps - 3) as nat));
        assert((steps - 3) as nat == (3 * k1 + 2) as nat);
        lemma_bounded_run_from_idle(t3, k1, q);
    }
}

/// A run with budget `n` against a backlog of `pending` jobs, with no stop
/// signal: when the backlog holds at least `n` jobs exactly `n` are claimed and
/// resolved and the rest stay pending; when it holds fewer, the loop stops as
/// soon as a claim finds the backlog empty, after resolving all of them.
pub proof fn lemma_bounded_run(n: usize, pending: nat)
    ensures
        ({
            let (t, rest) = drive(LoopModel::initial(Some(n)), pending, (3 * n + 2) as nat);
            &&& t.phase == Phase::Stopped
            &&& t.outcomes() == t.jobs
            &&& (pending >= n ==> t.claims == n && t.jobs == n && rest == pending - n)
            &&& (pending < n ==> t.claims == pending + 1 && t.jobs == pending && rest == 0)
        }),
{
    lemma_bounded_run_from_idle(LoopModel::initial(Some(n)), n, pending);
}

} // verus!
