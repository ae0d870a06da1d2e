use vstd::prelude::*;

verus! {

/// Where a loop stands in its life: waiting to make its first deadline
/// check, asleep before its next bout of work, just done working, or
/// past its deadline for good.
#[derive(Clone, Copy, Debug, PartialEq, Eq, Structural)]
pub enum Phase {
    Idle,
    Sleeping,
    Working,
    Terminated,
}

/// What the host must do next on a loop's behalf: sleep for the loop's
/// interval, perform the loop's work under the shared lock, or stop.
#[derive(Clone, Copy, Debug, PartialEq, Eq, Structural)]
pub enum Directive {
    Sleep,
    Work,
    Stop,
}

/// A loop's fixed timing: how long each sleep lasts and how long the
/// whole run may last, in the same time unit.
#[derive(Clone, Copy, Debug, PartialEq, Eq, Structural)]
pub struct Schedule {
    pub interval: u64,
    pub total: u64,
}

/// The transition both loops follow: the deadline is checked before
/// each sleep, work follows each completed sleep, and a loop past its
/// deadline stays terminated.
pub open spec fn spec_next_step(phase: Phase, sched: Schedule, elapsed: u64) -> (Phase, Directive) {
    match phase {
        Phase::Idle | Phase::Working => if elapsed >= sched.total {
            (Phase::Terminated, Directive::Stop)
        } else {
            (Phase::Sleeping, Directive::Sleep)
        },
        Phase::Sleeping => (Phase::Working, Directive::Work),
        Phase::Terminated => (Phase::Terminated, Directive::Stop),
    }
}

/// Advance a loop by one step of its state machine, given the time
/// elapsed since the loop entered. Each loop owns its own timing
/// state; neither observes the other's.
pub fn next_step(phase: Phase, sched: &Schedule, elapsed: u64) -> (r: (Phase, Directive))
    ensures
        r == spec_next_step(phase, *sched, elapsed),
{
    match phase {
        Phase::Idle | Phase::Working => if elapsed >= sched.total {
            (Phase::Terminated, Directive::Stop)
        } else {
            (Phase::Sleeping, Directive::Sleep)
        },
        Phase::Sleeping => (Phase::Working, Directive::Work),
        Phase::Terminated => (Phase::Terminated, Directive::Stop),
    }
}

/// A loop given a zero-length run duration stops at its very first
/// deadline check, whatever the clock reads and whatever its interval:
/// it never sleeps and never works, so no cycle runs and no snapshot
/// is written. Re-running changes nothing, since the step function
/// carries no state beyond its arguments.
pub proof fn lemma_zero_duration_stops_at_once(sched: Schedule, elapsed: u64)
    requires
        sched.total == 0,
    ensures
        spec_next_step(Phase::Idle, sched, elapsed) == (Phase::Terminated, Directive::Stop),
{
}

/// Once a loop has terminated it stays terminated: no later elapsed
/// reading revives it.
pub proof fn lemma_terminated_is_final(sched: Schedule, elapsed: u64)
    ensures
        spec_next_step(Phase::Terminated, sched, elapsed) == (
            Phase::Terminated,
            Directive::Stop,
        ),
{
}

/// Work is directed only from the sleeping phase, so every bout of
/// work is preceded by a full sleep, and a deadline already met at the
/// check before that sleep prevents the work entirely.
pub proof fn lemma_work_only_after_sleep(phase: Phase, sched: Schedule, elapsed: u64)
    requires
        spec_next_step(phase, sched, elapsed).1 == Directive::Work,
    ensures
        phase == Phase::Sleeping,
{
}

} // verus!
