//! Laws of the timer state machine, proved over the transition functions
//! that the operations' contracts are stated with.

use vstd::prelude::*;
use crate::timer::TimerState;

verus! {

/// Running a fresh interval of positive duration `d` for exactly `d` seconds
/// exhausts it: after `start` at `t0`, the remaining time at `t0 + d` is zero
/// and the frame evaluated there marks the interval as ended.
pub proof fn lemma_full_duration_ends(s: TimerState, d: u64, t0: u64)
    requires
        s.wf(),
        !s.running,
        s.accumulated_elapsed == 0,
        s.current_duration == d,
        d > 0,
        t0 + d <= u64::MAX,
    ensures
        s.spec_start(t0).remaining_at(t0 + d) == 0,
        s.spec_start(t0).spec_tick((t0 + d) as u64).ended,
{
}

/// Pausing twice in a row is the same as pausing once: the second `pause`
/// finds the timer stopped and changes nothing, whatever the instants, so in
/// particular the accumulated elapsed time is the same.
pub proof fn lemma_pause_idempotent(s: TimerState, now1: u64, now2: u64)
    ensures
        s.spec_pause(now1).spec_pause(now2) == s.spec_pause(now1),
        s.spec_pause(now1).spec_pause(now2).accumulated_elapsed
            == s.spec_pause(now1).accumulated_elapsed,
{
}

/// Pause/resume conservation: starting at `t0`, evaluating a frame at `t1`,
/// pausing at `t1` and starting again at `t2` leaves, at `t3`, the same
/// remaining time as one uninterrupted run measured after a combined span of
/// `(t1 - t0) + (t3 - t2)` seconds. The first segment must stop short of the
/// interval boundary: crossing it is not a pause but an expiry.
pub proof fn lemma_pause_resume_conservation(s: TimerState, t0: u64, t1: u64, t2: u64, t3: u64)
    requires
        s.wf(),
        !s.running,
        t0 <= t1,
        t2 <= t3,
        s.spec_start(t0).remaining_at(t1 as int) > 0,
    ensures
        ({
            let split = s.spec_start(t0).spec_tick(t1).spec_pause(t1).spec_start(t2);
            let single = s.spec_start(t0);
            split.remaining_at(t3 as int)
                == single.remaining_at(t0 + (t1 - t0) + (t3 - t2))
        }),
{
}

/// Crossing an interval boundary in the alternating variant switches to the
/// other interval type at once: its configured duration becomes the active
/// one, the elapsed counters restart at `now`, and the timer keeps running
/// with no idle stop in between, while the expiry is still recorded.
pub proof fn lemma_boundary_auto_continues(s: TimerState, now: u64)
    requires
        s.wf(),
        s.alternating,
        s.at_boundary(now as int),
    ensures
        ({
            let next = s.spec_tick(now);
            &&& next.is_work_period == !s.is_work_period
            &&& next.current_duration == s.duration_of_period(!s.is_work_period)
            &&& next.running
            &&& next.started_at == Some(now)
            &&& next.accumulated_elapsed == 0
            &&& next.ended
            &&& next.wf()
        }),
{
}

/// Progress is monotone for a running, unpaused timer: at successive
/// instants the remaining time never grows, so the progress fraction —
/// whose denominator, the active interval's duration, is fixed between
/// boundaries — never decreases.
pub proof fn lemma_progress_monotone(s: TimerState, t1: u64, t2: u64)
    requires
        s.wf(),
        s.running,
        t1 <= t2,
    ensures
        s.remaining_at(t2 as int) <= s.remaining_at(t1 as int),
        s.progress_elapsed_at(t1 as int) <= s.progress_elapsed_at(t2 as int),
{
}

} // verus!
