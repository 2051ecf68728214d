//! The timer state machine.
//!
//! Time is modeled in whole seconds on a monotonic clock: callers pass the
//! current instant into `start`, `pause` and `tick`, and remaining time is
//! always re-derived from absolute timestamps, never decremented per frame.

use vstd::prelude::*;

verus! {

/// Default length of a work interval, in seconds (25 minutes).
pub const DEFAULT_WORK_SECONDS: u64 = 25 * 60;

/// Default length of a break interval, in seconds (5 minutes).
pub const DEFAULT_BREAK_SECONDS: u64 = 5 * 60;

/// State of a countdown timer over one work interval, or, in the
/// alternating variant, over work and break intervals in turn.
pub struct TimerState {
    /// Span of time allotted to a work interval; constant after construction.
    pub work_duration: u64,
    /// Span of time allotted to a break interval; constant after construction,
    /// unused in the single-interval variant.
    pub break_duration: u64,
    /// Span allotted to whichever interval is active now.
    pub current_duration: u64,
    /// Instant at which the current run segment began; `None` when not running.
    pub started_at: Option<u64>,
    /// Time already elapsed in the current interval before the latest run
    /// segment started, so that pausing does not lose progress.
    pub accumulated_elapsed: u64,
    /// Whether time is actively advancing.
    pub running: bool,
    /// Which interval type is active; meaningful in the alternating variant.
    pub is_work_period: bool,
    /// True exactly from the moment the active interval reaches zero until
    /// the next explicit start or reset.
    pub ended: bool,
    /// Whether the timer advances automatically between work and break
    /// intervals when one expires.
    pub alternating: bool,
}

impl TimerState {
    /// The configured duration of the work or of the break interval.
    pub open spec fn duration_of_period(self, work: bool) -> u64 {
        if work {
            self.work_duration
        } else {
            self.break_duration
        }
    }

    /// Well-formedness: the timer is running exactly when a run segment has a
    /// start instant, banked elapsed time never exceeds the active interval,
    /// and the active duration agrees with the active interval type.
    pub open spec fn wf(self) -> bool {
        &&& self.running <==> self.started_at is Some
        &&& self.accumulated_elapsed <= self.current_duration
        &&& if self.alternating {
                self.current_duration == self.duration_of_period(self.is_work_period)
            } else {
                self.current_duration == self.work_duration
            }
    }

    /// A freshly constructed single-interval timer.
    pub open spec fn initial_single(work_duration: u64) -> TimerState {
        TimerState {
            work_duration,
            break_duration: 0,
            current_duration: work_duration,
            started_at: None,
            accumulated_elapsed: 0,
            running: false,
            is_work_period: true,
            ended: false,
            alternating: false,
        }
    }

    /// A freshly constructed alternating timer, idle in its work interval.
    pub open spec fn initial_alternating(work_duration: u64, break_duration: u64) -> TimerState {
        TimerState {
            work_duration,
            break_duration,
            current_duration: work_duration,
            started_at: None,
            accumulated_elapsed: 0,
            running: false,
            is_work_period: true,
            ended: false,
            alternating: true,
        }
    }

    /// Time elapsed in the current run segment at instant `now`; zero when
    /// no segment is running.
    pub open spec fn segment_elapsed_at(self, now: int) -> int {
        match self.started_at {
            Some(t) => now - t,
            None => 0,
        }
    }

    /// Total time elapsed in the active interval at instant `now`.
    pub open spec fn elapsed_at(self, now: int) -> int {
        self.accumulated_elapsed + self.segment_elapsed_at(now)
    }

    /// Remaining time of the active interval at instant `now`, clamped so
    /// that it is never negative.
    pub open spec fn remaining_at(self, now: int) -> int {
        if self.elapsed_at(now) >= self.current_duration {
            0
        } else {
            self.current_duration - self.elapsed_at(now)
        }
    }

    /// Numerator of the progress fraction at instant `now`: the part of the
    /// active interval already spent, with `current_duration` as denominator.
    pub open spec fn progress_elapsed_at(self, now: int) -> int {
        self.current_duration - self.remaining_at(now)
    }

    /// The active interval expires at instant `now` while the timer runs.
    pub open spec fn at_boundary(self, now: int) -> bool {
        self.running && self.remaining_at(now) == 0
    }

    /// State after `start` at instant `now`: a no-op while running, otherwise
    /// a new run segment begins and any expiry notice is cleared.
    pub open spec fn spec_start(self, now: u64) -> TimerState {
        if self.running {
            self
        } else {
            TimerState { started_at: Some(now), running: true, ended: false, ..self }
        }
    }

    /// State after `pause` at instant `now`: a no-op while not running,
    /// otherwise the run segment's elapsed time is banked, clamped to the
    /// active interval's duration.
    pub open spec fn spec_pause(self, now: u64) -> TimerState {
        if self.running {
            TimerState {
                started_at: None,
                running: false,
                accumulated_elapsed: if self.elapsed_at(now as int) >= self.current_duration {
                    self.current_duration
                } else {
                    self.elapsed_at(now as int) as u64
                },
                ..self
            }
        } else {
            self
        }
    }

    /// State after `reset`: idle in the work interval with nothing elapsed.
    pub open spec fn spec_reset(self) -> TimerState {
        TimerState {
            current_duration: self.work_duration,
            started_at: None,
            accumulated_elapsed: 0,
            running: false,
            is_work_period: true,
            ended: false,
            ..self
        }
    }

    /// State after `tick` at instant `now`. Away from an interval boundary
    /// the state is unchanged. At a boundary the expiry is recorded; the
    /// alternating variant additionally switches to the other interval type
    /// and restarts it at `now` without leaving the running state.
    pub open spec fn spec_tick(self, now: u64) -> TimerState {
        if self.at_boundary(now as int) {
            if self.alternating {
                TimerState {
                    ended: true,
                    is_work_period: !self.is_work_period,
                    current_duration: self.duration_of_period(!self.is_work_period),
                    accumulated_elapsed: 0,
                    started_at: Some(now),
                    ..self
                }
            } else {
                TimerState { ended: true, ..self }
            }
        } else {
            self
        }
    }

    /// Builds a single-interval timer that counts down `work_duration`
    /// seconds once and stops there.
    pub fn new_single(work_duration: u64) -> (r: TimerState)
        ensures
            r == TimerState::initial_single(work_duration),
            r.wf(),
    {
        TimerState {
            work_duration,
            break_duration: 0,
            current_duration: work_duration,
            started_at: None,
            accumulated_elapsed: 0,
            running: false,
            is_work_period: true,
            ended: false,
            alternating: false,
        }
    }

    /// Builds an alternating timer that cycles between a work interval of
    /// `work_duration` seconds and a break interval of `break_duration`
    /// seconds, starting idle in the work interval.
    pub fn new_alternating(work_duration: u64, break_duration: u64) -> (r: TimerState)
        ensures
            r == TimerState::initial_alternating(work_duration, break_duration),
            r.wf(),
    {
        TimerState {
            work_duration,
            break_duration,
            current_duration: work_duration,
            started_at: None,
            accumulated_elapsed: 0,
            running: false,
            is_work_period: true,
            ended: false,
            alternating: true,
        }
    }

    /// Begins a run segment at instant `now`. A no-op while already running;
    /// otherwise records `now` as the segment's start and clears any expiry
    /// notice, keeping all banked elapsed time.
    pub fn start(&mut self, now: u64)
        requires
            old(self).wf(),
        ensures
            *final(self) == old(self).spec_start(now),
            final(self).wf(),
    {
        if !self.running {
            self.started_at = Some(now);
            self.running = true;
            self.ended = false;
        }
    }

    /// Pauses the timer at instant `now`. A no-op while not running;
    /// otherwise the run segment's elapsed time is folded into
    /// `accumulated_elapsed`, clamped to the active interval's duration so
    /// that remaining time is never negative.
    pub fn pause(&mut self, now: u64)
        requires
            old(self).wf(),
            old(self).started_at matches Some(t) ==> now >= t,
        ensures
            *final(self) == old(self).spec_pause(now),
            final(self).wf(),
            !final(self).running,
    {
        if self.running {
            let t: u64 = self.started_at.unwrap();
            let segment: u64 = now - t;
            let room: u64 = self.current_duration - self.accumulated_elapsed;
            if segment >= room {
                self.accumulated_elapsed = self.current_duration;
            } else {
                self.accumulated_elapsed = self.accumulated_elapsed + segment;
            }
            self.started_at = None;
            self.running = false;
        }
    }

    /// Returns the timer to an idle work interval with nothing elapsed,
    /// whatever state it was in.
    pub fn reset(&mut self)
        ensures
            *final(self) == old(self).spec_reset(),
            final(self).current_duration == old(self).work_duration,
            final(self).accumulated_elapsed == 0,
            !final(self).running,
            final(self).started_at is None,
            final(self).is_work_period,
            !final(self).ended,
            final(self).wf(),
    {
        self.current_duration = self.work_duration;
        self.started_at = None;
        self.accumulated_elapsed = 0;
        self.running = false;
        self.is_work_period = true;
        self.ended = false;
    }

    /// Remaining time of the active interval at instant `now`, re-derived
    /// from absolute timestamps and clamped to zero. A pure query: the
    /// boundary-crossing mutation lives in `tick`.
    pub fn remaining(&self, now: u64) -> (r: u64)
        requires
            self.wf(),
            self.started_at matches Some(t) ==> now >= t,
        ensures
            r == self.remaining_at(now as int),
            r <= self.current_duration,
    {
        let segment: u64 = match self.started_at {
            Some(t) => now - t,
            None => 0,
        };
        let room: u64 = self.current_duration - self.accumulated_elapsed;
        if segment >= room {
            0
        } else {
            room - segment
        }
    }

    /// Evaluates one frame at instant `now`: derives the mm:ss display and
    /// the progress fraction from the remaining time, and, where the active
    /// interval has just expired while running, records the boundary
    /// crossing as `spec_tick` describes.
    pub fn tick(&mut self, now: u64) -> (r: TickView)
        requires
            old(self).wf(),
            old(self).started_at matches Some(t) ==> now >= t,
        ensures
            *final(self) == old(self).spec_tick(now),
            final(self).wf(),
            r.minutes == old(self).remaining_at(now as int) / 60,
            r.seconds == old(self).remaining_at(now as int) % 60,
            r.progress_num == old(self).progress_elapsed_at(now as int),
            r.progress_den == old(self).current_duration,
            r.progress_num <= r.progress_den,
    {
        let remaining: u64 = self.remaining(now);
        let den: u64 = self.current_duration;
        let num: u64 = den - remaining;
        if remaining == 0 && self.running {
            self.ended = true;
            if self.alternating {
                self.is_work_period = !self.is_work_period;
                self.current_duration = if self.is_work_period {
                    self.work_duration
                } else {
                    self.break_duration
                };
                self.accumulated_elapsed = 0;
                self.started_at = Some(now);
            }
        }
        TickView { minutes: remaining / 60, seconds: remaining % 60, progress_num: num, progress_den: den }
    }

    /// Whether an interval has expired since the last start or reset; the
    /// presentation layer reads this to show an expiry notice and to ring
    /// its alert at most once per boundary crossing.
    pub fn alert_pending(&self) -> (r: bool)
        ensures
            r == self.ended,
    {
        self.ended
    }
}

/// Display values for one frame: the remaining time split into minutes and
/// seconds, and the progress fraction `progress_num / progress_den` of the
/// active interval already spent. The numerator never exceeds the
/// denominator; a zero denominator stands for an interval of no length,
/// whose progress reads as zero.
pub struct TickView {
    pub minutes: u64,
    pub seconds: u64,
    pub progress_num: u64,
    pub progress_den: u64,
}

impl Default for TimerState {
    /// The alternating timer as first shown to the user: a 25-minute work
    /// interval against a 5-minute break, idle in the work interval.
    fn default() -> (r: TimerState)
        ensures
            r == TimerState::initial_alternating(DEFAULT_WORK_SECONDS, DEFAULT_BREAK_SECONDS),
            r.wf(),
    {
        TimerState::new_alternating(DEFAULT_WORK_SECONDS, DEFAULT_BREAK_SECONDS)
    }
}

} // verus!
