//! Frame pacing and the frames-per-second counter: the arithmetic behind
//! "block the driver thread until at least the frame budget has elapsed
//! since the last tick began" and behind the once-a-second rate report.

use vstd::prelude::*;

verus! {

pub const NANOS_PER_SECOND: u64 = 1_000_000_000;

/// The per-frame time budget, in nanoseconds, for a target rate of
/// `target_fps` frames per second.
pub fn frame_budget_nanos(target_fps: u64) -> (budget: u64)
    requires
        target_fps > 0,
    ensures
        budget == NANOS_PER_SECOND / target_fps,
{
    NANOS_PER_SECOND / target_fps
}

/// How long the driver must still sleep, given the nanoseconds already
/// elapsed since the last tick began: the shortfall against the budget,
/// nothing when the budget is already spent.
pub open spec fn spec_sleep_nanos(elapsed: u64, budget: u64) -> u64 {
    if elapsed < budget {
        (budget - elapsed) as u64
    } else {
        0
    }
}

pub fn sleep_nanos(elapsed: u64, budget: u64) -> (sleep: u64)
    ensures
        sleep == spec_sleep_nanos(elapsed, budget),
        elapsed + sleep >= budget,
        sleep <= budget,
        elapsed >= budget ==> sleep == 0,
{
    if elapsed < budget {
        budget - elapsed
    } else {
        0
    }
}

/// Counts the ticks of the current second and keeps the last published rate.
#[derive(Clone, Copy, PartialEq, Eq, Structural, Debug)]
pub struct FpsCounter {
    /// Ticks counted since the rate was last published.
    pub frames: u64,
    /// The rate last published: the ticks of the preceding second.
    pub fps: u64,
}

/// The counter after one tick: the tick is counted (saturating at the type's
/// limit), and once at least a second has elapsed since the last report the
/// count is published as the new rate and reset.
pub open spec fn spec_tick(c: FpsCounter, elapsed_since_report: u64) -> (FpsCounter, Option<
    u64,
>) {
    let counted: u64 = if c.frames == u64::MAX {
        c.frames
    } else {
        (c.frames + 1) as u64
    };
    if elapsed_since_report >= NANOS_PER_SECOND {
        (FpsCounter { frames: 0, fps: counted }, Some(counted))
    } else {
        (FpsCounter { frames: counted, fps: c.fps }, None)
    }
}

impl FpsCounter {
    pub fn new() -> (c: FpsCounter)
        ensures
            c.frames == 0,
            c.fps == 0,
    {
        FpsCounter { frames: 0, fps: 0 }
    }

    /// Counts one tick; `elapsed_since_report` is how many nanoseconds have
    /// passed since the rate was last published (or since the counter was
    /// made). Returns the newly published rate when a second is up.
    pub fn tick(&mut self, elapsed_since_report: u64) -> (report: Option<u64>)
        ensures
            (*final(self), report) == spec_tick(*old(self), elapsed_since_report),
            report is Some ==> final(self).frames == 0 && final(self).fps == report->Some_0,
            report is None ==> final(self).fps == old(self).fps,
    {
        let counted: u64 = if self.frames == u64::MAX {
            self.frames
        } else {
            self.frames + 1
        };
        if elapsed_since_report >= NANOS_PER_SECOND {
            self.frames = 0;
            self.fps = counted;
            Some(counted)
        } else {
            self.frames = counted;
            None
        }
    }
}

} // verus!
