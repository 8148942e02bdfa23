use vstd::prelude::*;

verus! {

/// Lets a task run at most once per interval. Times are in milliseconds on a
/// monotonic clock.
pub struct Throttle {
    min_interval_ms: u64,
    last_run_ms: Option<u64>,
}

impl View for Throttle {
    /// The interval, and when the task last ran.
    type V = (u64, Option<u64>);

    closed spec fn view(&self) -> (u64, Option<u64>) {
        (self.min_interval_ms, self.last_run_ms)
    }
}

/// Whether a task that last ran at `last_run` may run at `now`: the time elapsed,
/// counted as zero if the clock reads earlier, has reached the interval.
pub open spec fn may_run(min_interval: u64, last_run: Option<u64>, now: u64) -> bool {
    match last_run {
        None => true,
        Some(last) => !((if now >= last { now - last } else { 0int }) < min_interval),
    }
}

impl Throttle {
    /// Throttles to at most one run per `min_interval_ms` milliseconds.
    pub fn one_run_per(min_interval_ms: u64) -> (t: Throttle)
        ensures
            t@ == (min_interval_ms, None::<u64>),
    {
        Throttle { min_interval_ms, last_run_ms: None }
    }

    /// Throttles to at most `runs_per_sec` runs per second.
    pub fn max_runs_per_sec(runs_per_sec: u64) -> (t: Throttle)
        requires
            runs_per_sec > 0,
        ensures
            t@ == ((1000int / runs_per_sec as int) as u64, None::<u64>),
    {
        Throttle::one_run_per(1000 / runs_per_sec)
    }

    /// Decides whether the task runs at `now_ms`, and if so records the run.
    pub fn throttle(&mut self, now_ms: u64) -> (run: bool)
        ensures
            run == may_run(old(self)@.0, old(self)@.1, now_ms),
            final(self)@ == (if run {
                (old(self)@.0, Some(now_ms))
            } else {
                old(self)@
            }),
    {
        if let Some(last) = self.last_run_ms {
            let elapsed = if now_ms >= last {
                now_ms - last
            } else {
                0
            };
            if elapsed < self.min_interval_ms {
                return false;
            }
        }
        self.last_run_ms = Some(now_ms);
        true
    }
}

} // verus!
