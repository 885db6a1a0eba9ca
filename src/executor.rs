//! Sleep accounting of the thread-mode executor.

use vstd::prelude::*;

verus! {

/// Ticks spent asleep out of the ticks elapsed over a measuring window.
#[derive(Clone, Copy, Debug, PartialEq, Eq, Structural)]
pub struct SleepStats {
    sleep: u64,
    total: u64,
}

impl SleepStats {
    /// The window that ends at `now`: `sleep` ticks asleep since `from`.
    pub fn current_restart(sleep: u64, from: u64, now: u64) -> (r: SleepStats)
        requires
            from <= now,
        ensures
            r.sleep() == sleep,
            r.total() == now - from,
    {
        SleepStats { sleep, total: now - from }
    }

    pub closed spec fn sleep(self) -> u64 {
        self.sleep
    }

    pub closed spec fn total(self) -> u64 {
        self.total
    }

    /// Share of the window spent asleep, in thousandths.
    pub fn as_permille(&self) -> (r: u64)
        requires
            self.total() > 0,
            self.sleep() * 1000 <= u64::MAX,
        ensures
            r == self.sleep() * 1000 / (self.total() as int),
    {
        self.sleep * 1000 / self.total
    }
}

} // verus!
