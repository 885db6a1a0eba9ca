//! Persistent over-current metrics.

use vstd::prelude::*;

verus! {

/// Delay, in milliseconds, between a change and writing it to flash.
pub const SYNC_PERIOD_MS: u64 = 10_000;

/// The persisted metrics.
#[derive(Clone, Copy, Debug, PartialEq, Eq, Structural)]
pub struct Data {
    pub overcurrent_count: u64,
    pub overcurrent_secs: u64,
}

impl Default for Data {
    fn default() -> (r: Data)
        ensures
            r == (Data { overcurrent_count: 0, overcurrent_secs: 0 }),
    {
        Data { overcurrent_count: 0, overcurrent_secs: 0 }
    }
}

/// The metrics and the pending flash write.
#[derive(Clone, Copy, Debug, PartialEq, Eq, Structural)]
pub struct Record {
    pub data: Data,
    /// When the pending write is due, in milliseconds.
    pub sync_at: Option<u64>,
}

impl Record {
    /// Metrics as loaded, nothing pending.
    pub fn new(data: Data) -> (r: Record)
        ensures
            r == (Record { data, sync_at: None }),
    {
        Record { data, sync_at: None }
    }

    /// Counts one more over-current episode of `duration_secs` at time `now`
    /// and schedules a write if none is pending. Returns whether it scheduled one.
    pub fn log_overcurrent(&mut self, duration_secs: u64, now: u64) -> (scheduled: bool)
        requires
            old(self).data.overcurrent_count < u64::MAX,
            old(self).data.overcurrent_secs + duration_secs <= u64::MAX,
            now + SYNC_PERIOD_MS <= u64::MAX,
        ensures
            final(self).data.overcurrent_count == old(self).data.overcurrent_count + 1,
            final(self).data.overcurrent_secs == old(self).data.overcurrent_secs + duration_secs,
            scheduled == old(self).sync_at is None,
            final(self).sync_at == (if scheduled {
                Some((now + SYNC_PERIOD_MS) as u64)
            } else {
                old(self).sync_at
            }),
    {
        self.data.overcurrent_count = self.data.overcurrent_count + 1;
        self.data.overcurrent_secs = self.data.overcurrent_secs + duration_secs;
        if self.sync_at.is_none() {
            self.sync_at = Some(now + SYNC_PERIOD_MS);
            true
        } else {
            false
        }
    }

    /// Takes the pending write: the data to store, and nothing pending after.
    pub fn take_sync(&mut self) -> (r: Data)
        ensures
            r == old(self).data,
            *final(self) == (Record { sync_at: None, ..*old(self) }),
    {
        self.sync_at = None;
        self.data
    }
}

} // verus!
