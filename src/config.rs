//! Operator settings of the supply and their partial updates.

use vstd::prelude::*;

use crate::units::{Milliamps, Millivolts};

verus! {

/// What the operator asks of the output.
#[derive(Clone, Copy, Debug, PartialEq, Eq, Structural)]
pub struct Settings {
    pub vout_mv: Millivolts,
    pub iout_ma: Milliamps,
    pub backoff_ms: u16,
}

/// A partial update of [`Settings`]: each field that is present replaces the current one.
#[derive(Clone, Copy, Debug, PartialEq, Eq, Structural)]
pub struct SettingsBuilder {
    pub vout_mv: Option<Millivolts>,
    pub iout_ma: Option<Milliamps>,
    pub backoff_ms: Option<u16>,
}

impl Default for Settings {
    /// 9 V, 500 mA, half a second of backoff.
    fn default() -> (r: Settings)
        ensures
            r == (Settings { vout_mv: Millivolts(9000), iout_ma: Milliamps(500), backoff_ms: 500 }),
    {
        Settings { vout_mv: Millivolts(9000), iout_ma: Milliamps(500), backoff_ms: 500 }
    }
}

/// The settings after an update: the fields the update holds, the rest unchanged.
pub open spec fn integrated(s: Settings, u: SettingsBuilder) -> Settings {
    Settings {
        vout_mv: match u.vout_mv {
            Some(v) => v,
            None => s.vout_mv,
        },
        iout_ma: match u.iout_ma {
            Some(v) => v,
            None => s.iout_ma,
        },
        backoff_ms: match u.backoff_ms {
            Some(v) => v,
            None => s.backoff_ms,
        },
    }
}

impl Settings {
    /// Takes over every field that `value` holds.
    pub fn integrate(&mut self, value: SettingsBuilder)
        ensures
            *final(self) == integrated(*old(self), value),
    {
        if let Some(vout_mv) = value.vout_mv {
            self.vout_mv = vout_mv;
        }
        if let Some(iout_ma) = value.iout_ma {
            self.iout_ma = iout_ma;
        }
        if let Some(backoff_ms) = value.backoff_ms {
            self.backoff_ms = backoff_ms;
        }
    }
}

} // verus!
