//! Non-persistent measurements of the supply.

use vstd::prelude::*;

use crate::supervisor::State;
use crate::units::Millivolts;

verus! {

/// One sample of the supply's measurements.
#[derive(Clone, Copy, Debug, PartialEq, Eq, Structural)]
pub struct Data {
    pub vsupply_mv: Millivolts,
    pub vprog_mv: Millivolts,
    pub vout_mv: Millivolts,
    pub uptime_secs: u64,
    pub vout_state: State,
}

/// Programming voltage from its ADC reading, through a (100 + 100) / 100 divider.
pub fn factor_vprog(value: u16) -> (r: Millivolts)
    requires
        value * 2 <= u16::MAX,
    ensures
        r.0 == value * 2,
{
    Millivolts(value * 2)
}

/// Supply or output voltage from its ADC reading, through a (887 + 100) / 100
/// divider; the result keeps the low 16 bits.
pub fn factor_high(value: u16) -> (r: Millivolts)
    ensures
        r.0 == (value * 987 / 100) % 0x1_0000,
{
    let scaled = value as u32 * 987 / 100;
    Millivolts((scaled % 0x1_0000) as u16)
}

} // verus!
