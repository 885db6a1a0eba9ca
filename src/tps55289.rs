//! Register model and conversions of the buck-boost regulator.

use vstd::prelude::*;

use crate::units::{Milliamps, Millivolts, Nanovolts};

verus! {

/// Bus address of the regulator.
pub const I2C_ADDRESS: u8 = 0x75;

/// Longest write transaction: the register address and four payload bytes.
pub const MAX_TRANSACTION_SIZE: usize = 5;

/// Reference voltage register: 16 bits, little endian, an 11-bit code.
pub const REG_VREF: u8 = 0x00;

/// Current limit register: a 7-bit setting and an enable bit.
pub const REG_IOUT_LIMIT: u8 = 0x02;

/// Output feedback select register.
pub const REG_VOUT_FS: u8 = 0x04;

/// Mode register: discharge (bit 4) and output enable (bit 7) among others.
pub const REG_MODE: u8 = 0x06;

/// Status register: operating status and the fault bits.
pub const REG_STATUS: u8 = 0x07;

/// Reference voltage at code zero, in nanovolts.
pub const VREF_OFFSET_NV: u32 = 45_000_000;

/// Reference voltage added by each code step, in nanovolts.
pub const VREF_STEP_NV: u32 = 564_500;

/// Number of codes that the 11-bit reference register holds.
pub const VREF_CODES: u16 = 2048;

/// Current sense resistance of the board, in milliohms.
pub const CURRENT_SENSE_MILLIOHM: u32 = 20;

/// Resolution of the current limit setting, in microvolts across the sense resistor.
pub const IOUT_LIMIT_STEP_UV: u32 = 500;

/// Largest value of the 7-bit current limit setting.
pub const IOUT_LIMIT_MAX_CODE: u8 = 127;

/// Internal feedback divider ratios, named by their value.
#[derive(Clone, Copy, Debug, PartialEq, Eq, Structural)]
pub enum IntFB {
    Ratio0_2256,
    Ratio0_1128,
    Ratio0_0752,
    Ratio0_0564,
}

/// The feedback ratio in parts per ten thousand.
pub open spec fn ratio_per_10k(fb: IntFB) -> int {
    match fb {
        IntFB::Ratio0_2256 => 2256,
        IntFB::Ratio0_1128 => 1128,
        IntFB::Ratio0_0752 => 752,
        IntFB::Ratio0_0564 => 564,
    }
}

/// The two-bit encoding of a ratio in the feedback select register.
pub open spec fn intfb_bits(fb: IntFB) -> u8 {
    match fb {
        IntFB::Ratio0_2256 => 0b00,
        IntFB::Ratio0_1128 => 0b01,
        IntFB::Ratio0_0752 => 0b10,
        IntFB::Ratio0_0564 => 0b11,
    }
}

impl IntFB {
    /// The ratio in parts per ten thousand.
    pub fn ratio(&self) -> (r: u32)
        ensures
            r == ratio_per_10k(*self),
    {
        match self {
            IntFB::Ratio0_2256 => 2_256,
            IntFB::Ratio0_1128 => 1_128,
            IntFB::Ratio0_0752 => 752,
            IntFB::Ratio0_0564 => 564,
        }
    }

    /// Scales `x` by the ratio, rounding down.
    pub fn multiply(&self, x: u32) -> (r: u32)
        requires
            x * ratio_per_10k(*self) <= u32::MAX,
        ensures
            r == x * ratio_per_10k(*self) / 10_000,
    {
        let ratio = self.ratio();
        x * ratio / 10_000
    }

    /// The register encoding of the ratio.
    pub fn bits(&self) -> (r: u8)
        ensures
            r == intfb_bits(*self),
    {
        match self {
            IntFB::Ratio0_2256 => 0b00,
            IntFB::Ratio0_1128 => 0b01,
            IntFB::Ratio0_0752 => 0b10,
            IntFB::Ratio0_0564 => 0b11,
        }
    }
}

/// Operating status reported in the two low bits of the status register.
#[derive(Clone, Copy, Debug, PartialEq, Eq, Structural)]
pub enum OperatingStatus {
    Boost,
    Buck,
    BuckBoost,
}

impl OperatingStatus {
    /// Decodes the two-bit field; the value 3 has no meaning.
    pub fn from_bits(v: u8) -> (r: Option<OperatingStatus>)
        ensures
            v == 0 ==> r == Some(OperatingStatus::Boost),
            v == 1 ==> r == Some(OperatingStatus::Buck),
            v == 2 ==> r == Some(OperatingStatus::BuckBoost),
            v > 2 ==> r is None,
    {
        if v == 0 {
            Some(OperatingStatus::Boost)
        } else if v == 1 {
            Some(OperatingStatus::Buck)
        } else if v == 2 {
            Some(OperatingStatus::BuckBoost)
        } else {
            None
        }
    }
}

/// Reference voltage, in nanovolts, that a code selects.
pub open spec fn vref_nanovolts(code: int) -> int {
    VREF_OFFSET_NV + VREF_STEP_NV * code
}

/// Code whose reference voltage is the largest not above `nv`.
pub open spec fn vref_code(nv: int) -> int {
    (nv - VREF_OFFSET_NV) / (VREF_STEP_NV as int)
}

/// Reference voltage, in nanovolts, that makes the output `target` through `fb`.
pub open spec fn target_nanovolts(target: Millivolts, fb: IntFB) -> int {
    target.0 * ratio_per_10k(fb) * 100
}

/// A reference voltage code of the regulator.
#[derive(Clone, Copy, Debug, PartialEq, Eq, Structural)]
pub struct VRef(pub u16);

impl VRef {
    /// The reference voltage that this code selects.
    pub fn into_nanovolts(self) -> (r: Nanovolts)
        requires
            vref_nanovolts(self.0 as int) <= u32::MAX,
        ensures
            r.0 == vref_nanovolts(self.0 as int),
    {
        Nanovolts(VREF_OFFSET_NV + VREF_STEP_NV * self.0 as u32)
    }

    /// The largest code whose reference voltage does not exceed `from`.
    pub fn from_nanovolts(from: Nanovolts) -> (r: Self)
        requires
            from.0 >= VREF_OFFSET_NV,
        ensures
            r.0 == vref_code(from.0 as int),
    {
        Self(((from.0 - VREF_OFFSET_NV) / VREF_STEP_NV) as u16)
    }

    /// The code that sets the output to `target` through the ratio `fb`.
    pub fn from_feedback(target: Millivolts, fb: IntFB) -> (r: Self)
        requires
            VREF_OFFSET_NV <= target_nanovolts(target, fb) <= u32::MAX,
        ensures
            r.0 == vref_code(target_nanovolts(target, fb)),
    {
        let ratio = fb.ratio();
        let mv = target.0 as u64;
        assert(mv * ratio * 100 <= 65535 * 2256 * 100) by (nonlinear_arith)
            requires
                mv <= 65535,
                ratio <= 2256,
        ;
        let nanovolts = mv * ratio as u64 * 100;
        VRef::from_nanovolts(Nanovolts(nanovolts as u32))
    }
}

/// Current limit setting for a target current, saturated at the field's width.
pub open spec fn iout_limit_code_spec(target: Milliamps) -> int {
    let code = target.0 * CURRENT_SENSE_MILLIOHM / (IOUT_LIMIT_STEP_UV as int);
    if code > IOUT_LIMIT_MAX_CODE {
        IOUT_LIMIT_MAX_CODE as int
    } else {
        code
    }
}

/// The current limit setting for `target`: the sense voltage in steps of the
/// register's resolution, saturated at the largest setting.
pub fn iout_limit_code(target: Milliamps) -> (r: u8)
    ensures
        r == iout_limit_code_spec(target),
{
    let limit_uv = target.0 as u32 * CURRENT_SENSE_MILLIOHM;
    let code = limit_uv / IOUT_LIMIT_STEP_UV;
    if code > IOUT_LIMIT_MAX_CODE as u32 {
        IOUT_LIMIT_MAX_CODE
    } else {
        code as u8
    }
}


/// The two output configurations the mode register is ever written with.
#[derive(Clone, Copy, Debug, PartialEq, Eq, Structural)]
pub enum OutputMode {
    /// Output disabled and actively discharged.
    SafeIdle,
    /// Output enabled, discharge off.
    Active,
}

/// Discharge bit of the mode register.
pub const MODE_DISCHG: u8 = 0x10;

/// Output enable bit of the mode register.
pub const MODE_OE: u8 = 0x80;

/// The mode register after writing `mode` over its current value `current`.
pub open spec fn mode_register_spec(mode: OutputMode, current: u8) -> u8 {
    match mode {
        OutputMode::SafeIdle => (current & 0x6f) | 0x10,
        OutputMode::Active => (current & 0x6f) | 0x80,
    }
}

impl OutputMode {
    /// The new mode register value: the discharge and enable bits set for this
    /// mode, every other bit kept from `current`.
    pub fn apply(self, current: u8) -> (r: u8)
        ensures
            r == mode_register_spec(self, current),
    {
        match self {
            OutputMode::SafeIdle => (current & 0x6f) | MODE_DISCHG,
            OutputMode::Active => (current & 0x6f) | MODE_OE,
        }
    }
}

/// Whatever the register held, a written mode has exactly one of discharge and
/// output enable set: discharge in safe idle, enable when active.
pub proof fn lemma_mode_exclusive(mode: OutputMode, current: u8)
    ensures
        mode == OutputMode::SafeIdle ==> mode_register_spec(mode, current) & 0x90 == 0x10,
        mode == OutputMode::Active ==> mode_register_spec(mode, current) & 0x90 == 0x80,
        mode_register_spec(mode, current) & 0x6f == current & 0x6f,
{
    assert(((current & 0x6f) | 0x10) & 0x90 == 0x10) by (bit_vector);
    assert(((current & 0x6f) | 0x80) & 0x90 == 0x80) by (bit_vector);
    assert(((current & 0x6f) | 0x10) & 0x6f == current & 0x6f) by (bit_vector);
    assert(((current & 0x6f) | 0x80) & 0x6f == current & 0x6f) by (bit_vector);
}

/// The decoded status register.
#[derive(Clone, Copy, Debug, PartialEq, Eq, Structural)]
pub struct Status {
    /// Operating status code, bits 0..2.
    pub status: u8,
    /// Over-voltage, bit 5.
    pub ovp: bool,
    /// Over-current, bit 6.
    pub ocp: bool,
    /// Short circuit, bit 7.
    pub scp: bool,
}

impl Status {
    /// Decodes a raw status register value.
    pub fn from_register(v: u8) -> (r: Status)
        ensures
            r.status == v & 0x03,
            r.ovp == (v & 0x20 != 0),
            r.ocp == (v & 0x40 != 0),
            r.scp == (v & 0x80 != 0),
    {
        Status { status: v & 0x03, ovp: v & 0x20 != 0, ocp: v & 0x40 != 0, scp: v & 0x80 != 0 }
    }

    /// The operating status, if the code is a known one.
    pub fn operating_status(&self) -> (r: Option<OperatingStatus>)
        ensures
            r is None <==> self.status > 2,
    {
        OperatingStatus::from_bits(self.status)
    }

    /// Over-current or short circuit: the faults that the supervisor reacts to.
    pub fn is_overcurrent(&self) -> (r: bool)
        ensures
            r == (self.ocp || self.scp),
    {
        self.ocp || self.scp
    }

    /// Any of the three fault bits, whatever the operating status.
    pub fn is_protection_event(&self) -> (r: bool)
        ensures
            r == (self.ovp || self.ocp || self.scp),
    {
        self.ovp || self.ocp || self.scp
    }
}

/// The feedback select register after selecting `fb` over its value `current`.
pub fn vout_fs_register(current: u8, fb: IntFB) -> (r: u8)
    ensures
        r == (current & 0xfc) | intfb_bits(fb),
{
    (current & 0xfc) | fb.bits()
}

/// The current limit register after setting `code` over its value `current`;
/// the enable bit is kept.
pub fn iout_limit_register(current: u8, code: u8) -> (r: u8)
    requires
        code <= IOUT_LIMIT_MAX_CODE,
    ensures
        r == (current & 0x80) | code,
{
    (current & 0x80) | code
}

/// The two bytes, low byte first, that set the reference register to `vref`.
pub fn vref_register(vref: VRef) -> (r: [u8; 2])
    requires
        vref.0 < VREF_CODES,
    ensures
        r@ == seq![(vref.0 % 256) as u8, (vref.0 / 256) as u8],
{
    let r = [(vref.0 % 256) as u8, (vref.0 / 256) as u8];
    assert(r@ == seq![(vref.0 % 256) as u8, (vref.0 / 256) as u8]);
    r
}

/// Every code of the 11-bit register survives the trip to nanovolts and back.
pub proof fn lemma_vref_round_trip(code: u16)
    requires
        code < VREF_CODES,
    ensures
        vref_nanovolts(code as int) <= u32::MAX,
        vref_nanovolts(code as int) >= VREF_OFFSET_NV,
        vref_code(vref_nanovolts(code as int)) == code,
{
}

/// For every ratio, the code chosen for a target is off by less than one step:
/// its reference voltage is at most the wanted one, and the next code's is above it.
pub proof fn lemma_vref_quantization(target: Millivolts, fb: IntFB)
    requires
        VREF_OFFSET_NV <= target_nanovolts(target, fb) <= u32::MAX,
    ensures
        vref_nanovolts(vref_code(target_nanovolts(target, fb))) <= target_nanovolts(target, fb),
        target_nanovolts(target, fb) < vref_nanovolts(vref_code(target_nanovolts(target, fb)) + 1),
{
}

/// The current limit setting never leaves the 7-bit field: it follows the
/// target up to the largest setting and saturates above it.
pub proof fn lemma_iout_limit_clamp(target: Milliamps)
    ensures
        0 <= iout_limit_code_spec(target) <= IOUT_LIMIT_MAX_CODE,
        iout_limit_code_spec(target) < 128,
        target.0 * CURRENT_SENSE_MILLIOHM / (IOUT_LIMIT_STEP_UV as int) <= IOUT_LIMIT_MAX_CODE
            ==> iout_limit_code_spec(target) == target.0 * CURRENT_SENSE_MILLIOHM / (
        IOUT_LIMIT_STEP_UV as int),
        target.0 * CURRENT_SENSE_MILLIOHM / (IOUT_LIMIT_STEP_UV as int) > IOUT_LIMIT_MAX_CODE
            ==> iout_limit_code_spec(target) == IOUT_LIMIT_MAX_CODE,
{
}

} // verus!
