//! Register model of the USB-PD sink controller.

use vstd::prelude::*;

verus! {

/// Bus address of the controller.
pub const I2C_ADDRESS: u8 = 0x28;

/// Longest write transaction: the register address and eight payload bytes.
pub const MAX_TRANSACTION_SIZE: usize = 9;

/// Value of the device ID register once the controller is up.
pub const DEVICE_ID: u8 = 0x25;

pub const REG_PD_COMMAND_CTRL: u8 = 0x1A;
pub const REG_PE_FSM: u8 = 0x29;
pub const REG_GPIO_SW_GPIO: u8 = 0x2D;
pub const REG_DEVICE_ID: u8 = 0x2F;
pub const REG_TX_HEADER: u8 = 0x51;
/// Byte-stream endpoint through which NVM sectors are read and written.
pub const REG_RW_BUFFER: u8 = 0x53;
pub const REG_DPM_PDO_NUMB: u8 = 0x70;
pub const REG_DPM_SNK_PDO1: u8 = 0x85;
pub const REG_DPM_SNK_PDO2: u8 = 0x89;
pub const REG_DPM_SNK_PDO3: u8 = 0x8D;
pub const REG_RDO_STATUS: u8 = 0x91;
pub const REG_NVM_PASSWORD: u8 = 0x95;
pub const REG_NVM_CTRL_0: u8 = 0x96;
pub const REG_NVM_CTRL_1: u8 = 0x97;

/// Password that unlocks the NVM.
pub const NVM_PASSWORD: u8 = 0x47;

/// Transmit header that precedes a soft reset.
pub const TX_HEADER_SOFT_RESET: u8 = 0x0D;

/// PD command that sends a soft reset.
pub const PD_COMMAND_SOFT_RESET: u8 = 0x26;

/// NVM control 0: the sector field is bits 0..4.
pub const NVM_CTRL_0_REQUEST: u8 = 0x10;
pub const NVM_CTRL_0_ENABLE: u8 = 0x40;
pub const NVM_CTRL_0_POWER: u8 = 0x80;

/// Operations selected in bits 0..3 of NVM control 1.
#[derive(Clone, Copy, Debug, PartialEq, Eq, Structural)]
pub enum Ctrl1OpCode {
    /// Read the sector data
    ReadSector,
    /// Load the Program Load Register
    LoadPlr,
    /// Load the Sector Erase Register
    LoadSer,
    /// Dump the Program Load Register
    DumpPlr,
    /// Dump the Sector Erase Register
    DumpSer,
    /// Erase the specified sectors
    EraseSectors,
    /// Program the sector data to EEPROM
    WriteSector,
}

pub open spec fn opcode_bits(op: Ctrl1OpCode) -> u8 {
    match op {
        Ctrl1OpCode::ReadSector => 0x00,
        Ctrl1OpCode::LoadPlr => 0x01,
        Ctrl1OpCode::LoadSer => 0x02,
        Ctrl1OpCode::DumpPlr => 0x03,
        Ctrl1OpCode::DumpSer => 0x04,
        Ctrl1OpCode::EraseSectors => 0x05,
        Ctrl1OpCode::WriteSector => 0x06,
    }
}

impl Ctrl1OpCode {
    /// The register encoding of the operation.
    pub fn bits(&self) -> (r: u8)
        ensures
            r == opcode_bits(*self),
    {
        match self {
            Ctrl1OpCode::ReadSector => 0x00,
            Ctrl1OpCode::LoadPlr => 0x01,
            Ctrl1OpCode::LoadSer => 0x02,
            Ctrl1OpCode::DumpPlr => 0x03,
            Ctrl1OpCode::DumpSer => 0x04,
            Ctrl1OpCode::EraseSectors => 0x05,
            Ctrl1OpCode::WriteSector => 0x06,
        }
    }
}

/// States of the controller's policy engine.
#[derive(Clone, Copy, Debug, PartialEq, Eq, Structural)]
pub enum PolicyEngineFSMState {
    Init,
    SoftReset,
    HardReset,
    SendSoftReset,
    CBist,
    SnkStartup,
    SnkDiscovery,
    SnkWaitForCapabilities,
    SnkEvaluateCapabilities,
    SnkSelectCapabilities,
    SnkTransitionSink,
    SnkReady,
    SnkReadySending,
    HardResetShutdown,
    HardResetRecovery,
    Errorrecovery,
}

/// The wire value of each policy engine state.
pub open spec fn fsm_code(s: PolicyEngineFSMState) -> u8 {
    match s {
        PolicyEngineFSMState::Init => 0x00,
        PolicyEngineFSMState::SoftReset => 0x01,
        PolicyEngineFSMState::HardReset => 0x02,
        PolicyEngineFSMState::SendSoftReset => 0x03,
        PolicyEngineFSMState::CBist => 0x04,
        PolicyEngineFSMState::SnkStartup => 0x12,
        PolicyEngineFSMState::SnkDiscovery => 0x13,
        PolicyEngineFSMState::SnkWaitForCapabilities => 0x14,
        PolicyEngineFSMState::SnkEvaluateCapabilities => 0x15,
        PolicyEngineFSMState::SnkSelectCapabilities => 0x16,
        PolicyEngineFSMState::SnkTransitionSink => 0x17,
        PolicyEngineFSMState::SnkReady => 0x18,
        PolicyEngineFSMState::SnkReadySending => 0x19,
        PolicyEngineFSMState::HardResetShutdown => 0x3A,
        PolicyEngineFSMState::HardResetRecovery => 0x3B,
        PolicyEngineFSMState::Errorrecovery => 0x40,
    }
}

/// Whether `v` is the wire value of some policy engine state.
pub open spec fn is_fsm_code(v: u8) -> bool {
    exists|s: PolicyEngineFSMState| fsm_code(s) == v
}

impl PolicyEngineFSMState {
    /// Decodes a wire value; values of no state give `None`.
    pub fn from_bits(v: u8) -> (r: Option<PolicyEngineFSMState>)
        ensures
            r is Some <==> is_fsm_code(v),
            r is Some ==> fsm_code(r->0) == v,
    {
        let r = if v == 0x00 {
            Some(PolicyEngineFSMState::Init)
        } else if v == 0x01 {
            Some(PolicyEngineFSMState::SoftReset)
        } else if v == 0x02 {
            Some(PolicyEngineFSMState::HardReset)
        } else if v == 0x03 {
            Some(PolicyEngineFSMState::SendSoftReset)
        } else if v == 0x04 {
            Some(PolicyEngineFSMState::CBist)
        } else if v == 0x12 {
            Some(PolicyEngineFSMState::SnkStartup)
        } else if v == 0x13 {
            Some(PolicyEngineFSMState::SnkDiscovery)
        } else if v == 0x14 {
            Some(PolicyEngineFSMState::SnkWaitForCapabilities)
        } else if v == 0x15 {
            Some(PolicyEngineFSMState::SnkEvaluateCapabilities)
        } else if v == 0x16 {
            Some(PolicyEngineFSMState::SnkSelectCapabilities)
        } else if v == 0x17 {
            Some(PolicyEngineFSMState::SnkTransitionSink)
        } else if v == 0x18 {
            Some(PolicyEngineFSMState::SnkReady)
        } else if v == 0x19 {
            Some(PolicyEngineFSMState::SnkReadySending)
        } else if v == 0x3A {
            Some(PolicyEngineFSMState::HardResetShutdown)
        } else if v == 0x3B {
            Some(PolicyEngineFSMState::HardResetRecovery)
        } else if v == 0x40 {
            Some(PolicyEngineFSMState::Errorrecovery)
        } else {
            None
        };
        proof {
            if r is Some {
                assert(fsm_code(r->0) == v);
            } else {
                assert forall|s: PolicyEngineFSMState| fsm_code(s) != v by {}
            }
        }
        r
    }
}

/// Errors of the controller's driver, over the bus's own error type `E`.
#[derive(Clone, Copy, Debug, PartialEq, Eq)]
pub enum Error<E> {
    /// The bus failed.
    I2C(E),
    /// A buffered transfer moved fewer bytes than asked.
    IO,
    /// The device answered with another ID.
    DeviceIDMismatch,
    /// A register held a value that decodes to nothing.
    InvalidValue,
    /// The device did not become ready in the allowed number of polls.
    Timeout,
}

impl<E> From<E> for Error<E> {
    /// Wraps a bus error.
    fn from(value: E) -> (r: Error<E>)
        ensures
            r == Error::I2C(value),
    {
        Error::I2C(value)
    }
}

impl<E> vstd::std_specs::convert::FromSpecImpl<E> for Error<E> {
    open spec fn obeys_from_spec() -> bool {
        true
    }

    open spec fn from_spec(v: E) -> Error<E> {
        Error::I2C(v)
    }
}

/// The policy engine state in a register value, or `InvalidValue`.
pub fn decode_fsm_state<E>(v: u8) -> (r: Result<PolicyEngineFSMState, Error<E>>)
    ensures
        r is Ok <==> is_fsm_code(v),
        r is Ok ==> fsm_code(r->Ok_0) == v,
        r is Err ==> r->Err_0 == Error::<E>::InvalidValue,
{
    match PolicyEngineFSMState::from_bits(v) {
        Some(s) => Ok(s),
        None => Err(Error::InvalidValue),
    }
}

/// A fixed supply power data object: 32 packed bits, voltage in 50 mV units
/// at bits 10..20 and current in 10 mA units at bits 0..10.
#[derive(Clone, Copy, Debug, PartialEq, Eq, Structural)]
pub struct FixedPdo(pub u32);

impl FixedPdo {
    /// A fixed PDO with only voltage and current set; each keeps its low ten bits.
    pub fn new(voltage: u16, current: u16) -> (r: Self)
        ensures
            r.0 == (voltage % 1024) * 1024 + current % 1024,
    {
        FixedPdo((voltage as u32 % 1024) * 1024 + current as u32 % 1024)
    }

    /// Voltage field, in 50 mV units.
    pub fn voltage(&self) -> (r: u32)
        ensures
            r == (self.0 / 1024) % 1024,
    {
        (self.0 / 1024) % 1024
    }

    /// Current field, in 10 mA units.
    pub fn current(&self) -> (r: u32)
        ensures
            r == self.0 % 1024,
    {
        self.0 % 1024
    }
}

/// The three sink PDO slots.
#[derive(Clone, Copy, Debug, PartialEq, Eq, Structural)]
pub enum PdoChannel {
    PDO1,
    PDO2,
    PDO3,
}

impl PdoChannel {
    /// Register address of the slot.
    pub fn register(&self) -> (r: u8)
        ensures
            *self == PdoChannel::PDO1 ==> r == REG_DPM_SNK_PDO1,
            *self == PdoChannel::PDO2 ==> r == REG_DPM_SNK_PDO2,
            *self == PdoChannel::PDO3 ==> r == REG_DPM_SNK_PDO3,
    {
        match self {
            PdoChannel::PDO1 => REG_DPM_SNK_PDO1,
            PdoChannel::PDO2 => REG_DPM_SNK_PDO2,
            PdoChannel::PDO3 => REG_DPM_SNK_PDO3,
        }
    }
}

/// The GPIO register value for an indicator level: the pin is active low.
pub fn gpio_register(level: bool) -> (r: u8)
    ensures
        r == (if level {
            0u8
        } else {
            1u8
        }),
{
    if level {
        0
    } else {
        1
    }
}

/// The PDO count register after setting `num` over its value `current`.
pub fn pdo_numb_register(current: u8, num: u8) -> (r: u8)
    ensures
        r == (current / 8) * 8 + num % 8,
{
    (current / 8) * 8 + num % 8
}

/// Whether an NVM control 0 value still shows a request in progress.
pub fn request_pending(ctrl0: u8) -> (r: bool)
    ensures
        r == ((ctrl0 / 16) % 2 == 1),
{
    (ctrl0 / 16) % 2 == 1
}


/// Polls of a readiness register before giving up.
pub const MAX_POLLS: u32 = 1000;

/// What to do after poll number `attempt` (counted from zero) found the device
/// `ready` or not: done, poll again, or give up with `Timeout`.
pub fn poll_outcome<E>(attempt: u32, ready: bool) -> (r: Result<bool, Error<E>>)
    ensures
        ready ==> r == Ok::<bool, Error<E>>(true),
        !ready && attempt + 1 < MAX_POLLS ==> r == Ok::<bool, Error<E>>(false),
        !ready && attempt + 1 >= MAX_POLLS ==> r == Err::<bool, Error<E>>(Error::Timeout),
{
    if ready {
        Ok(true)
    } else if attempt < MAX_POLLS - 1 {
        Ok(false)
    } else {
        Err(Error::Timeout)
    }
}

/// The decoded RDO status register: the request data object the sink sent.
#[derive(Clone, Copy, Debug, PartialEq, Eq, Structural)]
pub struct RdoStatus {
    /// Bits 0..10, in 10 mA units.
    pub max_current: u16,
    /// Bits 10..20, in 10 mA units.
    pub current: u16,
    pub extended_supported: bool,
    pub no_usb_suspend: bool,
    pub usb_comms_capable: bool,
    pub capability_mismatch: bool,
    pub give_back: bool,
    /// Bits 28..32: which source PDO was requested.
    pub object_position: u8,
}

/// The fields of an RDO status register value.
pub open spec fn rdo_spec(v: u32) -> RdoStatus {
    RdoStatus {
        max_current: (v % 0x400) as u16,
        current: ((v / 0x400) % 0x400) as u16,
        extended_supported: (v / 0x80_0000) % 2 == 1,
        no_usb_suspend: (v / 0x100_0000) % 2 == 1,
        usb_comms_capable: (v / 0x200_0000) % 2 == 1,
        capability_mismatch: (v / 0x400_0000) % 2 == 1,
        give_back: (v / 0x800_0000) % 2 == 1,
        object_position: (v / 0x1000_0000) as u8,
    }
}

impl RdoStatus {
    /// Decodes the 32-bit register value.
    pub fn from_register(v: u32) -> (r: RdoStatus)
        ensures
            r == rdo_spec(v),
    {
        RdoStatus {
            max_current: (v % 0x400) as u16,
            current: ((v / 0x400) % 0x400) as u16,
            extended_supported: (v / 0x80_0000) % 2 == 1,
            no_usb_suspend: (v / 0x100_0000) % 2 == 1,
            usb_comms_capable: (v / 0x200_0000) % 2 == 1,
            capability_mismatch: (v / 0x400_0000) % 2 == 1,
            give_back: (v / 0x800_0000) % 2 == 1,
            object_position: (v / 0x1000_0000) as u8,
        }
    }
}

} // verus!
