use slakkotron::pd::{nvm_data, sink_pdo, Command, STUSB4500, STUSB4500Nvm};
use slakkotron::stusb4500::{
    poll_outcome, RdoStatus, MAX_POLLS, decode_fsm_state, gpio_register, pdo_numb_register, request_pending, Ctrl1OpCode, Error,
    FixedPdo, PdoChannel, PolicyEngineFSMState, REG_NVM_CTRL_0, REG_NVM_CTRL_1,
    REG_NVM_PASSWORD, REG_RW_BUFFER,
};

/// The NVM side of the controller, as the register protocol drives it.
struct Device {
    ctrl1: u8,
    buffer: [u8; 8],
    plr: [u8; 8],
    ser: u8,
    sectors: [[u8; 8]; 5],
    erases: usize,
    programs: usize,
}

impl Device {
    fn new(sectors: [[u8; 8]; 5]) -> Self {
        Device { ctrl1: 0, buffer: [0; 8], plr: [0; 8], ser: 0, sectors, erases: 0, programs: 0 }
    }

    fn run(&mut self, cmds: &[Command]) -> Vec<[u8; 8]> {
        let mut reads = Vec::new();
        for c in cmds {
            match *c {
                Command::Write { reg, value } => {
                    if reg == REG_NVM_CTRL_1 {
                        self.ctrl1 = value;
                    }
                }
                Command::Write32 { .. } => {}
                Command::Request { sector } => match self.ctrl1 & 7 {
                    0 => self.buffer = self.sectors[sector as usize],
                    1 => self.plr = self.buffer,
                    2 => self.ser = self.ctrl1 >> 3,
                    5 => {
                        self.erases += 1;
                        for i in 0..5 {
                            if self.ser & (1 << i) != 0 {
                                self.sectors[i] = [0xff; 8];
                            }
                        }
                    }
                    6 => {
                        self.programs += 1;
                        self.sectors[sector as usize] = self.plr;
                    }
                    _ => {}
                },
                Command::ReadBuffer => reads.push(self.buffer),
                Command::WriteBuffer { data } => self.buffer = data,
            }
        }
        reads
    }
}

fn unlocked() -> STUSB4500Nvm {
    STUSB4500::new::<()>(0x25).unwrap().unlock_nvm().0
}

fn bring_up(dev: &mut Device) -> usize {
    let nvm = unlocked();
    let reads = dev.run(&nvm.read_sectors());
    let current: [[u8; 8]; 5] = [reads[0], reads[1], reads[2], reads[3], reads[4]];
    let plan = nvm.update_sectors(&current, &nvm_data());
    dev.run(&plan);
    plan.len()
}

#[test]
fn sector_write_then_read_returns_bytes() {
    let nvm = unlocked();
    let mut dev = Device::new([[0x11; 8]; 5]);
    for s in 0u8..5 {
        let data = [s, 1, 2, 3, 0xfe, 0x80, 0x7f, s.wrapping_mul(37)];
        dev.run(&nvm.write_sector(s, &data));
        assert_eq!(dev.run(&nvm.read_sector(s)), vec![data]);
    }
}

#[test]
fn nvm_bring_up_is_idempotent() {
    let mut dev = Device::new([[0; 8]; 5]);
    assert!(bring_up(&mut dev) > 0);
    assert_eq!(dev.sectors, nvm_data());
    assert_eq!(dev.erases, 1);
    assert_eq!(dev.programs, 5);
    assert_eq!(bring_up(&mut dev), 0);
    assert_eq!(dev.erases, 1);
    assert_eq!(dev.programs, 5);
}

#[test]
fn golden_nvm_needs_no_update() {
    let nvm = unlocked();
    assert!(nvm.update_sectors(&nvm_data(), &nvm_data()).is_empty());
    let mut other = nvm_data();
    other[4][7] ^= 1;
    let plan = nvm.update_sectors(&other, &nvm_data());
    assert_eq!(plan.len(), 4 + 5 * 5);
}

#[test]
fn erase_precedes_programming() {
    let nvm = unlocked();
    let plan = nvm.write_sectors(&nvm_data());
    assert!(matches!(plan[0], Command::Write { reg: REG_NVM_CTRL_1, value: 0xfa }));
    assert!(matches!(plan[2], Command::Write { reg: REG_NVM_CTRL_1, value: 0x05 }));
    assert!(matches!(plan[4], Command::WriteBuffer { .. }));
    assert!(matches!(plan[plan.len() - 1], Command::Request { sector: 4 }));
}

#[test]
fn unlock_and_lock_sequences() {
    let dev = STUSB4500::new::<()>(0x25).unwrap();
    let (nvm, plan) = dev.unlock_nvm();
    assert_eq!(plan.len(), 3);
    assert!(matches!(plan[0], Command::Write { reg: REG_NVM_PASSWORD, value: 0x47 }));
    assert!(matches!(plan[1], Command::Write { reg: REG_NVM_CTRL_0, value: 0x00 }));
    assert!(matches!(plan[2], Command::Write { reg: REG_NVM_CTRL_0, value: 0xc0 }));
    let (_dev, plan) = nvm.lock_nvm();
    assert!(matches!(plan[0], Command::Write { reg: REG_NVM_CTRL_0, value: 0x00 }));
    assert!(matches!(plan[1], Command::Write { reg: REG_NVM_CTRL_1, value: 0x00 }));
    assert!(matches!(plan[2], Command::Write { reg: REG_NVM_PASSWORD, value: 0x00 }));
}

#[test]
fn device_id_mismatch() {
    assert!(matches!(STUSB4500::new::<()>(0x24), Err(Error::DeviceIDMismatch)));
    assert!(STUSB4500::new::<()>(0x25).is_ok());
}

#[test]
fn pd_commands() {
    let dev = STUSB4500::new::<()>(0x25).unwrap();
    let plan = dev.issue_pd_reset();
    assert!(matches!(plan[0], Command::Write { reg: 0x51, value: 0x0d }));
    assert!(matches!(plan[1], Command::Write { reg: 0x1a, value: 0x26 }));
    assert!(matches!(dev.gpio_set_level(true)[0], Command::Write { reg: 0x2d, value: 0 }));
    assert!(matches!(dev.gpio_set_level(false)[0], Command::Write { reg: 0x2d, value: 1 }));
    let plan = dev.set_pdo(PdoChannel::PDO2, sink_pdo());
    assert!(matches!(plan[0], Command::Write32 { reg: 0x89, word: 0x64064 }));
    assert_eq!(plan[0].frame(), Some(vec![0x89, 0x64, 0x40, 0x06, 0x00]));
}

#[test]
fn command_frames() {
    assert_eq!(Command::Write { reg: 0x97, value: 0x06 }.frame(), Some(vec![0x97, 0x06]));
    assert_eq!(Command::Request { sector: 3 }.frame(), Some(vec![0x96, 0xd3]));
    assert_eq!(Command::ReadBuffer.frame(), None);
    let f = Command::WriteBuffer { data: [1, 2, 3, 4, 5, 6, 7, 8] }.frame().unwrap();
    assert_eq!(f, vec![REG_RW_BUFFER, 1, 2, 3, 4, 5, 6, 7, 8]);
}

#[test]
fn fixed_pdo_packing() {
    let pdo = FixedPdo::new(400, 100);
    assert_eq!(pdo.0, 0x0006_4064);
    assert_eq!(pdo.voltage(), 400);
    assert_eq!(pdo.current(), 100);
    assert_eq!(FixedPdo::new(1024 + 3, 2048 + 5).0, 3 * 1024 + 5);
    assert_eq!(sink_pdo(), pdo);
}

#[test]
fn fsm_state_decoding() {
    assert_eq!(PolicyEngineFSMState::from_bits(0x18), Some(PolicyEngineFSMState::SnkReady));
    assert_eq!(PolicyEngineFSMState::from_bits(0x40), Some(PolicyEngineFSMState::Errorrecovery));
    assert_eq!(PolicyEngineFSMState::from_bits(0x05), None);
    assert_eq!(decode_fsm_state::<u8>(0x3b), Ok(PolicyEngineFSMState::HardResetRecovery));
    assert_eq!(decode_fsm_state::<u8>(0xff), Err(Error::InvalidValue));
    assert_eq!(Error::from(7u8), Error::I2C(7));
}

#[test]
fn small_register_helpers() {
    assert_eq!(gpio_register(true), 0);
    assert_eq!(gpio_register(false), 1);
    assert_eq!(pdo_numb_register(0xf8, 2), 0xfa);
    assert_eq!(pdo_numb_register(0x07, 2), 0x02);
    assert!(request_pending(0xd0));
    assert!(!request_pending(0xc0));
    assert_eq!(Ctrl1OpCode::WriteSector.bits(), 6);
    assert_eq!(PdoChannel::PDO3.register(), 0x8d);
}

#[test]
fn polling_gives_up_with_timeout() {
    assert_eq!(poll_outcome::<()>(0, true), Ok(true));
    assert_eq!(poll_outcome::<()>(0, false), Ok(false));
    assert_eq!(poll_outcome::<()>(MAX_POLLS - 2, false), Ok(false));
    assert_eq!(poll_outcome::<()>(MAX_POLLS - 1, false), Err(Error::Timeout));
    assert_eq!(poll_outcome::<()>(MAX_POLLS - 1, true), Ok(true));
}

#[test]
fn readback_decoding() {
    let dev = STUSB4500::new::<()>(0x25).unwrap();
    let v: u32 = (2 << 28) | (1 << 25) | (150 << 10) | 300;
    let rdo = dev.rdo(v);
    assert_eq!(
        rdo,
        RdoStatus {
            max_current: 300,
            current: 150,
            extended_supported: false,
            no_usb_suspend: false,
            usb_comms_capable: true,
            capability_mismatch: false,
            give_back: false,
            object_position: 2,
        }
    );
    assert_eq!(dev.fsm_state::<()>(0x18), Ok(PolicyEngineFSMState::SnkReady));
    assert_eq!(dev.fsm_state::<()>(0x20), Err(Error::InvalidValue));
    assert!(matches!(dev.set_pdo_num(0xf0, 2)[0], Command::Write { reg: 0x70, value: 0xf2 }));
    let nvm = dev.unlock_nvm().0;
    assert!(matches!(nvm.issue_request()[0], Command::Request { sector: 0 }));
    assert!(matches!(nvm.issue_request_with_sector(4)[0], Command::Request { sector: 4 }));
}
