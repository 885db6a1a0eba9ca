//! Driver of the USB-PD sink controller, as plans of bus commands.
//!
//! Each operation returns the commands the caller performs on the bus, in
//! order. The NVM can only be worked on through [`STUSB4500Nvm`], which
//! unlocking yields and locking gives back, so that sector work never
//! interleaves with PD traffic.

use vstd::prelude::*;

use crate::stusb4500::{
    decode_fsm_state, fsm_code, gpio_register, is_fsm_code, pdo_numb_register, rdo_spec, Error,
    FixedPdo, PdoChannel, PolicyEngineFSMState, RdoStatus, DEVICE_ID, MAX_TRANSACTION_SIZE,
    NVM_CTRL_0_ENABLE, NVM_CTRL_0_POWER, NVM_CTRL_0_REQUEST, NVM_PASSWORD, PD_COMMAND_SOFT_RESET,
    REG_DPM_PDO_NUMB, REG_DPM_SNK_PDO1, REG_DPM_SNK_PDO2, REG_DPM_SNK_PDO3, REG_GPIO_SW_GPIO,
    REG_NVM_CTRL_0, REG_NVM_CTRL_1, REG_NVM_PASSWORD, REG_PD_COMMAND_CTRL, REG_RW_BUFFER,
    REG_TX_HEADER, TX_HEADER_SOFT_RESET,
};
use crate::transport::write_frame;

verus! {

/// Number of NVM sectors.
pub const NUM_SECTORS: usize = 5;

/// One bus-level step of a driver operation.
#[derive(Clone, Copy, Debug)]
pub enum Command {
    /// Write one byte to an 8-bit register.
    Write { reg: u8, value: u8 },
    /// Write a 32-bit register, low byte first.
    Write32 { reg: u8, word: u32 },
    /// Start an NVM operation on `sector` (power, enable and request set in
    /// NVM control 0), then read NVM control 0 until the request bit clears.
    Request { sector: u8 },
    /// Read the eight bytes of the sector buffer.
    ReadBuffer,
    /// Fill the sector buffer with eight bytes.
    WriteBuffer { data: [u8; 8] },
}

/// NVM control 0 value that starts a request on `sector`.
pub open spec fn request_value(sector: u8) -> u8 {
    (sector + 0xD0) as u8
}

/// NVM control 0 value that starts a request on `sector`.
pub fn request_register(sector: u8) -> (r: u8)
    requires
        sector < 16,
    ensures
        r == request_value(sector),
{
    sector + NVM_CTRL_0_POWER + NVM_CTRL_0_ENABLE + NVM_CTRL_0_REQUEST
}

pub open spec fn unlock_spec() -> Seq<Command> {
    seq![
        Command::Write { reg: REG_NVM_PASSWORD, value: NVM_PASSWORD },
        Command::Write { reg: REG_NVM_CTRL_0, value: 0x00 },
        Command::Write { reg: REG_NVM_CTRL_0, value: 0xC0 },
    ]
}

pub open spec fn lock_spec() -> Seq<Command> {
    seq![
        Command::Write { reg: REG_NVM_CTRL_0, value: 0x00 },
        Command::Write { reg: REG_NVM_CTRL_1, value: 0x00 },
        Command::Write { reg: REG_NVM_PASSWORD, value: 0x00 },
    ]
}

/// Load the sector erase register with all five sectors, then erase them.
pub open spec fn erase_spec() -> Seq<Command> {
    seq![
        Command::Write { reg: REG_NVM_CTRL_1, value: 0xFA },
        Command::Request { sector: 0 },
        Command::Write { reg: REG_NVM_CTRL_1, value: 0x05 },
        Command::Request { sector: 0 },
    ]
}

pub open spec fn read_sector_spec(sector: u8) -> Seq<Command> {
    seq![
        Command::Write { reg: REG_NVM_CTRL_1, value: 0x00 },
        Command::Request { sector },
        Command::ReadBuffer,
    ]
}

/// Fill the buffer, load it into the program load register, then program the sector.
pub open spec fn write_sector_spec(sector: u8, data: [u8; 8]) -> Seq<Command> {
    seq![
        Command::WriteBuffer { data },
        Command::Write { reg: REG_NVM_CTRL_1, value: 0x01 },
        Command::Request { sector: 0 },
        Command::Write { reg: REG_NVM_CTRL_1, value: 0x06 },
        Command::Request { sector },
    ]
}

/// Reads of sectors `0..n`, in order.
pub open spec fn read_upto(n: nat) -> Seq<Command>
    decreases n,
{
    if n == 0 {
        Seq::empty()
    } else {
        read_upto((n - 1) as nat) + read_sector_spec((n - 1) as u8)
    }
}

/// Writes of sectors `0..n` from `data`, in order.
pub open spec fn write_upto(data: [[u8; 8]; 5], n: nat) -> Seq<Command>
    decreases n,
{
    if n == 0 {
        Seq::empty()
    } else {
        write_upto(data, (n - 1) as nat) + write_sector_spec((n - 1) as u8, data@[n - 1])
    }
}

pub open spec fn write_all_spec(data: [[u8; 8]; 5]) -> Seq<Command> {
    erase_spec() + write_upto(data, 5)
}

/// The contents of five sectors as sequences.
pub open spec fn sectors_view(a: [[u8; 8]; 5]) -> Seq<Seq<u8>> {
    Seq::new(5, |i: int| a@[i]@)
}

/// Commands that bring the NVM from `current` to `golden`: none when they match.
pub open spec fn update_spec(current: Seq<Seq<u8>>, golden: [[u8; 8]; 5]) -> Seq<Command> {
    if current == sectors_view(golden) {
        Seq::empty()
    } else {
        write_all_spec(golden)
    }
}


/// The controller's NVM side as the commands above drive it: the operation
/// selected in NVM control 1, the sector buffer, the program load register,
/// the sector erase register and the five sectors.
pub struct NvmModel {
    pub ctrl1: u8,
    pub buffer: Seq<u8>,
    pub plr: Seq<u8>,
    pub ser: u8,
    pub sectors: Seq<Seq<u8>>,
}

/// Contents of an erased sector.
pub open spec fn erased_sector() -> Seq<u8> {
    Seq::new(8, |i: int| 0xFFu8)
}

/// Whether the sector erase register selects sector `i`.
pub open spec fn erase_selected(ser: u8, i: int) -> bool {
    if i == 0 {
        ser % 2 == 1
    } else if i == 1 {
        (ser / 2) % 2 == 1
    } else if i == 2 {
        (ser / 4) % 2 == 1
    } else if i == 3 {
        (ser / 8) % 2 == 1
    } else if i == 4 {
        (ser / 16) % 2 == 1
    } else {
        false
    }
}

/// A completed request: the operation selected in NVM control 1 on `sector`.
pub open spec fn nvm_op(m: NvmModel, sector: u8) -> NvmModel {
    let op = m.ctrl1 % 8;
    if op == 0 {
        NvmModel { buffer: m.sectors[sector as int], ..m }
    } else if op == 1 {
        NvmModel { plr: m.buffer, ..m }
    } else if op == 2 {
        NvmModel { ser: m.ctrl1 / 8, ..m }
    } else if op == 5 {
        NvmModel {
            sectors: Seq::new(
                m.sectors.len(),
                |i: int|
                    if erase_selected(m.ser, i) {
                        erased_sector()
                    } else {
                        m.sectors[i]
                    },
            ),
            ..m
        }
    } else if op == 6 {
        NvmModel { sectors: m.sectors.update(sector as int, m.plr), ..m }
    } else {
        m
    }
}

/// The effect of one command on the NVM side.
pub open spec fn apply(m: NvmModel, c: Command) -> NvmModel {
    match c {
        Command::Write { reg, value } => if reg == REG_NVM_CTRL_1 {
            NvmModel { ctrl1: value, ..m }
        } else {
            m
        },
        Command::Write32 { .. } => m,
        Command::Request { sector } => nvm_op(m, sector),
        Command::ReadBuffer => m,
        Command::WriteBuffer { data } => NvmModel { buffer: data@, ..m },
    }
}

/// The NVM side after `cmds`, in order.
pub open spec fn run(m: NvmModel, cmds: Seq<Command>) -> NvmModel
    decreases cmds.len(),
{
    if cmds.len() == 0 {
        m
    } else {
        run(apply(m, cmds[0]), cmds.drop_first())
    }
}

/// What the buffer reads among `cmds` return, in order.
pub open spec fn reads(m: NvmModel, cmds: Seq<Command>) -> Seq<Seq<u8>>
    decreases cmds.len(),
{
    if cmds.len() == 0 {
        Seq::empty()
    } else {
        (if cmds[0] is ReadBuffer {
            seq![m.buffer]
        } else {
            Seq::empty()
        }) + reads(apply(m, cmds[0]), cmds.drop_first())
    }
}

/// Bring-up of the NVM: read every sector, then reprogram all of them when
/// they differ from `golden`. Gives the NVM side after it and the commands issued.
pub open spec fn bring_up_spec(m: NvmModel, golden: [[u8; 8]; 5]) -> (NvmModel, Seq<Command>) {
    let first = read_upto(5);
    let then = update_spec(reads(m, first), golden);
    (run(run(m, first), then), first + then)
}

proof fn lemma_run_concat(m: NvmModel, a: Seq<Command>, b: Seq<Command>)
    ensures
        run(m, a + b) == run(run(m, a), b),
        reads(m, a + b) == reads(m, a) + reads(run(m, a), b),
    decreases a.len(),
{
    if a.len() == 0 {
        assert(a + b == b);
    } else {
        assert((a + b)[0] == a[0]);
        assert((a + b).drop_first() == a.drop_first() + b);
        lemma_run_concat(apply(m, a[0]), a.drop_first(), b);
        let head = if a[0] is ReadBuffer {
            seq![m.buffer]
        } else {
            Seq::<Seq<u8>>::empty()
        };
        assert(head + (reads(apply(m, a[0]), a.drop_first()) + reads(run(m, a), b)) == (head
            + reads(apply(m, a[0]), a.drop_first())) + reads(run(m, a), b));
    }
}

proof fn lemma_read_sector(m: NvmModel, s: u8)
    requires
        s < m.sectors.len(),
    ensures
        run(m, read_sector_spec(s)).sectors == m.sectors,
        reads(m, read_sector_spec(s)) == seq![m.sectors[s as int]],
{
    let c = read_sector_spec(s);
    let m1 = apply(m, c[0]);
    let m2 = apply(m1, c[1]);
    assert(c.drop_first() == seq![c[1], c[2]]);
    assert(c.drop_first().drop_first() == seq![c[2]]);
    assert(c.drop_first().drop_first().drop_first() == Seq::<Command>::empty());
    assert(m2.buffer == m.sectors[s as int]);
    reveal_with_fuel(run, 4);
    reveal_with_fuel(reads, 4);
    assert(reads(m, c) == Seq::<Seq<u8>>::empty() + (Seq::<Seq<u8>>::empty() + (seq![m2.buffer]
        + Seq::<Seq<u8>>::empty())));
}

proof fn lemma_read_upto(m: NvmModel, n: nat)
    requires
        n <= m.sectors.len(),
        n <= 5,
    ensures
        run(m, read_upto(n)).sectors == m.sectors,
        reads(m, read_upto(n)) == m.sectors.subrange(0, n as int),
    decreases n,
{
    if n > 0 {
        let k = (n - 1) as nat;
        lemma_read_upto(m, k);
        lemma_run_concat(m, read_upto(k), read_sector_spec(k as u8));
        lemma_read_sector(run(m, read_upto(k)), k as u8);
        assert(m.sectors.subrange(0, n as int) == m.sectors.subrange(0, k as int) + seq![
            m.sectors[k as int],
        ]);
    } else {
        assert(read_upto(0) == Seq::<Command>::empty());
    }
}

proof fn lemma_write_sector(m: NvmModel, s: u8, data: [u8; 8])
    requires
        s < m.sectors.len(),
    ensures
        run(m, write_sector_spec(s, data)).sectors == m.sectors.update(s as int, data@),
        reads(m, write_sector_spec(s, data)) == Seq::<Seq<u8>>::empty(),
{
    let c = write_sector_spec(s, data);
    assert(c.drop_first() == seq![c[1], c[2], c[3], c[4]]);
    assert(c.drop_first().drop_first() == seq![c[2], c[3], c[4]]);
    assert(c.drop_first().drop_first().drop_first() == seq![c[3], c[4]]);
    assert(c.drop_first().drop_first().drop_first().drop_first() == seq![c[4]]);
    assert(c.drop_first().drop_first().drop_first().drop_first().drop_first()
        == Seq::<Command>::empty());
    reveal_with_fuel(run, 6);
    reveal_with_fuel(reads, 6);
    assert(reads(m, c) =~= Seq::<Seq<u8>>::empty());
}

proof fn lemma_erase(m: NvmModel)
    ensures
        run(m, erase_spec()).sectors.len() == m.sectors.len(),
        reads(m, erase_spec()) == Seq::<Seq<u8>>::empty(),
{
    let c = erase_spec();
    assert(c.drop_first() == seq![c[1], c[2], c[3]]);
    assert(c.drop_first().drop_first() == seq![c[2], c[3]]);
    assert(c.drop_first().drop_first().drop_first() == seq![c[3]]);
    assert(c.drop_first().drop_first().drop_first().drop_first() == Seq::<Command>::empty());
    reveal_with_fuel(run, 5);
    reveal_with_fuel(reads, 5);
    assert(reads(m, c) =~= Seq::<Seq<u8>>::empty());
}

proof fn lemma_write_upto(m: NvmModel, g: [[u8; 8]; 5], n: nat)
    requires
        m.sectors.len() == 5,
        n <= 5,
    ensures
        run(m, write_upto(g, n)).sectors == Seq::new(
            5,
            |i: int|
                if i < n {
                    g@[i]@
                } else {
                    m.sectors[i]
                },
        ),
    decreases n,
{
    if n > 0 {
        let k = (n - 1) as nat;
        lemma_write_upto(m, g, k);
        lemma_run_concat(m, write_upto(g, k), write_sector_spec(k as u8, g@[k as int]));
        lemma_write_sector(run(m, write_upto(g, k)), k as u8, g@[k as int]);
    } else {
        assert(write_upto(g, 0) == Seq::<Command>::empty());
    }
}

proof fn lemma_write_all(m: NvmModel, g: [[u8; 8]; 5])
    requires
        m.sectors.len() == 5,
    ensures
        run(m, write_all_spec(g)).sectors == sectors_view(g),
{
    lemma_erase(m);
    lemma_run_concat(m, erase_spec(), write_upto(g, 5));
    lemma_write_upto(run(m, erase_spec()), g, 5);
}

/// Programming sector `s` with any eight bytes and then reading it back,
/// with no erase between, returns exactly those bytes.
pub proof fn lemma_sector_write_then_read(m: NvmModel, s: u8, data: [u8; 8])
    requires
        m.sectors.len() == NUM_SECTORS,
        s < NUM_SECTORS,
    ensures
        reads(run(m, write_sector_spec(s, data)), read_sector_spec(s)) == seq![data@],
{
    lemma_write_sector(m, s, data);
    lemma_read_sector(run(m, write_sector_spec(s, data)), s);
}

/// Bring-up leaves the NVM holding the golden image, and a second bring-up
/// right after it only reads: it issues no erase and no programming.
pub proof fn lemma_bring_up_idempotent(m: NvmModel, golden: [[u8; 8]; 5])
    requires
        m.sectors.len() == NUM_SECTORS,
    ensures
        bring_up_spec(m, golden).0.sectors == sectors_view(golden),
        bring_up_spec(bring_up_spec(m, golden).0, golden).1 == read_upto(5),
        bring_up_spec(bring_up_spec(m, golden).0, golden).0.sectors == sectors_view(golden),
{
    let first = read_upto(5);
    lemma_read_upto(m, 5);
    let m1 = run(m, first);
    assert(reads(m, first) == m.sectors);
    if reads(m, first) == sectors_view(golden) {
        assert(update_spec(reads(m, first), golden) == Seq::<Command>::empty());
    } else {
        lemma_write_all(m1, golden);
    }
    let n = bring_up_spec(m, golden).0;
    lemma_read_upto(n, 5);
    assert(reads(n, first) == sectors_view(golden));
    assert(update_spec(reads(n, first), golden) == Seq::<Command>::empty());
    assert(first + Seq::<Command>::empty() == first);
}


/// The configuration the controller's NVM must hold.
pub open spec fn golden_spec() -> Seq<Seq<u8>> {
    seq![
        seq![0x00u8, 0x00, 0xB0, 0xAB, 0x00, 0x45, 0x00, 0x00],
        seq![0x00u8, 0x40, 0x9C, 0x1C, 0xFF, 0x01, 0x3C, 0xDF],
        seq![0x02u8, 0x40, 0x0F, 0x00, 0x32, 0x00, 0xFC, 0xF1],
        seq![0x00u8, 0x19, 0x50, 0xAF, 0xF5, 0x35, 0x5F, 0x00],
        seq![0x00u8, 0x4B, 0x90, 0x21, 0x43, 0x00, 0x40, 0xFB],
    ]
}

/// The configuration the controller's NVM must hold.
pub fn nvm_data() -> (r: [[u8; 8]; 5])
    ensures
        sectors_view(r) == golden_spec(),
{
    let r = [
        [0x00, 0x00, 0xB0, 0xAB, 0x00, 0x45, 0x00, 0x00],
        [0x00, 0x40, 0x9C, 0x1C, 0xFF, 0x01, 0x3C, 0xDF],
        [0x02, 0x40, 0x0F, 0x00, 0x32, 0x00, 0xFC, 0xF1],
        [0x00, 0x19, 0x50, 0xAF, 0xF5, 0x35, 0x5F, 0x00],
        [0x00, 0x4B, 0x90, 0x21, 0x43, 0x00, 0x40, 0xFB],
    ];
    assert(sectors_view(r) == golden_spec());
    r
}

/// The sink profile the device asks for: 20 V in 50 mV units, 1 A in 10 mA units.
pub fn sink_pdo() -> (r: FixedPdo)
    ensures
        r.0 == 400 * 1024 + 100,
{
    FixedPdo::new(20000 / 50, 1000 / 10)
}

/// The bytes that a write-type command puts on the bus; a request's are
/// those of its start, before the polling.
pub open spec fn frame_spec(c: Command) -> Option<Seq<u8>> {
    match c {
        Command::Write { reg, value } => Some(seq![reg, value]),
        Command::Write32 { reg, word } => Some(
            seq![
                reg,
                (word % 0x100) as u8,
                ((word / 0x100) % 0x100) as u8,
                ((word / 0x1_0000) % 0x100) as u8,
                (word / 0x100_0000) as u8,
            ],
        ),
        Command::Request { sector } => Some(seq![REG_NVM_CTRL_0, request_value(sector)]),
        Command::ReadBuffer => None,
        Command::WriteBuffer { data } => Some(seq![REG_RW_BUFFER] + data@),
    }
}

impl Command {
    /// The write transaction of this command, `None` for a buffer read.
    pub fn frame(&self) -> (r: Option<Vec<u8>>)
        requires
            *self matches Command::Request { sector } ==> sector < 16,
        ensures
            r is Some <==> frame_spec(*self) is Some,
            r is Some ==> r->0@ == frame_spec(*self)->0,
    {
        match self {
            Command::Write { reg, value } => {
                let data = [*value];
                let f = write_frame(*reg, data.as_slice(), MAX_TRANSACTION_SIZE).unwrap();
                assert(f@ == seq![*reg, *value]);
                Some(f)
            },
            Command::Write32 { reg, word } => {
                let data = [
                    (*word % 0x100) as u8,
                    ((*word / 0x100) % 0x100) as u8,
                    ((*word / 0x1_0000) % 0x100) as u8,
                    (*word / 0x100_0000) as u8,
                ];
                let f = write_frame(*reg, data.as_slice(), MAX_TRANSACTION_SIZE).unwrap();
                assert(f@ == frame_spec(*self)->0);
                Some(f)
            },
            Command::Request { sector } => {
                let data = [request_register(*sector)];
                let f = write_frame(REG_NVM_CTRL_0, data.as_slice(), MAX_TRANSACTION_SIZE).unwrap();
                assert(f@ == frame_spec(*self)->0);
                Some(f)
            },
            Command::ReadBuffer => None,
            Command::WriteBuffer { data } => {
                let f = write_frame(REG_RW_BUFFER, data.as_slice(), MAX_TRANSACTION_SIZE).unwrap();
                Some(f)
            },
        }
    }
}

/// The controller with its NVM locked: PD traffic is allowed.
#[derive(Debug)]
pub struct STUSB4500 {
    id: u8,
}

/// The controller with its NVM unlocked: sector work is allowed.
#[derive(Debug)]
pub struct STUSB4500Nvm(STUSB4500);

impl STUSB4500 {
    /// The driver for a controller that answered `device_id`; any other value
    /// than the expected one is a mismatch, on which the caller polls again.
    pub fn new<E>(device_id: u8) -> (r: Result<STUSB4500, Error<E>>)
        ensures
            r is Ok <==> device_id == DEVICE_ID,
            r is Err ==> r->Err_0 == Error::<E>::DeviceIDMismatch,
    {
        if device_id == DEVICE_ID {
            Ok(STUSB4500 { id: device_id })
        } else {
            Err(Error::DeviceIDMismatch)
        }
    }

    /// Unlocks the NVM: the password, then power and enable.
    pub fn unlock_nvm(self) -> (r: (STUSB4500Nvm, Vec<Command>))
        ensures
            r.1@ == unlock_spec(),
    {
        let v = vec![
            Command::Write { reg: REG_NVM_PASSWORD, value: NVM_PASSWORD },
            Command::Write { reg: REG_NVM_CTRL_0, value: 0x00 },
            Command::Write { reg: REG_NVM_CTRL_0, value: NVM_CTRL_0_POWER + NVM_CTRL_0_ENABLE },
        ];
        (STUSB4500Nvm(self), v)
    }

    /// Sends a soft reset: the transmit header, then the command.
    pub fn issue_pd_reset(&self) -> (r: Vec<Command>)
        ensures
            r@ == seq![
                Command::Write { reg: REG_TX_HEADER, value: TX_HEADER_SOFT_RESET },
                Command::Write { reg: REG_PD_COMMAND_CTRL, value: PD_COMMAND_SOFT_RESET },
            ],
    {
        vec![
            Command::Write { reg: REG_TX_HEADER, value: TX_HEADER_SOFT_RESET },
            Command::Write { reg: REG_PD_COMMAND_CTRL, value: PD_COMMAND_SOFT_RESET },
        ]
    }

    /// Drives the indicator; `level` is active high, the pin active low.
    pub fn gpio_set_level(&self, level: bool) -> (r: Vec<Command>)
        ensures
            r@ == seq![
                Command::Write {
                    reg: REG_GPIO_SW_GPIO,
                    value: if level {
                        0u8
                    } else {
                        1u8
                    },
                },
            ],
    {
        vec![Command::Write { reg: REG_GPIO_SW_GPIO, value: gpio_register(level) }]
    }

    /// The policy engine state in a value read from its register.
    pub fn fsm_state<E>(&self, value: u8) -> (r: Result<PolicyEngineFSMState, Error<E>>)
        ensures
            r is Ok <==> is_fsm_code(value),
            r is Ok ==> fsm_code(r->Ok_0) == value,
            r is Err ==> r->Err_0 == Error::<E>::InvalidValue,
    {
        decode_fsm_state(value)
    }

    /// The RDO status in a value read from its register.
    pub fn rdo(&self, value: u32) -> (r: RdoStatus)
        ensures
            r == rdo_spec(value),
    {
        RdoStatus::from_register(value)
    }

    /// Sets the number of sink PDOs over `current`, the PDO count register
    /// as read, keeping its other bits.
    pub fn set_pdo_num(&self, current: u8, num: u8) -> (r: Vec<Command>)
        ensures
            r@ == seq![Command::Write { reg: REG_DPM_PDO_NUMB, value: ((current / 8) * 8 + num % 8) as u8 }],
    {
        vec![Command::Write { reg: REG_DPM_PDO_NUMB, value: pdo_numb_register(current, num) }]
    }

    /// Programs a sink PDO slot.
    pub fn set_pdo(&self, channel: PdoChannel, pdo: FixedPdo) -> (r: Vec<Command>)
        ensures
            r@.len() == 1,
            r@[0] matches Command::Write32 { reg, word } && word == pdo.0 && (
            channel == PdoChannel::PDO1 ==> reg == REG_DPM_SNK_PDO1) && (channel
                == PdoChannel::PDO2 ==> reg == REG_DPM_SNK_PDO2) && (channel == PdoChannel::PDO3
                ==> reg == REG_DPM_SNK_PDO3),
    {
        vec![Command::Write32 { reg: channel.register(), word: pdo.0 }]
    }
}

impl STUSB4500Nvm {
    /// Locks the NVM again: control 0 and 1 cleared, then the password.
    pub fn lock_nvm(self) -> (r: (STUSB4500, Vec<Command>))
        ensures
            r.1@ == lock_spec(),
    {
        let v = vec![
            Command::Write { reg: REG_NVM_CTRL_0, value: 0x00 },
            Command::Write { reg: REG_NVM_CTRL_1, value: 0x00 },
            Command::Write { reg: REG_NVM_PASSWORD, value: 0x00 },
        ];
        (self.0, v)
    }

    /// Starts an NVM operation on `sector` and waits for its completion.
    pub fn issue_request_with_sector(&self, sector: u8) -> (r: Vec<Command>)
        ensures
            r@ == seq![Command::Request { sector }],
    {
        vec![Command::Request { sector }]
    }

    /// Starts an NVM operation on sector 0 and waits for its completion.
    pub fn issue_request(&self) -> (r: Vec<Command>)
        ensures
            r@ == seq![Command::Request { sector: 0 }],
    {
        self.issue_request_with_sector(0)
    }

    /// Erases all sectors.
    pub fn erase_sectors(&self) -> (r: Vec<Command>)
        ensures
            r@ == erase_spec(),
    {
        vec![
            Command::Write { reg: REG_NVM_CTRL_1, value: 0xFA },
            Command::Request { sector: 0 },
            Command::Write { reg: REG_NVM_CTRL_1, value: 0x05 },
            Command::Request { sector: 0 },
        ]
    }

    /// Reads one sector; the buffer read of the plan yields its bytes.
    pub fn read_sector(&self, sector: u8) -> (r: Vec<Command>)
        ensures
            r@ == read_sector_spec(sector),
    {
        vec![
            Command::Write { reg: REG_NVM_CTRL_1, value: 0x00 },
            Command::Request { sector },
            Command::ReadBuffer,
        ]
    }

    /// Programs one sector with `data`.
    pub fn write_sector(&self, sector: u8, data: &[u8; 8]) -> (r: Vec<Command>)
        ensures
            r@ == write_sector_spec(sector, *data),
    {
        vec![
            Command::WriteBuffer { data: *data },
            Command::Write { reg: REG_NVM_CTRL_1, value: 0x01 },
            Command::Request { sector: 0 },
            Command::Write { reg: REG_NVM_CTRL_1, value: 0x06 },
            Command::Request { sector },
        ]
    }

    /// Reads all sectors, in order.
    pub fn read_sectors(&self) -> (r: Vec<Command>)
        ensures
            r@ == read_upto(5),
    {
        let mut v: Vec<Command> = Vec::new();
        let mut i: u8 = 0;
        while i < 5
            invariant
                i <= 5,
                v@ == read_upto(i as nat),
            decreases 5 - i,
        {
            let mut step = self.read_sector(i);
            v.append(&mut step);
            i = i + 1;
        }
        v
    }

    /// Erases all sectors, then programs each with its part of `buf`.
    pub fn write_sectors(&self, buf: &[[u8; 8]; 5]) -> (r: Vec<Command>)
        ensures
            r@ == write_all_spec(*buf),
    {
        let mut v = self.erase_sectors();
        let mut i: u8 = 0;
        while i < 5
            invariant
                i <= 5,
                v@ == erase_spec() + write_upto(*buf, i as nat),
            decreases 5 - i,
        {
            let mut step = self.write_sector(i, &buf[i as usize]);
            assert(erase_spec() + write_upto(*buf, (i + 1) as nat) == erase_spec() + write_upto(
                *buf,
                i as nat,
            ) + write_sector_spec(i, buf@[i as int]));
            v.append(&mut step);
            i = i + 1;
        }
        v
    }
}

/// Whether two sector images hold the same bytes.
fn sectors_equal(a: &[[u8; 8]; 5], b: &[[u8; 8]; 5]) -> (r: bool)
    ensures
        r == (sectors_view(*a) == sectors_view(*b)),
{
    let mut i: usize = 0;
    while i < 5
        invariant
            i <= 5,
            forall|k: int| 0 <= k < i ==> a@[k]@ == b@[k]@,
        decreases 5 - i,
    {
        let mut j: usize = 0;
        while j < 8
            invariant
                i < 5,
                j <= 8,
                forall|l: int| 0 <= l < j ==> a@[i as int]@[l] == b@[i as int]@[l],
            decreases 8 - j,
        {
            if a[i][j] != b[i][j] {
                assert(sectors_view(*a)[i as int][j as int] != sectors_view(*b)[i as int][j as int]);
                return false;
            }
            j = j + 1;
        }
        assert(a@[i as int]@ == b@[i as int]@);
        i = i + 1;
    }
    assert(sectors_view(*a) == sectors_view(*b));
    true
}

impl STUSB4500Nvm {
    /// What bring-up issues after reading `current`: nothing when it already
    /// equals `golden`, else an erase and the programming of every sector.
    pub fn update_sectors(&self, current: &[[u8; 8]; 5], golden: &[[u8; 8]; 5]) -> (r: Vec<
        Command,
    >)
        ensures
            r@ == update_spec(sectors_view(*current), *golden),
    {
        if sectors_equal(current, golden) {
            Vec::new()
        } else {
            self.write_sectors(golden)
        }
    }
}

} // verus!
