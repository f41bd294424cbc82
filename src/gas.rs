//! The gas / air-quality sensor: its registers and status bits, and the
//! protocol that boots its firmware and then samples it once per tick, as a
//! state machine. Each call of [`GasSensor::step`] takes the outcome of the
//! previous action and returns the next one; the caller performs it.
//!
//! The sensor is woken by driving its wake pin low and sent back to its
//! low-power state by driving it high. The machine knows the pin's level in
//! every phase: every bus transaction happens while the sensor is awake, every
//! session ends with the pin high whatever went wrong, and no phase keeps it
//! awake for more than a bounded number of steps.

use vstd::prelude::*;
use crate::bus::{BusOp, BusReply, Transaction};

verus! {

/// Bus address of the gas sensor.
pub const GAS_ADDR: u16 = 0x5a;

/// Hardware identifier the sensor must report.
pub const HW_ID: u8 = 0x81;

pub const REG_STATUS: u8 = 0x00;
pub const REG_MEAS_MODE: u8 = 0x01;
pub const REG_ALG_RESULT_DATA: u8 = 0x02;
pub const REG_HW_ID: u8 = 0x20;
pub const REG_ERROR_ID: u8 = 0xe0;
pub const REG_APP_START: u8 = 0xf4;

/// Measurement mode: one reading per second, no interrupt.
pub const MODE_EVERY_SECOND: u8 = 0b0001_0000;

/// Status bit: the firmware application is running.
pub const STATUS_FW_MODE: u8 = 0b1000_0000;
/// Status bit: a valid firmware application is loaded.
pub const STATUS_APP_VALID: u8 = 0b0001_0000;
/// Status bit: a new result is ready.
pub const STATUS_DATA_READY: u8 = 0b0000_1000;
/// Status bit: the error register holds an error.
pub const STATUS_ERROR: u8 = 0b0000_0001;

/// Error register bit: the heater supply voltage is wrong.
pub const ERROR_HEATER_SUPPLY: u8 = 0b0010_0000;
/// Error register bit: the heater current is out of range.
pub const ERROR_HEATER_FAULT: u8 = 0b0001_0000;
/// Error register bit: the sensor resistance reached its limit.
pub const ERROR_MOX_RESISTANCE: u8 = 0b0000_1000;
/// Error register bit: an unsupported measurement mode was requested.
pub const ERROR_MEAS_MODE_INVALID: u8 = 0b0000_0100;
/// Error register bit: a read addressed an invalid register.
pub const ERROR_READ_REG_INVALID: u8 = 0b0000_0010;
/// Error register bit: a write addressed an invalid register.
pub const ERROR_MSG_INVALID: u8 = 0b0000_0001;

/// Pause after driving the wake pin low, in microseconds.
pub const WAKE_DELAY_US: u32 = 100;
/// Pause before and after starting the firmware, in microseconds.
pub const BOOT_DELAY_US: u32 = 100;
/// Pause after setting the measurement mode, in microseconds.
pub const MODE_DELAY_US: u32 = 50;

/// Bytes read from the result register.
pub const RESULT_LEN: usize = 8;

/// Plausible CO2 readings, in ppm.
pub const CO2_MIN: u16 = 400;
pub const CO2_MAX: u16 = 8192;
/// Greatest plausible TVOC reading, in ppb.
pub const TVOC_MAX: u16 = 1187;

pub open spec fn has_bit(byte: u8, mask: u8) -> bool {
    byte & mask == mask
}

/// Whether a reading lies in the sensor's plausible range.
pub open spec fn plausible(co2: u16, tvoc: u16) -> bool {
    CO2_MIN <= co2 <= CO2_MAX && tvoc <= TVOC_MAX
}

/// Whether `mask` is set in `byte`.
pub fn bit_set(byte: u8, mask: u8) -> (r: bool)
    ensures
        r == has_bit(byte, mask),
{
    byte & mask == mask
}

/// Whether a reading lies in the sensor's plausible range.
pub fn is_plausible(co2: u16, tvoc: u16) -> (r: bool)
    ensures
        r == plausible(co2, tvoc),
{
    CO2_MIN <= co2 && co2 <= CO2_MAX && tvoc <= TVOC_MAX
}

/// A fault named by the error register.
#[derive(Clone, Copy, Debug, PartialEq, Eq, Structural)]
pub enum Fault {
    HeaterSupply,
    HeaterFault,
    MoxResistance,
    MeasModeInvalid,
    ReadRegInvalid,
    MsgInvalid,
}

pub open spec fn fault_if(e: u8, mask: u8, f: Fault) -> Seq<Fault> {
    if has_bit(e, mask) {
        seq![f]
    } else {
        Seq::empty()
    }
}

/// The faults whose bits are set in an error register value, highest bit
/// first; the two reserved bits name none.
pub open spec fn faults_of(e: u8) -> Seq<Fault> {
    fault_if(e, ERROR_HEATER_SUPPLY, Fault::HeaterSupply) + fault_if(
        e,
        ERROR_HEATER_FAULT,
        Fault::HeaterFault,
    ) + fault_if(e, ERROR_MOX_RESISTANCE, Fault::MoxResistance) + fault_if(
        e,
        ERROR_MEAS_MODE_INVALID,
        Fault::MeasModeInvalid,
    ) + fault_if(e, ERROR_READ_REG_INVALID, Fault::ReadRegInvalid) + fault_if(
        e,
        ERROR_MSG_INVALID,
        Fault::MsgInvalid,
    )
}

fn push_fault(out: &mut Vec<Fault>, e: u8, mask: u8, f: Fault)
    ensures
        final(out)@ == old(out)@ + fault_if(e, mask, f),
{
    if bit_set(e, mask) {
        out.push(f);
        assert(final(out)@ =~= old(out)@ + fault_if(e, mask, f));
    } else {
        assert(final(out)@ =~= old(out)@ + fault_if(e, mask, f));
    }
}

/// The faults named by an error register value.
pub fn faults(e: u8) -> (r: Vec<Fault>)
    ensures
        r@ == faults_of(e),
{
    let mut out: Vec<Fault> = Vec::new();
    push_fault(&mut out, e, ERROR_HEATER_SUPPLY, Fault::HeaterSupply);
    push_fault(&mut out, e, ERROR_HEATER_FAULT, Fault::HeaterFault);
    push_fault(&mut out, e, ERROR_MOX_RESISTANCE, Fault::MoxResistance);
    push_fault(&mut out, e, ERROR_MEAS_MODE_INVALID, Fault::MeasModeInvalid);
    push_fault(&mut out, e, ERROR_READ_REG_INVALID, Fault::ReadRegInvalid);
    push_fault(&mut out, e, ERROR_MSG_INVALID, Fault::MsgInvalid);
    assert(out@ =~= faults_of(e));
    out
}

/// Why the driver gave up.
#[derive(Clone, Copy, Debug, PartialEq, Eq, Structural)]
pub enum GasError {
    /// A bus transaction of the boot handshake failed.
    Transport,
    /// The sensor reported another hardware identifier.
    WrongHardware(u8),
    /// No valid firmware application is loaded; the status byte.
    AppInvalid(u8),
    /// The firmware did not start; the status byte.
    FirmwareNotStarted(u8),
}

/// How a session with the sensor ended.
#[derive(Clone, Copy, Debug, PartialEq, Eq, Structural)]
pub enum Outcome {
    /// Boot completed: the sensor measures once per second.
    Ready,
    /// Boot failed; the driver is finished.
    Failed(GasError),
    /// A plausible reading, to be published.
    Measured { co2: u16, tvoc: u16 },
    /// A reading outside the plausible range, dropped.
    Discarded { co2: u16, tvoc: u16 },
    /// No new result this tick.
    NotReady,
    /// A transaction failed this tick; the driver goes on.
    TransportFailed,
}

/// What the caller is to do next.
#[derive(Debug)]
pub enum Action {
    /// Drive the wake pin low.
    Wake,
    /// Drive the wake pin high.
    Sleep,
    /// Pause for the given number of microseconds.
    Delay(u32),
    /// Perform a bus transaction and hand back its reply.
    Transfer(Transaction),
    /// Report the contents of the error register, for diagnosis.
    Note(u8),
    /// A session ended.
    Report(Outcome),
    /// Wait for the next measurement tick.
    AwaitTick,
}

/// Where the protocol stands.
#[derive(Clone, Copy, Debug, PartialEq, Eq, Structural)]
pub enum Phase {
    Boot,
    BootWake,
    BootReadId,
    BootCheckId,
    BootCheckStatus { again: bool },
    BootErrorId { status: u8, again: bool },
    BootDecide { status: u8, again: bool },
    BootStartPause,
    BootStarted,
    BootReread,
    BootModeSet,
    BootDone,
    Closing(Outcome),
    Idle,
    Waiting,
    TickWake,
    TickReadStatus,
    TickCheckStatus,
    TickCheckData,
    TickErrorId { co2: u16, tvoc: u16 },
    TickNoted { co2: u16, tvoc: u16 },
    Halted(GasError),
}

/// Whether the wake pin is low (the sensor awake) in a phase.
pub open spec fn awake(p: Phase) -> bool {
    match p {
        Phase::Boot | Phase::Closing(_) | Phase::Idle | Phase::Waiting | Phase::Halted(_) => false,
        _ => true,
    }
}

/// Upper bound on the steps left before the pin goes back high.
pub open spec fn steps_to_sleep(p: Phase) -> nat {
    match p {
        Phase::BootWake => 14,
        Phase::BootReadId => 13,
        Phase::BootCheckId => 12,
        Phase::BootCheckStatus { again } => if again { 5 } else { 11 },
        Phase::BootErrorId { again, .. } => if again { 4 } else { 10 },
        Phase::BootDecide { again, .. } => if again { 3 } else { 9 },
        Phase::BootStartPause => 8,
        Phase::BootStarted => 7,
        Phase::BootReread => 6,
        Phase::BootModeSet => 2,
        Phase::BootDone => 1,
        Phase::TickWake => 6,
        Phase::TickReadStatus => 5,
        Phase::TickCheckStatus => 4,
        Phase::TickCheckData => 3,
        Phase::TickErrorId { .. } => 2,
        Phase::TickNoted { .. } => 1,
        _ => 0,
    }
}

pub open spec fn read_byte(reg: u8) -> Action {
    Action::Transfer(Transaction { address: GAS_ADDR, op: BusOp::ReadByte { reg } })
}

pub open spec fn write_byte(reg: u8, value: u8) -> Action {
    Action::Transfer(Transaction { address: GAS_ADDR, op: BusOp::WriteByte { reg, value } })
}

/// Give up the session: the pin goes high first.
pub open spec fn fail(e: GasError) -> (Phase, Action) {
    (Phase::Closing(Outcome::Failed(e)), Action::Sleep)
}

/// After reading the status during boot (`again` once the firmware was
/// started).
pub open spec fn decide(status: u8, again: bool) -> (Phase, Action) {
    if !again {
        if !has_bit(status, STATUS_APP_VALID) {
            fail(GasError::AppInvalid(status))
        } else if has_bit(status, STATUS_FW_MODE) {
            (Phase::BootModeSet, write_byte(REG_MEAS_MODE, MODE_EVERY_SECOND))
        } else {
            (Phase::BootStartPause, Action::Delay(BOOT_DELAY_US))
        }
    } else if !has_bit(status, STATUS_FW_MODE) {
        fail(GasError::FirmwareNotStarted(status))
    } else {
        (Phase::BootModeSet, write_byte(REG_MEAS_MODE, MODE_EVERY_SECOND))
    }
}

/// End a tick with a decoded reading: plausible ones are published.
pub open spec fn finish(co2: u16, tvoc: u16) -> (Phase, Action) {
    if plausible(co2, tvoc) {
        (Phase::Closing(Outcome::Measured { co2, tvoc }), Action::Sleep)
    } else {
        (Phase::Closing(Outcome::Discarded { co2, tvoc }), Action::Sleep)
    }
}

/// The transition: from phase `p`, given the reply to the last action, the
/// next phase and the next action.
pub open spec fn next(p: Phase, reply: BusReply) -> (Phase, Action) {
    match p {
        Phase::Boot => (Phase::BootWake, Action::Wake),
        Phase::BootWake => (Phase::BootReadId, Action::Delay(WAKE_DELAY_US)),
        Phase::BootReadId => (Phase::BootCheckId, read_byte(REG_HW_ID)),
        Phase::BootCheckId => match reply {
            BusReply::Byte(id) => if id == HW_ID {
                (Phase::BootCheckStatus { again: false }, read_byte(REG_STATUS))
            } else {
                fail(GasError::WrongHardware(id))
            },
            _ => fail(GasError::Transport),
        },
        Phase::BootCheckStatus { again } => match reply {
            BusReply::Byte(status) => if has_bit(status, STATUS_ERROR) {
                (Phase::BootErrorId { status, again }, read_byte(REG_ERROR_ID))
            } else {
                decide(status, again)
            },
            _ => fail(GasError::Transport),
        },
        Phase::BootErrorId { status, again } => match reply {
            BusReply::Byte(e) => (Phase::BootDecide { status, again }, Action::Note(e)),
            _ => decide(status, again),
        },
        Phase::BootDecide { status, again } => decide(status, again),
        Phase::BootStartPause => (
            Phase::BootStarted,
            Action::Transfer(
                Transaction { address: GAS_ADDR, op: BusOp::SendByte { value: REG_APP_START } },
            ),
        ),
        Phase::BootStarted => match reply {
            BusReply::Done => (Phase::BootReread, Action::Delay(BOOT_DELAY_US)),
            _ => fail(GasError::Transport),
        },
        Phase::BootReread => (Phase::BootCheckStatus { again: true }, read_byte(REG_STATUS)),
        Phase::BootModeSet => match reply {
            BusReply::Done => (Phase::BootDone, Action::Delay(MODE_DELAY_US)),
            _ => fail(GasError::Transport),
        },
        Phase::BootDone => (Phase::Closing(Outcome::Ready), Action::Sleep),
        Phase::Closing(o) => match o {
            Outcome::Failed(e) => (Phase::Halted(e), Action::Report(o)),
            _ => (Phase::Idle, Action::Report(o)),
        },
        Phase::Idle => (Phase::Waiting, Action::AwaitTick),
        Phase::Waiting => (Phase::TickWake, Action::Wake),
        Phase::TickWake => (Phase::TickReadStatus, Action::Delay(WAKE_DELAY_US)),
        Phase::TickReadStatus => (Phase::TickCheckStatus, read_byte(REG_STATUS)),
        Phase::TickCheckStatus => match reply {
            BusReply::Byte(status) => if has_bit(status, STATUS_DATA_READY) {
                (
                    Phase::TickCheckData,
                    Action::Transfer(
                        Transaction {
                            address: GAS_ADDR,
                            op: BusOp::BlockRead { reg: REG_ALG_RESULT_DATA, len: RESULT_LEN },
                        },
                    ),
                )
            } else {
                (Phase::Closing(Outcome::NotReady), Action::Sleep)
            },
            _ => (Phase::Closing(Outcome::TransportFailed), Action::Sleep),
        },
        Phase::TickCheckData => match reply {
            BusReply::Block(b) => if b@.len() >= 5 {
                let co2 = (b@[0] as u16 * 256 + b@[1] as u16) as u16;
                let tvoc = (b@[2] as u16 * 256 + b@[3] as u16) as u16;
                if has_bit(b@[4], STATUS_ERROR) {
                    (Phase::TickErrorId { co2, tvoc }, read_byte(REG_ERROR_ID))
                } else {
                    finish(co2, tvoc)
                }
            } else {
                (Phase::Closing(Outcome::TransportFailed), Action::Sleep)
            },
            _ => (Phase::Closing(Outcome::TransportFailed), Action::Sleep),
        },
        Phase::TickErrorId { co2, tvoc } => match reply {
            BusReply::Byte(e) => (Phase::TickNoted { co2, tvoc }, Action::Note(e)),
            _ => finish(co2, tvoc),
        },
        Phase::TickNoted { co2, tvoc } => finish(co2, tvoc),
        Phase::Halted(e) => (Phase::Halted(e), Action::Report(Outcome::Failed(e))),
    }
}

/// Discipline of the wake pin, whatever the replies: the pin changes level
/// only through a `Wake` or `Sleep` action; transactions, pauses and notes
/// happen while the sensor is awake; outcomes are reported and ticks awaited
/// only once it is back in its low-power state; and each step taken while awake
/// brings the end of the session nearer, so the pin returns high within
/// `steps_to_sleep` steps of any phase.
pub proof fn lemma_wake_released(p: Phase, reply: BusReply)
    ensures
        awake(p) ==> steps_to_sleep(p) > 0,
        next(p, reply).1 is Wake ==> !awake(p) && awake(next(p, reply).0),
        next(p, reply).1 is Sleep ==> awake(p) && !awake(next(p, reply).0),
        (next(p, reply).1 is Transfer || next(p, reply).1 is Delay || next(p, reply).1 is Note)
            ==> awake(p) && awake(next(p, reply).0),
        (next(p, reply).1 is Report || next(p, reply).1 is AwaitTick) ==> !awake(p) && !awake(
            next(p, reply).0,
        ),
        awake(p) && awake(next(p, reply).0) ==> steps_to_sleep(next(p, reply).0) < steps_to_sleep(
            p,
        ),
{
}

/// The phase reached and the actions returned when the replies are handed to
/// the machine one by one from phase `p`.
pub open spec fn run(p: Phase, replies: Seq<BusReply>) -> (Phase, Seq<Action>)
    decreases replies.len(),
{
    if replies.len() == 0 {
        (p, Seq::empty())
    } else {
        let first = next(p, replies[0]);
        let rest = run(first.0, replies.drop_first());
        (rest.0, seq![first.1] + rest.1)
    }
}

/// Replies of a sensor whose firmware is not running at the first status
/// read (`first`) and that reports `second` after the start command.
pub open spec fn boot_replies(first: u8, second: u8) -> Seq<BusReply> {
    seq![
        BusReply::Done,
        BusReply::Done,
        BusReply::Done,
        BusReply::Byte(HW_ID),
        BusReply::Byte(first),
        BusReply::Done,
        BusReply::Done,
        BusReply::Done,
        BusReply::Byte(second),
        BusReply::Done,
        BusReply::Done,
        BusReply::Done,
    ]
}

/// A sensor with a valid application whose firmware is not running at the
/// first status read, and running after the start command, is booted: the
/// driver reports `Ready` and goes on to sample it.
pub proof fn lemma_boot_starts_firmware(first: u8, second: u8)
    requires
        has_bit(first, STATUS_APP_VALID),
        !has_bit(first, STATUS_FW_MODE),
        !has_bit(first, STATUS_ERROR),
        has_bit(second, STATUS_FW_MODE),
        !has_bit(second, STATUS_ERROR),
    ensures
        run(Phase::Boot, boot_replies(first, second)).0 == Phase::Idle,
        run(Phase::Boot, boot_replies(first, second)).1.last() == Action::Report(Outcome::Ready),
{
    reveal_with_fuel(run, 13);
}

/// A sensor whose firmware is still not running after the start command
/// ends the driver with a protocol error, reported once the sensor sleeps.
pub proof fn lemma_boot_fails_without_firmware(first: u8, second: u8)
    requires
        has_bit(first, STATUS_APP_VALID),
        !has_bit(first, STATUS_FW_MODE),
        !has_bit(first, STATUS_ERROR),
        !has_bit(second, STATUS_FW_MODE),
        !has_bit(second, STATUS_ERROR),
    ensures
        run(Phase::Boot, boot_replies(first, second).take(11)).0 == Phase::Halted(
            GasError::FirmwareNotStarted(second),
        ),
        run(Phase::Boot, boot_replies(first, second).take(11)).1.last() == Action::Report(
            Outcome::Failed(GasError::FirmwareNotStarted(second)),
        ),
{
    reveal_with_fuel(run, 12);
}

fn read_action(reg: u8) -> (r: Action)
    ensures
        r == read_byte(reg),
{
    Action::Transfer(Transaction { address: GAS_ADDR, op: BusOp::ReadByte { reg } })
}

fn mode_action() -> (r: Action)
    ensures
        r == write_byte(REG_MEAS_MODE, MODE_EVERY_SECOND),
{
    Action::Transfer(
        Transaction {
            address: GAS_ADDR,
            op: BusOp::WriteByte { reg: REG_MEAS_MODE, value: MODE_EVERY_SECOND },
        },
    )
}

fn fail_with(e: GasError) -> (r: (Phase, Action))
    ensures
        r == fail(e),
{
    (Phase::Closing(Outcome::Failed(e)), Action::Sleep)
}

fn decide_after_status(status: u8, again: bool) -> (r: (Phase, Action))
    ensures
        r == decide(status, again),
{
    if !again {
        if !bit_set(status, STATUS_APP_VALID) {
            fail_with(GasError::AppInvalid(status))
        } else if bit_set(status, STATUS_FW_MODE) {
            (Phase::BootModeSet, mode_action())
        } else {
            (Phase::BootStartPause, Action::Delay(BOOT_DELAY_US))
        }
    } else if !bit_set(status, STATUS_FW_MODE) {
        fail_with(GasError::FirmwareNotStarted(status))
    } else {
        (Phase::BootModeSet, mode_action())
    }
}

fn finish_tick(co2: u16, tvoc: u16) -> (r: (Phase, Action))
    ensures
        r == finish(co2, tvoc),
{
    if is_plausible(co2, tvoc) {
        (Phase::Closing(Outcome::Measured { co2, tvoc }), Action::Sleep)
    } else {
        (Phase::Closing(Outcome::Discarded { co2, tvoc }), Action::Sleep)
    }
}

/// The gas sensor driver's protocol state.
pub struct GasSensor {
    phase: Phase,
}

impl GasSensor {
    pub closed spec fn phase(&self) -> Phase {
        self.phase
    }

    /// A driver about to boot the sensor; the sensor is asleep.
    pub fn new() -> (r: GasSensor)
        ensures
            r.phase() == Phase::Boot,
            !awake(r.phase()),
    {
        GasSensor { phase: Phase::Boot }
    }

    /// Whether the driver has given up for good.
    pub fn is_halted(&self) -> (r: bool)
        ensures
            r == (self.phase() is Halted),
    {
        match self.phase {
            Phase::Halted(_) => true,
            _ => false,
        }
    }

    /// Takes the reply to the previous action (any reply for the first
    /// step, and for actions that are not transactions) and returns the next
    /// action.
    pub fn step(&mut self, reply: BusReply) -> (action: Action)
        ensures
            (final(self).phase(), action) == next(old(self).phase(), reply),
            action is Wake ==> !awake(old(self).phase()) && awake(final(self).phase()),
            action is Sleep ==> awake(old(self).phase()) && !awake(final(self).phase()),
            (action is Report || action is AwaitTick) ==> !awake(final(self).phase()),
            action is Transfer ==> awake(final(self).phase()),
    {
        proof {
            lemma_wake_released(self.phase, reply);
        }
        let (phase, action) = match self.phase {
            Phase::Boot => (Phase::BootWake, Action::Wake),
            Phase::BootWake => (Phase::BootReadId, Action::Delay(WAKE_DELAY_US)),
            Phase::BootReadId => (Phase::BootCheckId, read_action(REG_HW_ID)),
            Phase::BootCheckId => match reply {
                BusReply::Byte(id) => if id == HW_ID {
                    (Phase::BootCheckStatus { again: false }, read_action(REG_STATUS))
                } else {
                    fail_with(GasError::WrongHardware(id))
                },
                _ => fail_with(GasError::Transport),
            },
            Phase::BootCheckStatus { again } => match reply {
                BusReply::Byte(status) => if bit_set(status, STATUS_ERROR) {
                    (Phase::BootErrorId { status, again }, read_action(REG_ERROR_ID))
                } else {
                    decide_after_status(status, again)
                },
                _ => fail_with(GasError::Transport),
            },
            Phase::BootErrorId { status, again } => match reply {
                BusReply::Byte(e) => (Phase::BootDecide { status, again }, Action::Note(e)),
                _ => decide_after_status(status, again),
            },
            Phase::BootDecide { status, again } => decide_after_status(status, again),
            Phase::BootStartPause => (
                Phase::BootStarted,
                Action::Transfer(
                    Transaction { address: GAS_ADDR, op: BusOp::SendByte { value: REG_APP_START } },
                ),
            ),
            Phase::BootStarted => match reply {
                BusReply::Done => (Phase::BootReread, Action::Delay(BOOT_DELAY_US)),
                _ => fail_with(GasError::Transport),
            },
            Phase::BootReread => (Phase::BootCheckStatus { again: true }, read_action(REG_STATUS)),
            Phase::BootModeSet => match reply {
                BusReply::Done => (Phase::BootDone, Action::Delay(MODE_DELAY_US)),
                _ => fail_with(GasError::Transport),
            },
            Phase::BootDone => (Phase::Closing(Outcome::Ready), Action::Sleep),
            Phase::Closing(o) => match o {
                Outcome::Failed(e) => (Phase::Halted(e), Action::Report(o)),
                _ => (Phase::Idle, Action::Report(o)),
            },
            Phase::Idle => (Phase::Waiting, Action::AwaitTick),
            Phase::Waiting => (Phase::TickWake, Action::Wake),
            Phase::TickWake => (Phase::TickReadStatus, Action::Delay(WAKE_DELAY_US)),
            Phase::TickReadStatus => (Phase::TickCheckStatus, read_action(REG_STATUS)),
            Phase::TickCheckStatus => match reply {
                BusReply::Byte(status) => if bit_set(status, STATUS_DATA_READY) {
                    (
                        Phase::TickCheckData,
                        Action::Transfer(
                            Transaction {
                                address: GAS_ADDR,
                                op: BusOp::BlockRead { reg: REG_ALG_RESULT_DATA, len: RESULT_LEN },
                            },
                        ),
                    )
                } else {
                    (Phase::Closing(Outcome::NotReady), Action::Sleep)
                },
                _ => (Phase::Closing(Outcome::TransportFailed), Action::Sleep),
            },
            Phase::TickCheckData => match reply {
                BusReply::Block(b) => if b.len() >= 5 {
                    let co2: u16 = b[0] as u16 * 256 + b[1] as u16;
                    let tvoc: u16 = b[2] as u16 * 256 + b[3] as u16;
                    if bit_set(b[4], STATUS_ERROR) {
                        (Phase::TickErrorId { co2, tvoc }, read_action(REG_ERROR_ID))
                    } else {
                        finish_tick(co2, tvoc)
                    }
                } else {
                    (Phase::Closing(Outcome::TransportFailed), Action::Sleep)
                },
                _ => (Phase::Closing(Outcome::TransportFailed), Action::Sleep),
            },
            Phase::TickErrorId { co2, tvoc } => match reply {
                BusReply::Byte(e) => (Phase::TickNoted { co2, tvoc }, Action::Note(e)),
                _ => finish_tick(co2, tvoc),
            },
            Phase::TickNoted { co2, tvoc } => finish_tick(co2, tvoc),
            Phase::Halted(e) => (Phase::Halted(e), Action::Report(Outcome::Failed(e))),
        };
        self.phase = phase;
        action
    }
}

} // verus!
