//! The vocabulary shared by the device drivers and the bus arbiter: each
//! transaction names its device address together with the operation, so that
//! the arbiter performs the address select and the transfer as one critical
//! section.

use vstd::prelude::*;

verus! {

/// One register-level operation on an addressed bus device.
#[derive(Debug)]
pub enum BusOp {
    /// Read one byte from a register.
    ReadByte { reg: u8 },
    /// Read one 16-bit word from a register, as the bus delivers it: the
    /// first byte on the wire is the low half.
    ReadWord { reg: u8 },
    /// Write one byte to a register.
    WriteByte { reg: u8, value: u8 },
    /// Send a single command byte, without a register.
    SendByte { value: u8 },
    /// Read `len` bytes starting at a register.
    BlockRead { reg: u8, len: usize },
    /// Write a block of bytes to a register in one transfer.
    BlockWrite { reg: u8, bytes: Vec<u8> },
    /// Write each byte in turn to the same register, one byte write per byte.
    WriteEach { reg: u8, bytes: Vec<u8> },
}

/// An operation together with the address of the device it is meant for.
#[derive(Debug)]
pub struct Transaction {
    pub address: u16,
    pub op: BusOp,
}

/// What came back from performing a transaction.
#[derive(Debug)]
pub enum BusReply {
    /// A write completed.
    Done,
    /// The byte that was read.
    Byte(u8),
    /// The word that was read.
    Word(u16),
    /// The bytes that were read.
    Block(Vec<u8>),
    /// The transport reported an error.
    Failed,
}

/// One step of a device plan: a transaction, or a pause in microseconds.
#[derive(Debug)]
pub enum Step {
    Transfer(Transaction),
    Delay(u32),
}

/// Mathematical form of a [`BusOp`], with byte blocks as sequences.
pub enum OpView {
    ReadByte { reg: u8 },
    ReadWord { reg: u8 },
    WriteByte { reg: u8, value: u8 },
    SendByte { value: u8 },
    BlockRead { reg: u8, len: nat },
    BlockWrite { reg: u8, bytes: Seq<u8> },
    WriteEach { reg: u8, bytes: Seq<u8> },
}

/// Mathematical form of a [`Step`].
pub enum StepView {
    Transfer { address: u16, op: OpView },
    Delay(u32),
}

impl View for BusOp {
    type V = OpView;

    open spec fn view(&self) -> OpView {
        match self {
            BusOp::ReadByte { reg } => OpView::ReadByte { reg: *reg },
            BusOp::ReadWord { reg } => OpView::ReadWord { reg: *reg },
            BusOp::WriteByte { reg, value } => OpView::WriteByte { reg: *reg, value: *value },
            BusOp::SendByte { value } => OpView::SendByte { value: *value },
            BusOp::BlockRead { reg, len } => OpView::BlockRead { reg: *reg, len: *len as nat },
            BusOp::BlockWrite { reg, bytes } => OpView::BlockWrite { reg: *reg, bytes: bytes@ },
            BusOp::WriteEach { reg, bytes } => OpView::WriteEach { reg: *reg, bytes: bytes@ },
        }
    }
}

impl View for Step {
    type V = StepView;

    open spec fn view(&self) -> StepView {
        match self {
            Step::Transfer(t) => StepView::Transfer { address: t.address, op: t.op@ },
            Step::Delay(us) => StepView::Delay(*us),
        }
    }
}

/// The views of a sequence of steps.
pub open spec fn plan_view(steps: Seq<Step>) -> Seq<StepView> {
    steps.map_values(|s: Step| s@)
}

} // verus!
