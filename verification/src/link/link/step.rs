//! What passes between a session and the code that owns the USB pipe: the
//! transfers that the session asks for, what came of them, and the result
//! of an operation.

use vstd::prelude::*;
use crate::link::enums::STLinkMode;
use crate::link::structs::{CoreRegisters, SpeedMap};

verus! {

/// Why an operation failed.
#[derive(Debug, Copy, Clone, PartialEq, Eq, Structural)]
pub enum LinkError {
    /// A bulk transfer failed, or fewer bytes were written than were handed
    /// to it.
    TransportFailure,
    /// The probe answered with fewer bytes than the command calls for.
    ProtocolMismatch,
    /// The probe lacks what the operation needs.
    UnsupportedFeature,
    /// The address or the length is not a multiple of four where a 32-bit
    /// access needs it.
    AlignmentError,
    /// The device-ID register holds no identifier of the chip table.
    UnknownChip,
    /// The flash controller is still locked after both keys were written.
    FlashStillLocked,
    /// The length is more than one transfer can carry.
    TooLong,
    /// The probe reported that the last memory access failed.
    AccessFailed,
    /// The probe is still in DFU mode after it was told to leave it.
    StillInDfu,
    /// The device does not have the three endpoints of a probe.
    NotAProbe,
}

/// One thing that the owner of the USB pipe is asked to do.
#[derive(Debug)]
pub enum Transfer {
    /// Write `data` to the bulk endpoint `endpoint`.
    Write { endpoint: u8, data: Vec<u8> },
    /// Read up to `len` bytes from the bulk endpoint `endpoint`.
    Read { endpoint: u8, len: usize },
    /// Let `seconds` seconds pass.
    Pause { seconds: u64 },
}

/// Mathematical model of a `Transfer`.
pub enum TransferView {
    Write { endpoint: u8, data: Seq<u8> },
    Read { endpoint: u8, len: usize },
    Pause { seconds: u64 },
}

impl View for Transfer {
    type V = TransferView;

    open spec fn view(&self) -> TransferView {
        match *self {
            Transfer::Write { endpoint, data } => TransferView::Write { endpoint, data: data@ },
            Transfer::Read { endpoint, len } => TransferView::Read { endpoint, len },
            Transfer::Pause { seconds } => TransferView::Pause { seconds },
        }
    }
}

/// What came of a transfer.
#[derive(Debug)]
pub enum Response {
    /// The write took this many bytes.
    Written(usize),
    /// The read brought these bytes.
    Received(Vec<u8>),
    /// The transfer failed or ran out of time.
    Failed,
    /// The pause is over.
    Resumed,
}

/// Mathematical model of a `Response`.
pub enum ResponseView {
    Written(usize),
    Received(Seq<u8>),
    Failed,
    Resumed,
}

impl View for Response {
    type V = ResponseView;

    open spec fn view(&self) -> ResponseView {
        match *self {
            Response::Written(n) => ResponseView::Written(n),
            Response::Received(bytes) => ResponseView::Received(bytes@),
            Response::Failed => ResponseView::Failed,
            Response::Resumed => ResponseView::Resumed,
        }
    }
}

/// The voltage of the target as the probe reports it: two raw readings
/// whose quotient, times 2.4, is the voltage in volts.
#[derive(Debug, Copy, Clone, PartialEq, Eq, Structural)]
pub struct TargetVoltage {
    /// Reading of the reference, the divisor.
    pub reference: u32,
    /// Reading of the target, the dividend.
    pub target: u32,
}

impl TargetVoltage {
    /// Whether the voltage is under 1.5 V: `2.4 * target / reference < 1.5`,
    /// that is `8 * target < 5 * reference`. A reference of zero gives no
    /// voltage at all, and nothing is under it.
    pub open spec fn spec_is_low(self) -> bool {
        self.reference > 0 && 8 * self.target < 5 * self.reference
    }

    /// Whether the voltage is under 1.5 V.
    pub fn is_low(&self) -> (low: bool)
        ensures
            low == self.spec_is_low(),
    {
        self.reference > 0 && 8 * (self.target as u64) < 5 * (self.reference as u64)
    }

    /// The voltage in millivolts, rounded down: `2400 * target / reference`;
    /// zero where the reference is zero.
    pub open spec fn spec_millivolts(self) -> int {
        if self.reference == 0 {
            0
        } else {
            2400 * self.target as int / self.reference as int
        }
    }

    /// The voltage in millivolts, rounded down.
    pub fn millivolts(&self) -> (mv: u64)
        ensures
            mv == self.spec_millivolts(),
    {
        if self.reference == 0 {
            0
        } else {
            2400 * (self.target as u64) / (self.reference as u64)
        }
    }
}

/// What a finished operation hands back.
#[derive(Debug)]
pub enum Reply {
    /// Nothing but success.
    Done,
    /// The vendor and product identifiers that the probe reported.
    Identity { vid: u16, pid: u16 },
    /// A number of bytes.
    Count(usize),
    /// A 32-bit word.
    Word(u32),
    /// Bytes of target memory.
    Bytes(Vec<u8>),
    /// The mode of the probe.
    Mode(STLinkMode),
    /// The core registers.
    Registers(CoreRegisters),
    /// The target voltage.
    Voltage(TargetVoltage),
    /// A speed table.
    Speeds(Vec<SpeedMap>),
}

/// Mathematical model of a `Reply`.
pub enum ReplyView {
    Done,
    Identity { vid: u16, pid: u16 },
    Count(usize),
    Word(u32),
    Bytes(Seq<u8>),
    Mode(STLinkMode),
    Registers(Seq<u32>),
    Voltage(TargetVoltage),
    Speeds(Seq<SpeedMap>),
}

impl View for Reply {
    type V = ReplyView;

    open spec fn view(&self) -> ReplyView {
        match *self {
            Reply::Done => ReplyView::Done,
            Reply::Identity { vid, pid } => ReplyView::Identity { vid, pid },
            Reply::Count(n) => ReplyView::Count(n),
            Reply::Word(w) => ReplyView::Word(w),
            Reply::Bytes(b) => ReplyView::Bytes(b@),
            Reply::Mode(m) => ReplyView::Mode(m),
            Reply::Registers(r) => ReplyView::Registers(r@),
            Reply::Voltage(v) => ReplyView::Voltage(v),
            Reply::Speeds(s) => ReplyView::Speeds(s@),
        }
    }
}

/// What a session wants next: a transfer to be made, or nothing more,
/// because the operation is over.
#[derive(Debug)]
pub enum Step {
    Transfer(Transfer),
    Finished(Result<Reply, LinkError>),
}

/// Mathematical model of a `Step`.
pub enum StepView {
    Transfer(TransferView),
    Finished(Result<ReplyView, LinkError>),
}

impl View for Step {
    type V = StepView;

    open spec fn view(&self) -> StepView {
        match *self {
            Step::Transfer(t) => StepView::Transfer(t@),
            Step::Finished(Ok(r)) => StepView::Finished(Ok(r@)),
            Step::Finished(Err(e)) => StepView::Finished(Err(e)),
        }
    }
}

} // verus!
