//! The step function of a session: what a session does with what came of a
//! transfer.

use vstd::prelude::*;
use crate::link::constants::misc::SIZE::{CBW, DATA, SG};
use crate::link::enums::{DebugMode, Direction, STLinkMode};
use crate::link::structs::{CoreRegisters, SpeedMap};
use crate::link::util::{buf_read_u32, spec_read_u32};
use super::sendrecv::Progress;
use super::step::{LinkError, Reply, ReplyView, Response, ResponseView, Step, StepView, TargetVoltage};
use super::{Link, LinkView, Parse, Phase, Task};

verus! {

/// The mode that the first byte of a mode reply stands for. A probe in
/// debug mode does not say which of JTAG and SWD it speaks.
pub open spec fn decode_mode(byte: u8) -> STLinkMode {
    if byte == 0 {
        STLinkMode::DFU
    } else if byte == 1 {
        STLinkMode::Mass
    } else if byte == 2 {
        STLinkMode::Debug(DebugMode::Unknown)
    } else if byte == 3 {
        STLinkMode::Debug(DebugMode::SWIM)
    } else {
        STLinkMode::Unknown
    }
}

/// The register snapshot in a reply: word `k` of the snapshot is the
/// little-endian word at offset `4 * k`, for r0 to r15, xPSR at 64, MSP at
/// 68, PSP at 72 and the reserved words at 76 and 80; the spare word is
/// zero.
pub open spec fn decode_registers(data: Seq<u8>) -> Seq<u32> {
    Seq::new(
        22,
        |k: int|
            if k < 21 {
                spec_read_u32(data, 4 * k, true)
            } else {
                0u32
            },
    )
}

/// The number of speeds that a speed reply announces, at most ten.
pub open spec fn frequency_count(data: Seq<u8>) -> int {
    if data[8] > 10 {
        10
    } else {
        data[8] as int
    }
}

/// The speed table in a reply: ten entries, entry `i` with divisor `i`;
/// the speed of an announced entry is the little-endian word at offset
/// `12 + 4 * i`, in kHz, and the speed of the others is zero.
pub open spec fn decode_frequencies(data: Seq<u8>) -> Seq<SpeedMap> {
    Seq::new(
        10,
        |i: int|
            SpeedMap {
                speed: if i < frequency_count(data) {
                    spec_read_u32(data, 12 + 4 * i, true) as usize
                } else {
                    0
                },
                divisor: i as usize,
            },
    )
}

/// What a reply of `n` bytes, which stands in `data`, holds when it is read
/// as `parse` says.
pub open spec fn parsed(parse: Parse, data: Seq<u8>, n: usize) -> Result<ReplyView, LinkError> {
    match parse {
        Parse::Ack => Ok(ReplyView::Done),
        Parse::Count => Ok(ReplyView::Count(n)),
        Parse::Status => Ok(ReplyView::Word(data[0] as u32)),
        Parse::Word => Ok(ReplyView::Word(spec_read_u32(data, 0, true))),
        Parse::WordAfterStatus => Ok(ReplyView::Word(spec_read_u32(data, 4, true))),
        Parse::Mode => Ok(ReplyView::Mode(decode_mode(data[0]))),
        Parse::Voltage => if n == 8 {
            Ok(
                ReplyView::Voltage(
                    TargetVoltage {
                        reference: spec_read_u32(data, 0, true),
                        target: spec_read_u32(data, 4, true),
                    },
                ),
            )
        } else {
            Err(LinkError::ProtocolMismatch)
        },
        Parse::Registers => Ok(ReplyView::Registers(decode_registers(data))),
        Parse::Frequencies => Ok(ReplyView::Speeds(decode_frequencies(data))),
        Parse::Access => if data[0] == crate::link::constants::commands::debug::ERR_OK {
            Ok(ReplyView::Count(n))
        } else {
            Err(LinkError::AccessFailed)
        },
    }
}

impl LinkView {
    /// The session with a command of one round trip and its first
    /// transfer: `body` is the command, which announces `announced` bytes
    /// of data where commands are wrapped; `size` bytes are read back, and
    /// the reply is read as `parse` says.
    pub open spec fn asked(
        self,
        announced: u32,
        body: Seq<u8>,
        size: usize,
        terminate: bool,
        parse: Parse,
    ) -> (LinkView, StepView) {
        self.issued(Task::Single(parse), announced, body, size, terminate)
    }

    /// The session with the command `body` as the next round trip of
    /// operation `task`, and its first transfer; `size` bytes are read
    /// back.
    pub open spec fn issued(
        self,
        task: Task,
        announced: u32,
        body: Seq<u8>,
        size: usize,
        terminate: bool,
    ) -> (LinkView, StepView) {
        (LinkView { task: Task::Idle, ..self }).framed(announced, Direction::In, body).launched(
            task,
            Direction::In,
            size,
            terminate,
        )
    }

    /// The session that refuses an operation with `error` before any
    /// transfer.
    pub open spec fn refused(self, error: LinkError) -> (LinkView, StepView) {
        (self, StepView::Finished(Err(error)))
    }

    /// The session that has finished its operation with `result`.
    pub open spec fn finished(self, result: Result<ReplyView, LinkError>) -> (LinkView, StepView) {
        (LinkView { task: Task::Idle, ..self }, StepView::Finished(result))
    }

    /// What the session does once a round trip is over: the operation
    /// under way goes on, and while the session is being opened the end of
    /// an operation makes the opening go on.
    pub open spec fn concluded(self, outcome: Result<usize, LinkError>) -> (LinkView, StepView) {
        let gone = self.task_concluded(outcome);
        match gone.1 {
            StepView::Finished(result) => gone.0.opened(result),
            _ => gone,
        }
    }

    /// What the operation under way does once a round trip is over.
    pub open spec fn task_concluded(self, outcome: Result<usize, LinkError>) -> (
        LinkView,
        StepView,
    ) {
        match self.task {
            Task::Idle => self.finished(Err(LinkError::ProtocolMismatch)),
            Task::Pausing => self.version(),
            Task::Single(parse) => self.finished(
                match outcome {
                    Ok(n) => parsed(parse, self.databuf, n),
                    Err(e) => Err(e),
                },
            ),
            Task::Version { extended } => self.version_next(extended, outcome),
            Task::Stepping { nth: stage } => self.step_next(stage, outcome),
            Task::Unlock { lock: stage } => self.unlock_next(stage, outcome),
            Task::Init { init: stage, mode, under_reset } => self.init_next(
                stage,
                mode,
                under_reset,
                outcome,
            ),
            Task::ChipInfo { chip: stage, id, size } => self.chip_next(stage, id, size, outcome),
            Task::SpeedV3 { is_jtag, khz, setting } => self.speed_next(
                is_jtag,
                khz,
                setting,
                outcome,
            ),
            Task::Memory { write, cursor, chunk, remaining, polling } => self.memory_next(
                write,
                cursor,
                chunk,
                remaining,
                polling,
                outcome,
            ),
        }
    }

    /// The session after `response` came in, and what it wants next.
    pub open spec fn resumed(self, response: ResponseView) -> (LinkView, StepView) {
        match self.advanced(response) {
            Progress::Transfer(v, t) => (v, StepView::Transfer(t)),
            Progress::Complete(v, outcome) => v.concluded(outcome),
        }
    }
}

/// A command of one byte.
pub(crate) fn text1(a: u8) -> (body: Vec<u8>)
    ensures
        body@ == seq![a],
{
    let mut body: Vec<u8> = Vec::new();
    body.push(a);
    assert(body@ =~= seq![a]);
    body
}

/// A command of two bytes.
pub(crate) fn text2(a: u8, b: u8) -> (body: Vec<u8>)
    ensures
        body@ == seq![a, b],
{
    let mut body: Vec<u8> = Vec::new();
    body.push(a);
    body.push(b);
    assert(body@ =~= seq![a, b]);
    body
}

/// A command of three bytes.
pub(crate) fn text3(a: u8, b: u8, c: u8) -> (body: Vec<u8>)
    ensures
        body@ == seq![a, b, c],
{
    let mut body: Vec<u8> = Vec::new();
    body.push(a);
    body.push(b);
    body.push(c);
    assert(body@ =~= seq![a, b, c]);
    body
}

impl Link {
    /// Starts an operation of one round trip: `body` is the command,
    /// `size` bytes are read back, and the reply is read as `parse` says.
    pub(crate) fn ask(
        &mut self,
        announced: u32,
        body: &Vec<u8>,
        size: usize,
        terminate: bool,
        parse: Parse,
    ) -> (step: Step)
        requires
            old(self)@.wf(),
            old(self)@.idle(),
            body@.len() <= SG - CBW,
            size <= DATA,
        ensures
            (final(self)@, step@) == old(self)@.asked(announced, body@, size, terminate, parse),
            final(self)@.wf(),
    {
        self.issue(Task::Single(parse), announced, body, size, terminate)
    }

    /// Starts the next round trip of operation `task`: `body` is the
    /// command, and `size` bytes are read back.
    pub(crate) fn issue(
        &mut self,
        task: Task,
        announced: u32,
        body: &Vec<u8>,
        size: usize,
        terminate: bool,
    ) -> (step: Step)
        requires
            old(self)@.shaped(),
            old(self)@.phase == Phase::Idle,
            task != Task::Idle,
            (LinkView { task, ..old(self)@ }).task_ok(),
            body@.len() <= SG - CBW,
            size <= DATA,
        ensures
            (final(self)@, step@) == old(self)@.issued(task, announced, body@, size, terminate),
            final(self)@.wf(),
    {
        self.task = Task::Idle;
        self.load(announced, Direction::In, body);
        self.launch(task, Direction::In, size, terminate)
    }

    /// Ends the operation under way with `result`.
    pub(crate) fn finish(&mut self, result: Result<Reply, LinkError>) -> (step: Step)
        requires
            old(self)@.shaped(),
            old(self)@.phase == Phase::Idle,
        ensures
            final(self)@ == (LinkView { task: Task::Idle, ..old(self)@ }),
            step == Step::Finished(result),
            final(self)@.wf(),
    {
        self.task = Task::Idle;
        Step::Finished(result)
    }

    /// Reads the speed table in the data buffer.
    pub(crate) fn frequencies(&self) -> (map: Vec<SpeedMap>)
        requires
            self@.shaped(),
        ensures
            map@ == decode_frequencies(self@.databuf),
    {
        let announced = self.databuf[8];
        let count: usize = if announced > 10 {
            10
        } else {
            announced as usize
        };
        let mut map: Vec<SpeedMap> = Vec::new();
        let mut i: usize = 0;
        while i < 10
            invariant
                i <= 10,
                self@.shaped(),
                count == frequency_count(self@.databuf),
                map@.len() == i,
                forall|j: int| 0 <= j < i ==> map@[j] == decode_frequencies(self@.databuf)[j],
            decreases 10 - i,
        {
            let speed: usize = if i < count {
                buf_read_u32(&self.databuf, 12 + 4 * i, true) as usize
            } else {
                0
            };
            map.push(SpeedMap { speed, divisor: i });
            i += 1;
        }
        assert(map@ =~= decode_frequencies(self@.databuf));
        map
    }

    /// Reads the reply in the data buffer as `parse` says.
    pub(crate) fn parse(&self, parse: Parse, n: usize) -> (result: Result<Reply, LinkError>)
        requires
            self@.shaped(),
        ensures
            match result {
                Ok(r) => parsed(parse, self@.databuf, n) == Ok::<ReplyView, LinkError>(r@),
                Err(e) => parsed(parse, self@.databuf, n) == Err::<ReplyView, LinkError>(e),
            },
    {
        match parse {
            Parse::Ack => Ok(Reply::Done),
            Parse::Count => Ok(Reply::Count(n)),
            Parse::Status => Ok(Reply::Word(self.databuf[0] as u32)),
            Parse::Word => Ok(Reply::Word(buf_read_u32(&self.databuf, 0, true))),
            Parse::WordAfterStatus => Ok(Reply::Word(buf_read_u32(&self.databuf, 4, true))),
            Parse::Mode => {
                let byte = self.databuf[0];
                Ok(
                    Reply::Mode(
                        if byte == 0 {
                            STLinkMode::DFU
                        } else if byte == 1 {
                            STLinkMode::Mass
                        } else if byte == 2 {
                            STLinkMode::Debug(DebugMode::Unknown)
                        } else if byte == 3 {
                            STLinkMode::Debug(DebugMode::SWIM)
                        } else {
                            STLinkMode::Unknown
                        },
                    ),
                )
            },
            Parse::Voltage => {
                if n == 8 {
                    Ok(
                        Reply::Voltage(
                            TargetVoltage {
                                reference: buf_read_u32(&self.databuf, 0, true),
                                target: buf_read_u32(&self.databuf, 4, true),
                            },
                        ),
                    )
                } else {
                    Err(LinkError::ProtocolMismatch)
                }
            },
            Parse::Registers => {
                let mut regs = CoreRegisters::new();
                let mut k: usize = 0;
                while k < 21
                    invariant
                        k <= 21,
                        self@.shaped(),
                        regs@.len() == 22,
                        forall|j: int|
                            0 <= j < 22 ==> regs@[j] == if j < k {
                                spec_read_u32(self@.databuf, 4 * j, true)
                            } else {
                                0u32
                            },
                    decreases 21 - k,
                {
                    regs.set_r(k, buf_read_u32(&self.databuf, 4 * k, true));
                    k += 1;
                }
                assert(regs@ =~= decode_registers(self@.databuf));
                Ok(Reply::Registers(regs))
            },
            Parse::Frequencies => Ok(Reply::Speeds(self.frequencies())),
            Parse::Access => {
                if self.databuf[0] == crate::link::constants::commands::debug::ERR_OK {
                    Ok(Reply::Count(n))
                } else {
                    Err(LinkError::AccessFailed)
                }
            },
        }
    }

    /// What the session does once a round trip is over.
    fn conclude(&mut self, outcome: Result<usize, LinkError>) -> (step: Step)
        requires
            old(self)@.shaped(),
            old(self)@.phase == Phase::Idle,
            old(self)@.task_ok(),
        ensures
            (final(self)@, step@) == old(self)@.concluded(outcome),
            final(self)@.wf(),
    {
        match self.conclude_task(outcome) {
            Step::Finished(result) => self.open_next(result),
            step => step,
        }
    }

    /// What the operation under way does once a round trip is over.
    fn conclude_task(&mut self, outcome: Result<usize, LinkError>) -> (step: Step)
        requires
            old(self)@.shaped(),
            old(self)@.phase == Phase::Idle,
            old(self)@.task_ok(),
        ensures
            (final(self)@, step@) == old(self)@.task_concluded(outcome),
            final(self)@.wf(),
            step@ is Finished ==> final(self)@.idle(),
    {
        match self.task {
            Task::Idle => self.finish(Err(LinkError::ProtocolMismatch)),
            Task::Pausing => {
                self.task = Task::Idle;
                self.version()
            },
            Task::Single(parse) => {
                let result = match outcome {
                    Ok(n) => self.parse(parse, n),
                    Err(e) => Err(e),
                };
                self.finish(result)
            },
            Task::Version { extended } => self.version_next(extended, outcome),
            Task::Stepping { nth: stage } => self.step_next(stage, outcome),
            Task::Unlock { lock: stage } => self.unlock_next(stage, outcome),
            Task::Init { init: stage, mode, under_reset } => self.init_next(
                stage,
                mode,
                under_reset,
                outcome,
            ),
            Task::ChipInfo { chip: stage, id, size } => self.chip_next(stage, id, size, outcome),
            Task::SpeedV3 { is_jtag, khz, setting } => self.speed_next(
                is_jtag,
                khz,
                setting,
                outcome,
            ),
            Task::Memory { write, cursor, chunk, remaining, polling } => self.memory_next(
                write,
                cursor,
                chunk,
                remaining,
                polling,
                outcome,
            ),
        }
    }

    /// Takes what came of the transfer that the session asked for last, and
    /// hands back what it wants next: another transfer, or nothing more,
    /// with the result of the operation.
    pub fn resume(&mut self, response: Response) -> (step: Step)
        requires
            old(self)@.wf(),
        ensures
            (final(self)@, step@) == old(self)@.resumed(response@),
            final(self)@.wf(),
    {
        if self.is_idle() {
            return self.open_next(Err(LinkError::ProtocolMismatch));
        }
        match self.advance(response) {
            Ok(transfer) => Step::Transfer(transfer),
            Err(outcome) => self.conclude(outcome),
        }
    }
}

} // verus!
