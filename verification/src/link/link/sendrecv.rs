//! Command round trips: a command is written, data are written after it or
//! read back, and on generation 1 a status wrapper is read at the end.

use vstd::prelude::*;
use crate::link::constants::misc::SIZE::{CBW, CSW, DATA, SG};
use crate::link::enums::{Cmd, Direction};
use crate::link::util::{buf_write_u16, buf_write_u32, bytes_u16, bytes_u32, overlay};
use super::step::{
    LinkError,
    Reply,
    ReplyView,
    Response,
    ResponseView,
    Step,
    StepView,
    Transfer,
    TransferView,
};
use super::{Link, LinkView, Parse, Phase, Task};

verus! {

/// Where a round trip stands after a transfer: it goes on with another
/// transfer, or it is over, with the number of data bytes that were moved
/// or with an error.
pub enum Progress {
    Transfer(LinkView, TransferView),
    Complete(LinkView, Result<usize, LinkError>),
}

/// The tag that follows `tag`; after the largest one comes zero.
pub open spec fn next_tag(tag: u32) -> u32 {
    if tag == u32::MAX {
        0
    } else {
        (tag + 1) as u32
    }
}

/// How many bytes a read is issued for, where `size` bytes are expected:
/// the probe never answers with a single byte, so one byte is asked for as
/// two.
pub open spec fn issued_for(size: usize) -> usize {
    if size == 1 {
        2
    } else {
        size
    }
}

/// The number of bytes that a list of tokens takes.
pub open spec fn total_width(cmds: Seq<Cmd>) -> nat
    decreases cmds.len(),
{
    if cmds.len() == 0 {
        0
    } else {
        total_width(cmds.drop_last()) + cmds.last().spec_width()
    }
}

impl LinkView {
    /// The session with its first transfer: the first `cmdsize` bytes of
    /// the command buffer go to the probe.
    pub open spec fn started(
        self,
        dir: Direction,
        cmdsize: usize,
        size: usize,
        terminate: bool,
    ) -> (LinkView, StepView) {
        (
            LinkView { phase: Phase::Command { dir, cmdsize, size, terminate }, ..self },
            StepView::Transfer(
                TransferView::Write { endpoint: self.tx, data: self.cmdbuf.take(cmdsize as int) },
            ),
        )
    }

    /// The session at the start of operation `task`, with the first
    /// transfer of its first round trip.
    pub open spec fn launched(
        self,
        task: Task,
        dir: Direction,
        size: usize,
        terminate: bool,
    ) -> (LinkView, StepView) {
        (LinkView { task, ..self }).started(dir, self.cmdidx as usize, size, terminate)
    }

    /// The end of a round trip whose commands and data gave `outcome`: on
    /// generation 1, where the round trip asked for it, the status wrapper
    /// is read first.
    pub open spec fn closing(self, terminate: bool, outcome: Result<usize, LinkError>) -> Progress {
        if terminate && self.wrapped() {
            Progress::Transfer(
                LinkView { phase: Phase::Status { outcome }, ..self },
                TransferView::Read { endpoint: self.rx, len: CSW },
            )
        } else {
            Progress::Complete(LinkView { phase: Phase::Idle, ..self }, outcome)
        }
    }

    /// Where the round trip stands after `response` came in.
    ///
    /// A command or data that were not written whole, and any transfer
    /// that failed, make a transport failure. A read that brought fewer
    /// bytes than were expected, or more than were asked for, makes a
    /// protocol mismatch; the bytes of any other read stand at the start of
    /// the data buffer. The status wrapper, which has 13 bytes, is read
    /// however the round trip went, the tag moves on once it was read, and
    /// the first error stands.
    pub open spec fn advanced(self, response: ResponseView) -> Progress {
        match self.phase {
            Phase::Command { dir, cmdsize, size, terminate } => {
                if response == ResponseView::Written(cmdsize) {
                    if size == 0 {
                        self.closing(terminate, Ok(0))
                    } else {
                        match dir {
                            Direction::Out => Progress::Transfer(
                                LinkView {
                                    phase: Phase::Data { dir, size, issued: size, terminate },
                                    ..self
                                },
                                TransferView::Write {
                                    endpoint: self.tx,
                                    data: self.databuf.take(size as int),
                                },
                            ),
                            Direction::In => Progress::Transfer(
                                LinkView {
                                    phase: Phase::Data {
                                        dir,
                                        size,
                                        issued: issued_for(size),
                                        terminate,
                                    },
                                    ..self
                                },
                                TransferView::Read { endpoint: self.rx, len: issued_for(size) },
                            ),
                        }
                    }
                } else {
                    self.closing(terminate, Err(LinkError::TransportFailure))
                }
            },
            Phase::Data { dir, size, issued, terminate } => {
                match (dir, response) {
                    (Direction::Out, ResponseView::Written(n)) => if n == size {
                        self.closing(terminate, Ok(n))
                    } else {
                        self.closing(terminate, Err(LinkError::TransportFailure))
                    },
                    (Direction::In, ResponseView::Received(bytes)) => if size <= bytes.len()
                        <= issued {
                        (LinkView { databuf: overlay(self.databuf, 0, bytes), ..self }).closing(
                            terminate,
                            Ok(bytes.len() as usize),
                        )
                    } else {
                        self.closing(terminate, Err(LinkError::ProtocolMismatch))
                    },
                    _ => self.closing(terminate, Err(LinkError::TransportFailure)),
                }
            },
            Phase::Status { outcome } => Progress::Complete(
                LinkView { phase: Phase::Idle, tag: next_tag(self.tag), ..self },
                match outcome {
                    Err(e) => Err(e),
                    Ok(n) => match response {
                        ResponseView::Received(bytes) => if bytes.len() == CSW {
                            Ok(n)
                        } else {
                            Err(LinkError::ProtocolMismatch)
                        },
                        _ => Err(LinkError::TransportFailure),
                    },
                },
            ),
            Phase::Waiting => Progress::Complete(LinkView { phase: Phase::Idle, ..self }, Ok(0)),
            Phase::Idle => Progress::Complete(self, Err(LinkError::ProtocolMismatch)),
        }
    }

    /// The session after one token of a command was taken: a byte goes to
    /// the command buffer at the cursor; a 16- or 32-bit word goes to the
    /// data buffer at the cursor, least significant byte first, and the
    /// cursor skips as many bytes of the command.
    pub open spec fn token(self, cmd: Cmd) -> LinkView {
        match cmd {
            Cmd::Int8(byte) => self.pushed(byte),
            Cmd::Int16(word) => LinkView {
                databuf: overlay(self.databuf, self.cmdidx as int, bytes_u16(word, true)),
                cmdidx: self.cmdidx + 2,
                ..self
            },
            Cmd::Int32(word) => LinkView {
                databuf: overlay(self.databuf, self.cmdidx as int, bytes_u32(word, true)),
                cmdidx: self.cmdidx + 4,
                ..self
            },
        }
    }

    /// The session after the tokens of `cmds` were taken in their order.
    pub open spec fn fed(self, cmds: Seq<Cmd>) -> LinkView
        decreases cmds.len(),
    {
        if cmds.len() == 0 {
            self
        } else {
            self.fed(cmds.drop_last()).token(cmds.last())
        }
    }

    /// The session after it was told to end a transmission.
    pub open spec fn terminated(self) -> (LinkView, StepView) {
        if self.wrapped() {
            (
                LinkView {
                    task: Task::Single(Parse::Ack),
                    phase: Phase::Status { outcome: Ok(0) },
                    ..self
                },
                StepView::Transfer(TransferView::Read { endpoint: self.rx, len: CSW }),
            )
        } else {
            (self, StepView::Finished(Ok(ReplyView::Done)))
        }
    }

    /// The session with the command that `command` builds, and the first
    /// transfer of its round trip.
    pub open spec fn commanded(self, size: usize, dir: Direction, cmds: Seq<Cmd>) -> (
        LinkView,
        StepView,
    ) {
        self.ordered(size, dir, cmds, Parse::Count)
    }

    /// The session with a command made of tokens, and the first transfer
    /// of its round trip, whose reply is read as `parse` says.
    pub open spec fn ordered(self, size: usize, dir: Direction, cmds: Seq<Cmd>, parse: Parse) -> (
        LinkView,
        StepView,
    ) {
        self.tokened(Task::Single(parse), size, dir, cmds)
    }

    /// The session with a command made of tokens as the next round trip
    /// of operation `task`, and its first transfer.
    pub open spec fn tokened(self, task: Task, size: usize, dir: Direction, cmds: Seq<Cmd>) -> (
        LinkView,
        StepView,
    ) {
        (LinkView { task: Task::Idle, ..self }).framed(size as u32, dir, Seq::empty()).fed(
            cmds,
        ).launched(task, dir, size, true)
    }
}

/// The tokens before any place of a list take no more bytes than the list.
pub proof fn lemma_width_prefix(cmds: Seq<Cmd>, i: int)
    requires
        0 <= i <= cmds.len(),
    ensures
        total_width(cmds.take(i)) <= total_width(cmds),
    decreases cmds.len(),
{
    if i == cmds.len() {
        assert(cmds.take(i) =~= cmds);
    } else {
        assert(cmds.drop_last().take(i) =~= cmds.take(i));
        lemma_width_prefix(cmds.drop_last(), i);
    }
}

impl Link {
    /// Hands the first `cmdsize` bytes of the command buffer to the probe
    /// and notes what is to follow them.
    pub(crate) fn begin(&mut self, dir: Direction, cmdsize: usize, size: usize, terminate: bool) -> (step:
        Step)
        requires
            old(self)@.shaped(),
            old(self)@.phase == Phase::Idle,
            old(self)@.task != Task::Idle,
            old(self)@.task_ok(),
            cmdsize <= SG,
            size <= DATA,
        ensures
            (final(self)@, step@) == old(self)@.started(dir, cmdsize, size, terminate),
            final(self)@.wf(),
    {
        self.phase = Phase::Command { dir, cmdsize, size, terminate };
        let whole = vstd::array::array_as_slice(&self.cmdbuf);
        let data = vstd::slice::slice_to_vec(vstd::slice::slice_subrange(whole, 0, cmdsize));
        Step::Transfer(Transfer::Write { endpoint: self.tx, data })
    }

    /// Starts operation `task` with the command that stands in the command
    /// buffer.
    pub(crate) fn launch(&mut self, task: Task, dir: Direction, size: usize, terminate: bool) -> (step:
        Step)
        requires
            old(self)@.wf(),
            old(self)@.idle(),
            task != Task::Idle,
            (LinkView { task, ..old(self)@ }).task_ok(),
            size <= DATA,
        ensures
            (final(self)@, step@) == old(self)@.launched(task, dir, size, terminate),
            final(self)@.wf(),
    {
        self.task = task;
        self.begin(dir, self.cmdidx, size, terminate)
    }

    fn close(&mut self, terminate: bool, outcome: Result<usize, LinkError>) -> (next: Result<
        Transfer,
        Result<usize, LinkError>,
    >)
        requires
            old(self)@.wf(),
            old(self)@.task != Task::Idle,
        ensures
            match old(self)@.closing(terminate, outcome) {
                Progress::Transfer(v, t) => final(self)@ == v && next.is_ok() && next.unwrap()@ == t,
                Progress::Complete(v, o) => final(self)@ == v && next == Err::<
                    Transfer,
                    Result<usize, LinkError>,
                >(o),
            },
            final(self)@.shaped(),
            final(self)@.task == old(self)@.task,
            final(self)@.pending == old(self)@.pending,
            final(self)@.phase != Phase::Idle ==> final(self)@.wf(),
    {
        if terminate && self.version.stlink == 1 {
            self.phase = Phase::Status { outcome };
            Ok(Transfer::Read { endpoint: self.rx, len: CSW })
        } else {
            self.phase = Phase::Idle;
            Err(outcome)
        }
    }

    /// Takes what came of the transfer that is under way.
    pub(crate) fn advance(&mut self, response: Response) -> (next: Result<
        Transfer,
        Result<usize, LinkError>,
    >)
        requires
            old(self)@.wf(),
            old(self)@.task != Task::Idle,
        ensures
            match old(self)@.advanced(response@) {
                Progress::Transfer(v, t) => final(self)@ == v && next.is_ok() && next.unwrap()@ == t,
                Progress::Complete(v, o) => final(self)@ == v && next == Err::<
                    Transfer,
                    Result<usize, LinkError>,
                >(o),
            },
            final(self)@.shaped(),
            final(self)@.task == old(self)@.task,
            final(self)@.pending == old(self)@.pending,
            final(self)@.phase != Phase::Idle ==> final(self)@.wf(),
    {
        match self.phase {
            Phase::Command { dir, cmdsize, size, terminate } => {
                let whole = match response {
                    Response::Written(n) => n == cmdsize,
                    _ => false,
                };
                if whole {
                    if size == 0 {
                        self.close(terminate, Ok(0))
                    } else {
                        match dir {
                            Direction::Out => {
                                self.phase = Phase::Data { dir, size, issued: size, terminate };
                                Ok(Transfer::Write { endpoint: self.tx, data: self.dump_data(size) })
                            },
                            Direction::In => {
                                let issued: usize = if size == 1 {
                                    2
                                } else {
                                    size
                                };
                                self.phase = Phase::Data { dir, size, issued, terminate };
                                Ok(Transfer::Read { endpoint: self.rx, len: issued })
                            },
                        }
                    }
                } else {
                    self.close(terminate, Err(LinkError::TransportFailure))
                }
            },
            Phase::Data { dir, size, issued, terminate } => {
                match (dir, response) {
                    (Direction::Out, Response::Written(n)) => {
                        if n == size {
                            self.close(terminate, Ok(n))
                        } else {
                            self.close(terminate, Err(LinkError::TransportFailure))
                        }
                    },
                    (Direction::In, Response::Received(bytes)) => {
                        let n = bytes.len();
                        if size <= n && n <= issued {
                            self.store(&bytes);
                            self.close(terminate, Ok(n))
                        } else {
                            self.close(terminate, Err(LinkError::ProtocolMismatch))
                        }
                    },
                    _ => self.close(terminate, Err(LinkError::TransportFailure)),
                }
            },
            Phase::Status { outcome } => {
                self.phase = Phase::Idle;
                self.sg_transfer = if self.sg_transfer == u32::MAX {
                    0
                } else {
                    self.sg_transfer + 1
                };
                match outcome {
                    Err(e) => Err(Err(e)),
                    Ok(n) => match response {
                        Response::Received(bytes) => {
                            if bytes.len() == CSW {
                                Err(Ok(n))
                            } else {
                                Err(Err(LinkError::ProtocolMismatch))
                            }
                        },
                        _ => Err(Err(LinkError::TransportFailure)),
                    },
                }
            },
            Phase::Waiting => {
                self.phase = Phase::Idle;
                Err(Ok(0))
            },
            Phase::Idle => Err(Err(LinkError::ProtocolMismatch)),
        }
    }

    /// Starts a round trip that writes the first `cmdsize` bytes of the
    /// command buffer and then, where `txsize` is not zero, the first
    /// `txsize` bytes of the data buffer. It ends with the number of data
    /// bytes that were written.
    pub fn send(&mut self, cmdsize: usize, txsize: usize, terminate: bool) -> (step: Step)
        requires
            old(self)@.wf(),
            old(self)@.idle(),
            cmdsize <= SG,
            txsize <= DATA,
        ensures
            (final(self)@, step@) == (LinkView {
                task: Task::Single(Parse::Count),
                ..old(self)@
            }).started(Direction::Out, cmdsize, txsize, terminate),
            final(self)@.wf(),
    {
        self.task = Task::Single(Parse::Count);
        self.begin(Direction::Out, cmdsize, txsize, terminate)
    }

    /// Starts a round trip that writes the first `cmdsize` bytes of the
    /// command buffer and then, where `rxsize` is not zero, reads `rxsize`
    /// bytes into the data buffer. It ends with the number of bytes that
    /// were read.
    pub fn recv(&mut self, cmdsize: usize, rxsize: usize, terminate: bool) -> (step: Step)
        requires
            old(self)@.wf(),
            old(self)@.idle(),
            cmdsize <= SG,
            rxsize <= DATA,
        ensures
            (final(self)@, step@) == (LinkView {
                task: Task::Single(Parse::Count),
                ..old(self)@
            }).started(Direction::In, cmdsize, rxsize, terminate),
            final(self)@.wf(),
    {
        self.task = Task::Single(Parse::Count);
        self.begin(Direction::In, cmdsize, rxsize, terminate)
    }

    /// Ends a transmission. On generation 1 the status wrapper is read,
    /// after which the tag moves on; on the other generations there is
    /// nothing to do.
    pub fn terminate(&mut self) -> (step: Step)
        requires
            old(self)@.wf(),
            old(self)@.idle(),
        ensures
            (final(self)@, step@) == old(self)@.terminated(),
            final(self)@.wf(),
    {
        if self.version.stlink == 1 {
            self.task = Task::Single(Parse::Ack);
            self.phase = Phase::Status { outcome: Ok(0) };
            Step::Transfer(Transfer::Read { endpoint: self.rx, len: CSW })
        } else {
            Step::Finished(Ok(Reply::Done))
        }
    }

    /// Builds a command from `cmds` and starts its round trip, which moves
    /// `size` bytes of data in the direction `dir` and ends with the number
    /// of bytes that were moved.
    ///
    /// A byte token goes to the command; a 16- or 32-bit token goes to the
    /// data buffer at the place of the cursor, and leaves zeros in the
    /// command. The command, with the wrapper of generation 1 in front of
    /// it, has to fit the command buffer.
    pub fn command(&mut self, size: usize, dir: Direction, cmds: Vec<Cmd>) -> (step: Step)
        requires
            old(self)@.wf(),
            old(self)@.idle(),
            size <= DATA,
            old(self)@.prefix_len() + total_width(cmds@) <= SG,
        ensures
            (final(self)@, step@) == old(self)@.commanded(size, dir, cmds@),
            final(self)@.wf(),
    {
        self.order(size, dir, &cmds, Parse::Count)
    }

    /// Builds a command from `cmds` and starts its round trip, whose reply
    /// is read as `parse` says.
    pub(crate) fn order(&mut self, size: usize, dir: Direction, cmds: &Vec<Cmd>, parse: Parse) -> (step:
        Step)
        requires
            old(self)@.wf(),
            old(self)@.idle(),
            size <= DATA,
            old(self)@.prefix_len() + total_width(cmds@) <= SG,
        ensures
            (final(self)@, step@) == old(self)@.ordered(size, dir, cmds@, parse),
            final(self)@.wf(),
    {
        self.token(Task::Single(parse), size, dir, cmds)
    }

    /// Builds a command from `cmds` and starts it as the next round trip
    /// of operation `task`.
    pub(crate) fn token(&mut self, task: Task, size: usize, dir: Direction, cmds: &Vec<Cmd>) -> (step:
        Step)
        requires
            old(self)@.shaped(),
            old(self)@.phase == Phase::Idle,
            task != Task::Idle,
            (LinkView { task, ..old(self)@ }).task_ok(),
            size <= DATA,
            old(self)@.prefix_len() + total_width(cmds@) <= SG,
        ensures
            (final(self)@, step@) == old(self)@.tokened(task, size, dir, cmds@),
            final(self)@.wf(),
    {
        self.task = Task::Idle;
        self.cmd_setup(size as u32, dir);
        self.feed(cmds);
        self.launch(task, dir, size, true)
    }

    /// Takes the tokens of `cmds` in their order.
    pub(crate) fn feed(&mut self, cmds: &Vec<Cmd>)
        requires
            old(self)@.wf(),
            old(self)@.cmdidx + total_width(cmds@) <= SG,
        ensures
            final(self)@ == old(self)@.fed(cmds@),
            final(self)@.cmdidx == old(self)@.cmdidx + total_width(cmds@),
            final(self)@.task == old(self)@.task,
            final(self)@.phase == old(self)@.phase,
            final(self)@.pending == old(self)@.pending,
            final(self)@.wf(),
    {
        let mut i: usize = 0;
        assert(cmds@.take(0) =~= Seq::<Cmd>::empty());
        while i < cmds.len()
            invariant
                i <= cmds@.len(),
                old(self)@.wf(),
                old(self)@.cmdidx + total_width(cmds@) <= SG,
                self@ == old(self)@.fed(cmds@.take(i as int)),
                self@.cmdidx == old(self)@.cmdidx + total_width(cmds@.take(i as int)),
                self@.task == old(self)@.task,
                self@.phase == old(self)@.phase,
                self@.pending == old(self)@.pending,
                self@.wf(),
            decreases cmds@.len() - i,
        {
            proof {
                lemma_width_prefix(cmds@, i + 1);
                assert(cmds@.take(i + 1).drop_last() =~= cmds@.take(i as int));
                assert(cmds@.take(i + 1).last() == cmds@[i as int]);
            }
            let ghost before = self@;
            match cmds[i] {
                Cmd::Int8(byte) => {
                    self.push_command(byte);
                },
                Cmd::Int16(word) => {
                    buf_write_u16(&mut self.databuf, self.cmdidx, word, true);
                    self.cmdidx += 2;
                },
                Cmd::Int32(word) => {
                    buf_write_u32(&mut self.databuf, self.cmdidx, word, true);
                    self.cmdidx += 4;
                },
            }
            assert(self@ == before.token(cmds@[i as int]));
            i += 1;
        }
        assert(cmds@.take(cmds@.len() as int) =~= cmds@);
    }

    /// Copies `bytes` to the start of the data buffer.
    fn store(&mut self, bytes: &Vec<u8>)
        requires
            bytes@.len() <= DATA,
        ensures
            final(self)@ == (LinkView {
                databuf: overlay(old(self)@.databuf, 0, bytes@),
                ..old(self)@
            }),
    {
        let mut i: usize = 0;
        assert(self@.databuf =~= overlay(old(self)@.databuf, 0, bytes@.take(0)));
        while i < bytes.len()
            invariant
                i <= bytes@.len() <= DATA,
                self@ == (LinkView {
                    databuf: overlay(old(self)@.databuf, 0, bytes@.take(i as int)),
                    ..old(self)@
                }),
            decreases bytes@.len() - i,
        {
            self.databuf[i] = bytes[i];
            i += 1;
            assert(self@.databuf =~= overlay(old(self)@.databuf, 0, bytes@.take(i as int)));
        }
        assert(bytes@.take(bytes@.len() as int) =~= bytes@);
    }
}

} // verus!
