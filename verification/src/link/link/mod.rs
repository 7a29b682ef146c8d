//! A session with a debug probe.
//!
//! The session owns the command and data buffers, the negotiated version
//! and the memory map of the target, but not the USB pipe. An operation is
//! started by the method of its name, which hands back the first bulk
//! transfer to make; `resume` takes what came of a transfer and hands back
//! the next one, until the operation is finished.

pub mod debug;
pub mod engine;
pub mod flash;
pub mod info;
pub mod init;
pub mod laws;
pub mod modes;
pub mod open;
pub mod registers;
pub mod reset;
pub mod sendrecv;
pub mod speed;
pub mod step;
pub mod version;

use vstd::prelude::*;
use crate::link::constants::commands::debug::{apiv2, DEBUG_COMMAND};
use crate::link::constants::misc::SIZE::{CBW, DATA, SG};
use crate::link::enums::Direction;
use crate::link::structs::{MemInfo, MemInfoView, STLinkUSBVersion};
use crate::link::util::{append_u16, buf_write_u32, bytes_u16, bytes_u32, overlay};
use self::step::{LinkError, Step, StepView};

verus! {

/// Where a command round trip stands.
#[derive(Debug, Copy, Clone)]
pub enum Phase {
    /// No transfer is under way.
    Idle,
    /// The command is being written; `size` bytes of data follow it in the
    /// direction `dir`.
    Command { dir: Direction, cmdsize: usize, size: usize, terminate: bool },
    /// The data are being moved; a read was issued for `issued` bytes.
    Data { dir: Direction, size: usize, issued: usize, terminate: bool },
    /// The status wrapper is being read; `outcome` is how the round trip
    /// went before it.
    Status { outcome: Result<usize, LinkError> },
    /// A pause is under way.
    Waiting,
}

/// How the reply of a single command is read.
#[derive(Debug, Copy, Clone, PartialEq, Eq, Structural)]
pub enum Parse {
    /// The reply holds nothing of interest.
    Ack,
    /// The number of bytes that came.
    Count,
    /// The first byte, as a word.
    Status,
    /// The little-endian word at the start of the reply.
    Word,
    /// The little-endian word behind the four status bytes of the reply.
    WordAfterStatus,
    /// The mode of the probe, which the first byte encodes.
    Mode,
    /// The two readings of the target voltage.
    Voltage,
    /// The core registers.
    Registers,
    /// The speed table of the third command set.
    Frequencies,
    /// The number of bytes that came, if the first of them is the status
    /// for success.
    Access,
}

/// Where the unlocking of the flash controller stands.
#[derive(Debug, Copy, Clone, PartialEq, Eq, Structural)]
pub enum UnlockStage {
    /// The control register is being read for the first time.
    Check,
    /// The first key is being written.
    FirstKey,
    /// The second key is being written.
    SecondKey,
    /// The control register is being read again.
    Verify,
}

/// Where the identification of the target stands.
#[derive(Debug, Copy, Clone, PartialEq, Eq, Structural)]
pub enum ChipStage {
    /// The device-ID register is being read.
    Identify,
    /// The flash-size register is being read.
    Size,
    /// The probe is being asked how that read went.
    Poll,
}

/// Where the bringing of the probe into a debug mode stands.
#[derive(Debug, Copy, Clone, PartialEq, Eq, Structural)]
pub enum InitStage {
    /// The probe is being asked for its mode.
    Probe,
    /// The probe is being told to leave DFU mode.
    LeaveDfu,
    /// The probe is being asked for its mode again.
    Recheck,
    /// The target voltage is being read.
    Voltage,
    /// The default speed is being set with the second command set.
    Speed,
    /// The speed table of the third command set is being read.
    Frequencies,
    /// The default speed is being set with the third command set.
    SetFrequency,
    /// The reset line is being asserted before the mode is entered.
    ResetBefore,
    /// The mode is being entered.
    Enter,
    /// The reset line is being asserted after the mode was entered.
    ResetAfter,
    /// The probe is being asked for its mode a last time.
    Confirm,
}

/// Where the opening of a session stands.
#[derive(Debug, Copy, Clone, PartialEq, Eq, Structural)]
pub enum OpenStage {
    /// The session is not being opened.
    Off,
    /// The version handshake is under way.
    Version,
    /// The probe is being brought into the debug mode.
    Init,
    /// The flash controller is being unlocked.
    Unlock,
    /// The target is being identified.
    Chip,
    /// What one access by words carries is being found out.
    Packet,
    /// The state of the core is being asked for.
    Status,
}

/// The operation that a session is carrying out.
#[derive(Debug, Copy, Clone, PartialEq, Eq, Structural)]
pub enum Task {
    /// None.
    Idle,
    /// One command, whose reply is read as `Parse` says.
    Single(Parse),
    /// The pause before the version handshake is tried again.
    Pausing,
    /// The version handshake; `extended` once the extended query is out.
    Version { extended: bool },
    /// A single step of the core: write `nth` of three is under way.
    Stepping { nth: u8 },
    /// The unlocking of the flash controller.
    Unlock { lock: UnlockStage },
    /// The identification of the target, which found the identifier `id`
    /// and a flash of `size` KiB so far.
    ChipInfo { chip: ChipStage, id: u32, size: u16 },
    /// The setting of a speed of the third command set: the table is being
    /// read or, with `setting`, the speed is being set.
    SpeedV3 { is_jtag: bool, khz: usize, setting: bool },
    /// The bringing of the probe into a debug mode.
    Init { init: InitStage, mode: crate::link::enums::STLinkMode, under_reset: bool },
    /// A read or a write of target memory: an access of `chunk` bytes at
    /// `cursor` is under way, or the probe is being asked how it went, and
    /// `remaining` bytes follow it.
    Memory { write: bool, cursor: u32, chunk: usize, remaining: usize, polling: bool },
}

/// A session with a probe.
pub struct Link {
    pub(crate) tx: u8,
    pub(crate) rx: u8,
    pub(crate) trace: u8,
    pub(crate) cmdbuf: [u8; 31],
    pub(crate) cmdidx: usize,
    pub(crate) databuf: [u8; 4096],
    pub(crate) version: STLinkUSBVersion,
    pub(crate) vid: u16,
    pub(crate) pid: u16,
    pub(crate) sg_transfer: u32,
    pub(crate) max_packet: usize,
    pub(crate) burst: usize,
    pub(crate) memory: MemInfo,
    pub(crate) phase: Phase,
    pub(crate) task: Task,
    pub(crate) pending: Vec<u8>,
    pub(crate) open_stage: OpenStage,
    pub(crate) tries: usize,
    pub(crate) connection: crate::link::enums::DebugMode,
}

/// Mathematical model of a session.
pub struct LinkView {
    /// Endpoint that commands and outgoing data are written to.
    pub tx: u8,
    /// Endpoint that replies are read from.
    pub rx: u8,
    /// Endpoint of the trace channel; zero where the probe has none.
    pub trace: u8,
    /// The command buffer, 31 bytes.
    pub cmdbuf: Seq<u8>,
    /// The cursor: the length of the command written so far.
    pub cmdidx: nat,
    /// The data buffer, 4096 bytes.
    pub databuf: Seq<u8>,
    pub version: STLinkUSBVersion,
    pub vid: u16,
    pub pid: u16,
    /// The rolling tag of the command wrapper of generation 1.
    pub tag: u32,
    /// The most that one memory access by bytes may carry.
    pub max_packet: usize,
    /// The most that one memory access by words may carry.
    pub burst: usize,
    pub memory: MemInfoView,
    pub phase: Phase,
    pub task: Task,
    /// Bytes that a memory operation has gathered or has yet to write.
    pub pending: Seq<u8>,
    /// Where the opening of the session stands.
    pub open_stage: OpenStage,
    /// How often the version handshake may still be tried again.
    pub tries: usize,
    /// The transport that the session is opened for.
    pub connection: crate::link::enums::DebugMode,
}

/// `n` zero bytes.
pub open spec fn zeros(n: nat) -> Seq<u8> {
    Seq::new(n, |i: int| 0u8)
}

/// The byte that stands for a direction in the command wrapper.
pub open spec fn direction_byte(dir: Direction) -> u8 {
    match dir {
        Direction::In => 0x80,
        Direction::Out => 0x81,
    }
}

/// The wrapper that generation 1 wants in front of every command: the
/// magic `USBC`, the tag, the length of the data phase, the direction, a
/// zero unit number and the length of a command block, ten.
pub open spec fn cbw(tag: u32, size: u32, dir: Direction) -> Seq<u8> {
    seq![0x55u8, 0x53u8, 0x42u8, 0x43u8] + bytes_u32(tag, true) + bytes_u32(size, true) + seq![
        direction_byte(dir),
        0u8,
        0x0Au8,
    ]
}

impl LinkView {
    /// Whether the probe is of generation 1, which wraps its commands.
    pub open spec fn wrapped(self) -> bool {
        self.version.stlink == 1
    }

    /// The buffers have their sizes, the cursor lies in the command
    /// buffer, and one memory access carries at least four bytes and no
    /// more than the data buffer holds, by words a whole number of words.
    pub open spec fn shaped(self) -> bool {
        &&& self.cmdbuf.len() == SG
        &&& self.databuf.len() == DATA
        &&& self.cmdidx <= SG
        &&& 4 <= self.max_packet <= DATA
        &&& 4 <= self.burst <= DATA
        &&& self.burst % 4 == 0
    }

    /// The buffers have their sizes, the cursor lies in the command buffer
    /// and a transfer is under way exactly while an operation is.
    pub open spec fn wf(self) -> bool {
        &&& self.shaped()
        &&& (self.task == Task::Idle <==> self.phase == Phase::Idle)
        &&& match self.phase {
            Phase::Command { cmdsize, size, .. } => cmdsize <= SG && size <= DATA,
            Phase::Data { size, issued, .. } => size <= issued <= DATA,
            _ => true,
        }
        &&& self.task_ok()
    }

    /// What holds of the operation under way: an access fits the data
    /// buffer, the bytes that a write has yet to send are at hand, and the
    /// accesses that follow stay within the address space.
    pub open spec fn task_ok(self) -> bool {
        match self.task {
            Task::Memory { write, cursor, chunk, remaining, .. } => {
                &&& chunk <= DATA
                &&& (write ==> chunk + remaining <= self.pending.len())
                &&& (remaining > 0 ==> cursor + chunk + remaining <= 0x1_0000_0000)
            },
            _ => true,
        }
    }

    /// No operation is under way.
    pub open spec fn idle(self) -> bool {
        self.task == Task::Idle
    }

    /// The command written so far.
    pub open spec fn frame(self) -> Seq<u8> {
        self.cmdbuf.take(self.cmdidx as int)
    }

    /// The length of what stands in front of a command: 15 bytes on
    /// generation 1, none on the others.
    pub open spec fn prefix_len(self) -> nat {
        if self.wrapped() {
            CBW as nat
        } else {
            0
        }
    }

    /// What stands in front of a command: the wrapper on generation 1,
    /// nothing on the others.
    pub open spec fn prefix(self, size: u32, dir: Direction) -> Seq<u8> {
        if self.wrapped() {
            cbw(self.tag, size, dir)
        } else {
            Seq::empty()
        }
    }

    /// The session with `body` as its command: the command buffer holds the
    /// prefix and `body`, then zeros; the cursor stands behind `body`; the
    /// data buffer is zero.
    pub open spec fn framed(self, size: u32, dir: Direction, body: Seq<u8>) -> LinkView {
        let frame = self.prefix(size, dir) + body;
        LinkView {
            cmdbuf: frame + zeros((SG - frame.len()) as nat),
            cmdidx: frame.len(),
            databuf: zeros(DATA as nat),
            ..self
        }
    }

    /// The session after one more byte was written at the cursor.
    pub open spec fn pushed(self, byte: u8) -> LinkView {
        LinkView {
            cmdbuf: self.cmdbuf.update(self.cmdidx as int, byte),
            cmdidx: self.cmdidx + 1,
            ..self
        }
    }
}

impl LinkView {
    /// The command that writes the debug key with the halt and enable
    /// bits to the debug halting control and status register.
    pub open spec fn enter_debug_state(self) -> (LinkView, StepView) {
        self.asked(
            16,
            seq![DEBUG_COMMAND, 0x35u8, 0xF0u8, 0xEDu8, 0x00u8, 0xE0u8, 0x03u8, 0x00u8, 0x5Fu8, 0xA0u8],
            100,
            true,
            Parse::Ack,
        )
    }

    /// The command that sets the SWD clock divisor, which only probes of
    /// the third command set take.
    pub open spec fn set_swdclk(self, divisor: u16) -> (LinkView, StepView) {
        if self.version.stlink >= 2 && self.version.jtag_api == 3 {
            self.asked(
                2,
                seq![DEBUG_COMMAND, apiv2::SWD_SET_FREQ] + bytes_u16(divisor, true),
                2,
                true,
                Parse::Ack,
            )
        } else {
            self.refused(LinkError::UnsupportedFeature)
        }
    }
}

impl View for Link {
    type V = LinkView;

    closed spec fn view(&self) -> LinkView {
        LinkView {
            tx: self.tx,
            rx: self.rx,
            trace: self.trace,
            cmdbuf: self.cmdbuf@,
            cmdidx: self.cmdidx as nat,
            databuf: self.databuf@,
            version: self.version,
            vid: self.vid,
            pid: self.pid,
            tag: self.sg_transfer,
            max_packet: self.max_packet,
            burst: self.burst,
            memory: self.memory@,
            phase: self.phase,
            task: self.task,
            pending: self.pending@,
            open_stage: self.open_stage,
            tries: self.tries,
            connection: self.connection,
        }
    }
}

/// The generation that a product identifier stands for: 1 for 0x3744, 3
/// for 0x374D, 0x374E, 0x374F and 0x3753, and 2 for every other one.
pub open spec fn generation_of(pid: u16) -> usize {
    if pid == 0x3744 {
        1
    } else if pid == 0x374D || pid == 0x374E || pid == 0x374F || pid == 0x3753 {
        3
    } else {
        2
    }
}

/// The endpoint that a probe with this product identifier takes commands
/// on: 1 on generations 2.1 and 3, 2 on the others.
pub open spec fn tx_endpoint_of(pid: u16) -> u8 {
    if generation_of(pid) == 3 || pid == 0x374B || pid == 0x3752 {
        0x01
    } else {
        0x02
    }
}

/// The trace endpoint of a probe with this product identifier: none, here
/// zero, on generation 1; 0x82 on generations 2.1 and 3; 0x83 on the rest.
pub open spec fn trace_endpoint_of(pid: u16) -> u8 {
    if generation_of(pid) == 1 {
        0x00
    } else if generation_of(pid) == 3 || pid == 0x374B || pid == 0x3752 {
        0x82
    } else {
        0x83
    }
}

/// The most that one memory access by bytes may carry on a probe of
/// generation `stlink`: 512 bytes on generation 3, 64 bytes on the others.
pub open spec fn spec_packet_of(stlink: usize) -> usize {
    if stlink == 3 {
        512
    } else {
        64
    }
}

/// The most that one memory access by bytes may carry on a probe of
/// generation `stlink`.
pub fn packet_of(stlink: usize) -> (max: usize)
    ensures
        max == spec_packet_of(stlink),
{
    if stlink == 3 {
        512
    } else {
        64
    }
}

/// The session as it is before the first command: endpoints and generation
/// follow from the product identifier, nothing else is known of the probe.
pub open spec fn fresh(vid: u16, pid: u16) -> LinkView {
    LinkView {
        tx: tx_endpoint_of(pid),
        rx: 0x81,
        trace: trace_endpoint_of(pid),
        cmdbuf: zeros(SG as nat),
        cmdidx: 0,
        databuf: zeros(DATA as nat),
        version: STLinkUSBVersion {
            stlink: generation_of(pid),
            jtag: 0,
            swim: 0,
            jtag_api: 1,
            flags: 0,
        },
        vid,
        pid,
        tag: 0,
        max_packet: spec_packet_of(generation_of(pid)),
        burst: DATA,
        memory: MemInfo::spec_new(),
        phase: Phase::Idle,
        task: Task::Idle,
        pending: Seq::empty(),
        open_stage: OpenStage::Off,
        tries: 0,
        connection: crate::link::enums::DebugMode::Unknown,
    }
}

impl Link {
    /// A session with the probe that USB enumeration found under `vid` and
    /// `pid`, before the first command.
    pub fn new(vid: u16, pid: u16) -> (link: Self)
        ensures
            link@ == fresh(vid, pid),
            link@.wf(),
    {
        let v3 = pid == 0x374D || pid == 0x374E || pid == 0x374F || pid == 0x3753;
        let v21 = pid == 0x374B || pid == 0x3752;
        let stlink: usize = if pid == 0x3744 {
            1
        } else if v3 {
            3
        } else {
            2
        };
        let link = Link {
            tx: if v3 || v21 {
                0x01
            } else {
                0x02
            },
            rx: 0x81,
            trace: if pid == 0x3744 {
                0x00
            } else if v3 || v21 {
                0x82
            } else {
                0x83
            },
            cmdbuf: [0u8;31],
            cmdidx: 0,
            databuf: [0u8;4096],
            version: STLinkUSBVersion { stlink, jtag: 0, swim: 0, jtag_api: 1, flags: 0 },
            vid,
            pid,
            sg_transfer: 0,
            max_packet: packet_of(stlink),
            burst: DATA,
            memory: MemInfo::new(),
            phase: Phase::Idle,
            task: Task::Idle,
            pending: Vec::new(),
            open_stage: OpenStage::Off,
            tries: 0,
            connection: crate::link::enums::DebugMode::Unknown,
        };
        assert(link.cmdbuf@ =~= zeros(SG as nat));
        assert(link.databuf@ =~= zeros(DATA as nat));
        link
    }

    /// What the probe reported of its firmware.
    pub fn usb_version(&self) -> (version: STLinkUSBVersion)
        ensures
            version == self@.version,
    {
        self.version
    }

    /// The endpoints of the probe: the one for commands and outgoing data,
    /// the one for replies and the one for the trace.
    pub fn endpoints(&self) -> (eps: (u8, u8, u8))
        ensures
            eps == (self@.tx, self@.rx, self@.trace),
    {
        (self.tx, self.rx, self.trace)
    }

    /// The vendor and product identifiers under which the probe was found.
    pub fn identity(&self) -> (ids: (u16, u16))
        ensures
            ids == (self@.vid, self@.pid),
    {
        (self.vid, self.pid)
    }

    /// Whether no operation is under way.
    pub fn is_idle(&self) -> (idle: bool)
        ensures
            idle == self@.idle(),
    {
        self.task == Task::Idle
    }

    /// The most that one memory access by bytes may carry.
    pub fn max_packet(&self) -> (max: usize)
        ensures
            max == self@.max_packet,
    {
        self.max_packet
    }

    /// The most that one memory access by words may carry.
    pub fn burst(&self) -> (max: usize)
        ensures
            max == self@.burst,
    {
        self.burst
    }

    /// The length of the command written so far.
    pub fn command_len(&self) -> (len: usize)
        ensures
            len == self@.cmdidx,
    {
        self.cmdidx
    }

    /// The memory map of the target, as far as it is known.
    pub fn memory(&self) -> (map: &MemInfo)
        ensures
            map@ == self@.memory,
    {
        &self.memory
    }

    /// The first `offset` bytes of the data buffer.
    pub fn dump_data(&self, offset: usize) -> (bytes: Vec<u8>)
        requires
            offset <= DATA,
        ensures
            bytes@ == self@.databuf.take(offset as int),
    {
        let whole = vstd::array::array_as_slice(&self.databuf);
        vstd::slice::slice_to_vec(vstd::slice::slice_subrange(whole, 0, offset))
    }

    /// Starts halting the core and enabling debug.
    pub fn enter_debug_state(&mut self) -> (step: Step)
        requires
            old(self)@.wf(),
            old(self)@.idle(),
        ensures
            (final(self)@, step@) == old(self)@.enter_debug_state(),
            final(self)@.wf(),
    {
        let mut body: Vec<u8> = Vec::new();
        body.push(DEBUG_COMMAND);
        body.push(0x35);
        body.push(0xF0);
        body.push(0xED);
        body.push(0x00);
        body.push(0xE0);
        body.push(0x03);
        body.push(0x00);
        body.push(0x5F);
        body.push(0xA0);
        assert(body@ =~= seq![
            DEBUG_COMMAND,
            0x35u8,
            0xF0u8,
            0xEDu8,
            0x00u8,
            0xE0u8,
            0x03u8,
            0x00u8,
            0x5Fu8,
            0xA0u8,
        ]);
        self.ask(16, &body, 100, true, Parse::Ack)
    }

    /// Starts setting the SWD clock divisor.
    pub fn set_swdclk(&mut self, divisor: u16) -> (step: Step)
        requires
            old(self)@.wf(),
            old(self)@.idle(),
        ensures
            (final(self)@, step@) == old(self)@.set_swdclk(divisor),
            final(self)@.wf(),
    {
        if self.version.stlink >= 2 && self.version.jtag_api == 3 {
            let mut body = engine::text2(DEBUG_COMMAND, apiv2::SWD_SET_FREQ);
            append_u16(&mut body, divisor, true);
            self.ask(2, &body, 2, true, Parse::Ack)
        } else {
            Step::Finished(Err(LinkError::UnsupportedFeature))
        }
    }

    /// Starts a new command: clears both buffers and puts the cursor at the
    /// start of the command. On generation 1 the command wrapper is written
    /// first, with `cmdsize` as the length of the data phase, and the cursor
    /// stands behind it.
    pub fn cmd_setup(&mut self, cmdsize: u32, direction: Direction)
        requires
            old(self)@.wf(),
        ensures
            final(self)@ == old(self)@.framed(cmdsize, direction, Seq::empty()),
            final(self)@.cmdidx == old(self)@.prefix_len(),
            final(self)@.wf(),
    {
        self.cmdidx = 0;
        self.cmdbuf = [0u8;31];
        self.databuf = [0u8;4096];
        if self.version.stlink == 1 {
            self.cmdbuf[0] = 0x55;
            self.cmdbuf[1] = 0x53;
            self.cmdbuf[2] = 0x42;
            self.cmdbuf[3] = 0x43;
            buf_write_u32(&mut self.cmdbuf, 4, self.sg_transfer, true);
            buf_write_u32(&mut self.cmdbuf, 8, cmdsize, true);
            self.cmdbuf[12] = match direction {
                Direction::In => 0x80,
                Direction::Out => 0x81,
            };
            self.cmdbuf[13] = 0;
            self.cmdbuf[14] = 0x0A;
            self.cmdidx = CBW;
        }
        proof {
            let target = old(self)@.framed(cmdsize, direction, Seq::empty());
            assert(self.cmdbuf@ =~= target.cmdbuf);
            assert(self.databuf@ =~= target.databuf);
        }
    }

    /// Writes one byte at the cursor and moves the cursor behind it.
    pub fn push_command(&mut self, cmd: u8)
        requires
            old(self)@.wf(),
            old(self)@.cmdidx < SG,
        ensures
            final(self)@ == old(self)@.pushed(cmd),
            final(self)@.wf(),
    {
        self.cmdbuf[self.cmdidx] = cmd;
        self.cmdidx += 1;
    }

    /// Starts a new command and writes the bytes of `body` as its text.
    pub(crate) fn load(&mut self, size: u32, dir: Direction, body: &Vec<u8>)
        requires
            old(self)@.wf(),
            body@.len() <= SG - CBW,
        ensures
            final(self)@ == old(self)@.framed(size, dir, body@),
            final(self)@.wf(),
    {
        self.cmd_setup(size, dir);
        let ghost start = self@;
        let mut i: usize = 0;
        assert(overlay(start.cmdbuf, start.cmdidx as int, body@.take(0)) =~= start.cmdbuf);
        while i < body.len()
            invariant
                i <= body@.len(),
                body@.len() <= SG - CBW,
                self@.wf(),
                start == old(self)@.framed(size, dir, Seq::empty()),
                self@ == (LinkView {
                    cmdbuf: overlay(start.cmdbuf, start.cmdidx as int, body@.take(i as int)),
                    cmdidx: (start.cmdidx + i) as nat,
                    ..start
                }),
            decreases body@.len() - i,
        {
            let ghost before = self@;
            self.push_command(body[i]);
            i += 1;
            assert(self@.cmdbuf =~= overlay(
                start.cmdbuf,
                start.cmdidx as int,
                body@.take(i as int),
            ));
        }
        proof {
            let target = old(self)@.framed(size, dir, body@);
            assert(body@.take(body@.len() as int) =~= body@);
            assert(self@.cmdbuf =~= target.cmdbuf);
        }
    }
}

} // verus!
