//! Access to the memory of the target, and the unlocking of its flash
//! controller.
//!
//! The probe reads and writes memory in two ways: by bytes, up to the
//! largest packet, and by words, where address and length are multiples of
//! four. A request of any address and length is cut into such accesses:
//! bytes up to the next word boundary, then words in bursts of what the
//! data buffer takes at once, then the bytes that are left.

use vstd::prelude::*;
use crate::link::constants::commands::debug::{
    apiv1,
    apiv2,
    DEBUG_COMMAND,
    ERR_OK,
    READMEM_32BIT,
    READMEM_8BIT,
    WRITEMEM_32BIT,
    WRITEMEM_8BIT,
};
use crate::link::constants::flags::HAS_GETLASTRWSTATUS2;
use crate::link::constants::flash::cr::LOCK;
use crate::link::constants::flash::misc::{KEY1, KEY2};
use crate::link::constants::flash::register::{CR, KEYR};
use crate::link::constants::misc::SIZE::DATA;
use crate::link::enums::Direction;
use crate::link::util::{append_u16, append_u32, buf_read_u32, bytes_u16, bytes_u32, overlay, spec_read_u32};
use super::engine::text2;
use super::step::{LinkError, Reply, ReplyView, Step, StepView};
use super::{Link, LinkView, Parse, Phase, Task, UnlockStage};

verus! {

/// The next access of a request for `n` bytes at `address`, as its width
/// (whether it goes by words) and its length: the bytes up to the next
/// word boundary or, from a word boundary on, as many whole words as one
/// access by words carries, which is `burst` bytes, or, where less than a
/// word is left, the rest.
pub open spec fn spec_next_access(address: u32, n: usize, burst: usize) -> (bool, usize) {
    if address % 4 != 0 {
        (
            false,
            if n < 4 - address % 4 {
                n
            } else {
                (4 - address % 4) as usize
            },
        )
    } else if n >= 4 {
        (
            true,
            if n - n % 4 > burst {
                burst
            } else {
                (n - n % 4) as usize
            },
        )
    } else {
        (false, n)
    }
}

/// The next access of a request for `n` bytes at `address`, where one
/// access by words carries `burst` bytes. It is not empty and not longer
/// than the request; an access by words starts at a word boundary, is a
/// whole number of words and no longer than `burst`; an access by bytes is
/// shorter than a word.
pub fn next_access(address: u32, n: usize, burst: usize) -> (access: (bool, usize))
    requires
        n > 0,
        burst >= 4,
        burst % 4 == 0,
    ensures
        access == spec_next_access(address, n, burst),
        0 < access.1 <= n,
        access.0 ==> address % 4 == 0 && access.1 % 4 == 0 && access.1 <= burst,
        !access.0 ==> access.1 < 4,
{
    let off = (address % 4) as usize;
    if off != 0 {
        let head: usize = 4 - off;
        (
            false,
            if n < head {
                n
            } else {
                head
            },
        )
    } else if n >= 4 {
        let whole: usize = n - n % 4;
        (
            true,
            if whole > burst {
                burst
            } else {
                whole
            },
        )
    } else {
        (false, n)
    }
}

/// The command of one memory access: the debug group, the command for the
/// direction and the width, the address and, as a 16-bit word, the length.
pub open spec fn access_body(write: bool, wide: bool, address: u32, len: usize) -> Seq<u8> {
    seq![
        DEBUG_COMMAND,
        if write {
            if wide {
                WRITEMEM_32BIT
            } else {
                WRITEMEM_8BIT
            }
        } else {
            if wide {
                READMEM_32BIT
            } else {
                READMEM_8BIT
            }
        },
    ] + bytes_u32(address, true) + bytes_u16(len as u16, true)
}

impl LinkView {
    /// The command that asks how the last memory access went: the short
    /// form, answered by 2 bytes, or the long form, answered by 12, on
    /// probes that have it.
    pub open spec fn status_body(self) -> Seq<u8> {
        seq![
            DEBUG_COMMAND,
            if self.version.flags & HAS_GETLASTRWSTATUS2 == 0 {
                apiv2::GETLASTRWSTATUS
            } else {
                apiv2::GETLASTRWSTATUS2
            },
        ]
    }

    /// The length of the reply to the status command.
    pub open spec fn status_size(self) -> usize {
        if self.version.flags & HAS_GETLASTRWSTATUS2 == 0 {
            2
        } else {
            12
        }
    }

    /// The status command and its first transfer. The first command set
    /// has no such command: there the operation ends at once, with zero.
    pub open spec fn rw_status(self) -> (LinkView, StepView) {
        if self.version.jtag_api == 1 {
            (self, StepView::Finished(Ok(ReplyView::Count(0))))
        } else {
            self.asked(2, self.status_body(), self.status_size(), true, Parse::Access)
        }
    }

    /// The session with one memory access as its next round trip. For a
    /// write, the bytes to write stand at the start of the data buffer:
    /// they are those bytes of `pending` that lie in front of the last
    /// `remaining` ones.
    pub open spec fn accessed(
        self,
        write: bool,
        wide: bool,
        cursor: u32,
        chunk: usize,
        remaining: usize,
    ) -> (LinkView, StepView) {
        let task = Task::Memory { write, cursor, chunk, remaining, polling: false };
        let body = access_body(write, wide, cursor, chunk);
        if write {
            let v = (LinkView { task: Task::Idle, ..self }).framed(
                chunk as u32,
                Direction::Out,
                body,
            );
            let from = self.pending.len() - remaining - chunk;
            (LinkView {
                databuf: overlay(v.databuf, 0, self.pending.subrange(from, from + chunk)),
                ..v
            }).launched(task, Direction::Out, chunk, true)
        } else {
            self.issued(task, chunk as u32, body, chunk, true)
        }
    }

    /// The session at the end of a memory operation: a read hands back the
    /// bytes that it gathered.
    pub open spec fn settled(self, write: bool) -> (LinkView, StepView) {
        (
            LinkView { task: Task::Idle, pending: Seq::empty(), ..self },
            StepView::Finished(
                Ok(
                    if write {
                        ReplyView::Done
                    } else {
                        ReplyView::Bytes(self.pending)
                    },
                ),
            ),
        )
    }

    /// The session with the next access of a memory operation that has
    /// `remaining` bytes to go from `cursor` on, or at its end where
    /// nothing remains.
    pub open spec fn walked(self, write: bool, cursor: u32, remaining: usize) -> (
        LinkView,
        StepView,
    ) {
        if remaining == 0 {
            self.settled(write)
        } else {
            let access = spec_next_access(cursor, remaining, self.burst);
            self.accessed(write, access.0, cursor, access.1, (remaining - access.1) as usize)
        }
    }

    /// What a memory operation does once a round trip is over.
    ///
    /// After an access, a read appends the bytes that came to those it has
    /// gathered. With the first command set the next access follows at
    /// once; with the others the probe is first asked how the access went,
    /// and any answer but the status byte for success ends the operation
    /// with an error.
    pub open spec fn memory_next(
        self,
        write: bool,
        cursor: u32,
        chunk: usize,
        remaining: usize,
        polling: bool,
        outcome: Result<usize, LinkError>,
    ) -> (LinkView, StepView) {
        let onward: u32 = if remaining == 0 {
            cursor
        } else {
            (cursor + chunk) as u32
        };
        match outcome {
            Err(e) => (LinkView { pending: Seq::empty(), ..self }).finished(Err(e)),
            Ok(_) => if polling {
                if self.databuf[0] == ERR_OK {
                    self.walked(write, onward, remaining)
                } else {
                    (LinkView { pending: Seq::empty(), ..self }).finished(
                        Err(LinkError::AccessFailed),
                    )
                }
            } else {
                let v = if write {
                    self
                } else {
                    LinkView { pending: self.pending + self.databuf.take(chunk as int), ..self }
                };
                if self.version.jtag_api == 1 {
                    v.walked(write, onward, remaining)
                } else {
                    v.issued(
                        Task::Memory { write, cursor, chunk, remaining, polling: true },
                        2,
                        self.status_body(),
                        self.status_size(),
                        true,
                    )
                }
            },
        }
    }

    /// The session with no bytes pending.
    pub open spec fn cleared(self) -> LinkView {
        LinkView { pending: Seq::empty(), ..self }
    }

    /// The session that holds `data` as the bytes to write.
    pub open spec fn holding(self, data: Seq<u8>) -> LinkView {
        LinkView { pending: data, ..self }
    }

    /// A read of `n` bytes at `address`, cut into accesses.
    pub open spec fn read_mem(self, address: u32, n: usize) -> (LinkView, StepView) {
        self.cleared().walked(false, address, n)
    }

    /// A read of `n` bytes from a word boundary, cut into accesses. An
    /// address off the boundary is an alignment error.
    pub open spec fn read_mem2(self, address: u32, n: usize) -> (LinkView, StepView) {
        if address % 4 != 0 {
            self.refused(LinkError::AlignmentError)
        } else {
            self.read_mem(address, n)
        }
    }

    /// A read of `n` bytes at `address` in one access by bytes, which
    /// carries no more than the largest packet.
    pub open spec fn read_mem8(self, address: u32, n: usize) -> (LinkView, StepView) {
        if n > self.max_packet {
            self.refused(LinkError::TooLong)
        } else {
            self.cleared().accessed(false, false, address, n, 0)
        }
    }

    /// A read of `n` bytes at `address` in one access by words: address
    /// and length are multiples of four, and the length is no more than
    /// the data buffer holds.
    pub open spec fn read_mem32(self, address: u32, n: usize) -> (LinkView, StepView) {
        if address % 4 != 0 || n % 4 != 0 {
            self.refused(LinkError::AlignmentError)
        } else if n > DATA {
            self.refused(LinkError::TooLong)
        } else {
            self.cleared().accessed(false, true, address, n, 0)
        }
    }

    /// A write of `data` at `address`, cut into accesses.
    pub open spec fn write_mem(self, address: u32, data: Seq<u8>) -> (LinkView, StepView) {
        self.holding(data).walked(true, address, data.len() as usize)
    }

    /// A write of `data` at `address` in one access by bytes.
    pub open spec fn write_mem8(self, address: u32, data: Seq<u8>) -> (LinkView, StepView) {
        if data.len() > self.max_packet {
            self.refused(LinkError::TooLong)
        } else {
            self.holding(data).accessed(true, false, address, data.len() as usize, 0)
        }
    }

    /// A write of `data` at `address` in one access by words.
    pub open spec fn write_mem32(self, address: u32, data: Seq<u8>) -> (LinkView, StepView) {
        if address % 4 != 0 || data.len() % 4 != 0 {
            self.refused(LinkError::AlignmentError)
        } else if data.len() > DATA {
            self.refused(LinkError::TooLong)
        } else {
            self.holding(data).accessed(true, true, address, data.len() as usize, 0)
        }
    }

    /// The command that reads the control register of the flash
    /// controller, as round trip `stage` of an unlock.
    pub open spec fn unlock_read(self, stage: UnlockStage) -> (LinkView, StepView) {
        self.issued(
            Task::Unlock { lock: stage },
            8,
            seq![DEBUG_COMMAND, apiv2::READDEBUGREG] + bytes_u32(CR, true),
            8,
            false,
        )
    }

    /// The command that writes `key` to the key register of the flash
    /// controller, as round trip `stage` of an unlock.
    pub open spec fn unlock_key(self, stage: UnlockStage, key: u32) -> (LinkView, StepView) {
        self.issued(
            Task::Unlock { lock: stage },
            2,
            seq![
                DEBUG_COMMAND,
                if self.version.jtag_api == 1 {
                    apiv1::WRITEDEBUGREG
                } else {
                    apiv2::WRITEDEBUGREG
                },
            ] + bytes_u32(KEYR, true) + bytes_u32(key, true),
            2,
            true,
        )
    }

    /// Whether the control register in the reply shows the lock bit.
    pub open spec fn shows_lock(self) -> bool {
        spec_read_u32(self.databuf, 4, true) & LOCK != 0
    }

    /// The first command of an unlock: the control register is read.
    /// Generation 1 cannot read it.
    pub open spec fn unlock_flash(self) -> (LinkView, StepView) {
        if self.version.stlink == 1 {
            self.refused(LinkError::UnsupportedFeature)
        } else {
            self.unlock_read(UnlockStage::Check)
        }
    }

    /// What an unlock does once a round trip is over.
    ///
    /// If the control register shows no lock at the start, the unlock is
    /// over and nothing was written. Else the first key and the second
    /// key are written to the key register, and the control register is
    /// read again: if it still shows the lock, the flash is still locked.
    pub open spec fn unlock_next(self, stage: UnlockStage, outcome: Result<usize, LinkError>) -> (
        LinkView,
        StepView,
    ) {
        match outcome {
            Err(e) => self.finished(Err(e)),
            Ok(_) => match stage {
                UnlockStage::Check => if self.shows_lock() {
                    self.unlock_key(UnlockStage::FirstKey, KEY1)
                } else {
                    self.finished(Ok(ReplyView::Done))
                },
                UnlockStage::FirstKey => self.unlock_key(UnlockStage::SecondKey, KEY2),
                UnlockStage::SecondKey => self.unlock_read(UnlockStage::Verify),
                UnlockStage::Verify => if self.shows_lock() {
                    self.finished(Err(LinkError::FlashStillLocked))
                } else {
                    self.finished(Ok(ReplyView::Done))
                },
            },
        }
    }
}

impl Link {
    pub(crate) fn status_text(&self) -> (body: Vec<u8>)
        ensures
            body@ == self@.status_body(),
    {
        text2(
            DEBUG_COMMAND,
            if self.version.flags & HAS_GETLASTRWSTATUS2 == 0 {
                apiv2::GETLASTRWSTATUS
            } else {
                apiv2::GETLASTRWSTATUS2
            },
        )
    }

    pub(crate) fn status_len(&self) -> (len: usize)
        ensures
            len == self@.status_size(),
    {
        if self.version.flags & HAS_GETLASTRWSTATUS2 == 0 {
            2
        } else {
            12
        }
    }

    /// Starts asking the probe how the last memory access went; the
    /// operation ends with the length of the answer, or with an error if
    /// the answer is not the status for success.
    pub fn rw_status(&mut self) -> (step: Step)
        requires
            old(self)@.wf(),
            old(self)@.idle(),
        ensures
            (final(self)@, step@) == old(self)@.rw_status(),
            final(self)@.wf(),
    {
        if self.version.jtag_api == 1 {
            return Step::Finished(Ok(Reply::Count(0)));
        }
        let body = self.status_text();
        let len = self.status_len();
        self.ask(2, &body, len, true, Parse::Access)
    }

    fn access(&mut self, write: bool, wide: bool, cursor: u32, chunk: usize, remaining: usize) -> (step:
        Step)
        requires
            old(self)@.shaped(),
            old(self)@.phase == Phase::Idle,
            chunk <= DATA,
            write ==> chunk + remaining <= old(self)@.pending.len(),
            remaining > 0 ==> cursor + chunk + remaining <= 0x1_0000_0000,
        ensures
            (final(self)@, step@) == old(self)@.accessed(write, wide, cursor, chunk, remaining),
            final(self)@.wf(),
    {
        let task = Task::Memory { write, cursor, chunk, remaining, polling: false };
        let mut body = text2(
            DEBUG_COMMAND,
            if write {
                if wide {
                    WRITEMEM_32BIT
                } else {
                    WRITEMEM_8BIT
                }
            } else {
                if wide {
                    READMEM_32BIT
                } else {
                    READMEM_8BIT
                }
            },
        );
        append_u32(&mut body, cursor, true);
        append_u16(&mut body, chunk as u16, true);
        if write {
            self.task = Task::Idle;
            self.load(chunk as u32, Direction::Out, &body);
            let total: usize = self.pending.len();
            let from: usize = total - remaining - chunk;
            let ghost loaded = self@;
            let mut i: usize = 0;
            assert(self@.databuf =~= overlay(
                loaded.databuf,
                0,
                self@.pending.subrange(from as int, from + 0),
            ));
            while i < chunk
                invariant
                    i <= chunk <= DATA,
                    from + chunk <= total,
                    total == self@.pending.len(),
                    self@ == (LinkView {
                        databuf: overlay(
                            loaded.databuf,
                            0,
                            loaded.pending.subrange(from as int, from + i),
                        ),
                        ..loaded
                    }),
                decreases chunk - i,
            {
                self.databuf[i] = self.pending[from + i];
                i += 1;
                assert(self@.databuf =~= overlay(
                    loaded.databuf,
                    0,
                    loaded.pending.subrange(from as int, from + i),
                ));
            }
            self.launch(task, Direction::Out, chunk, true)
        } else {
            self.issue(task, chunk as u32, &body, chunk, true)
        }
    }

    fn settle(&mut self, write: bool) -> (step: Step)
        requires
            old(self)@.shaped(),
            old(self)@.phase == Phase::Idle,
        ensures
            (final(self)@, step@) == old(self)@.settled(write),
            final(self)@.wf(),
    {
        let mut out: Vec<u8> = Vec::new();
        core::mem::swap(&mut out, &mut self.pending);
        self.task = Task::Idle;
        if write {
            Step::Finished(Ok(Reply::Done))
        } else {
            Step::Finished(Ok(Reply::Bytes(out)))
        }
    }

    fn walk(&mut self, write: bool, cursor: u32, remaining: usize) -> (step: Step)
        requires
            old(self)@.shaped(),
            old(self)@.phase == Phase::Idle,
            write ==> remaining <= old(self)@.pending.len(),
            cursor + remaining <= 0x1_0000_0000,
        ensures
            (final(self)@, step@) == old(self)@.walked(write, cursor, remaining),
            final(self)@.wf(),
    {
        if remaining == 0 {
            self.settle(write)
        } else {
            let (wide, len) = next_access(cursor, remaining, self.burst);
            self.access(write, wide, cursor, len, remaining - len)
        }
    }

    fn fail(&mut self, error: LinkError) -> (step: Step)
        requires
            old(self)@.shaped(),
            old(self)@.phase == Phase::Idle,
        ensures
            (final(self)@, step@) == old(self)@.cleared().finished(Err(error)),
            final(self)@.wf(),
    {
        self.pending = Vec::new();
        self.finish(Err(error))
    }

    pub(crate) fn memory_next(
        &mut self,
        write: bool,
        cursor: u32,
        chunk: usize,
        remaining: usize,
        polling: bool,
        outcome: Result<usize, LinkError>,
    ) -> (step: Step)
        requires
            old(self)@.shaped(),
            old(self)@.phase == Phase::Idle,
            chunk <= DATA,
            write ==> chunk + remaining <= old(self)@.pending.len(),
            remaining > 0 ==> cursor + chunk + remaining <= 0x1_0000_0000,
        ensures
            (final(self)@, step@) == old(self)@.memory_next(
                write,
                cursor,
                chunk,
                remaining,
                polling,
                outcome,
            ),
            final(self)@.wf(),
    {
        let onward: u32 = if remaining == 0 {
            cursor
        } else {
            cursor + chunk as u32
        };
        match outcome {
            Err(e) => self.fail(e),
            Ok(_) => {
                if polling {
                    if self.databuf[0] == ERR_OK {
                        self.walk(write, onward, remaining)
                    } else {
                        self.fail(LinkError::AccessFailed)
                    }
                } else {
                    let body = self.status_text();
                    let len = self.status_len();
                    if !write {
                        let mut got = self.dump_data(chunk);
                        self.pending.append(&mut got);
                    }
                    if self.version.jtag_api == 1 {
                        self.walk(write, onward, remaining)
                    } else {
                        self.issue(
                            Task::Memory { write, cursor, chunk, remaining, polling: true },
                            2,
                            &body,
                            len,
                            true,
                        )
                    }
                }
            },
        }
    }

    /// Starts a read of `n` bytes at `address`; the operation ends with
    /// the bytes, in the order of their addresses.
    pub fn read_mem(&mut self, address: u32, n: usize) -> (step: Step)
        requires
            old(self)@.wf(),
            old(self)@.idle(),
            address + n <= 0x1_0000_0000,
        ensures
            (final(self)@, step@) == old(self)@.read_mem(address, n),
            final(self)@.wf(),
    {
        self.pending = Vec::new();
        self.walk(false, address, n)
    }

    /// Starts a read of `n` bytes from the word boundary `address`.
    pub fn read_mem2(&mut self, address: u32, n: usize) -> (step: Step)
        requires
            old(self)@.wf(),
            old(self)@.idle(),
            address + n <= 0x1_0000_0000,
        ensures
            (final(self)@, step@) == old(self)@.read_mem2(address, n),
            final(self)@.wf(),
    {
        if address % 4 != 0 {
            return Step::Finished(Err(LinkError::AlignmentError));
        }
        self.read_mem(address, n)
    }

    /// Starts a read of `n` bytes at `address` in one access by bytes.
    pub fn read_mem8(&mut self, address: u32, n: usize) -> (step: Step)
        requires
            old(self)@.wf(),
            old(self)@.idle(),
        ensures
            (final(self)@, step@) == old(self)@.read_mem8(address, n),
            final(self)@.wf(),
    {
        if n > self.max_packet {
            return Step::Finished(Err(LinkError::TooLong));
        }
        self.pending = Vec::new();
        self.access(false, false, address, n, 0)
    }

    /// Starts a read of `n` bytes at `address` in one access by words.
    pub fn read_mem32(&mut self, address: u32, n: usize) -> (step: Step)
        requires
            old(self)@.wf(),
            old(self)@.idle(),
        ensures
            (final(self)@, step@) == old(self)@.read_mem32(address, n),
            final(self)@.wf(),
    {
        if address % 4 != 0 || n % 4 != 0 {
            return Step::Finished(Err(LinkError::AlignmentError));
        }
        if n > DATA {
            return Step::Finished(Err(LinkError::TooLong));
        }
        self.pending = Vec::new();
        self.access(false, true, address, n, 0)
    }

    /// Starts a write of `buffer` at `address`.
    pub fn write_mem(&mut self, address: u32, buffer: &[u8]) -> (step: Step)
        requires
            old(self)@.wf(),
            old(self)@.idle(),
            address + buffer@.len() <= 0x1_0000_0000,
        ensures
            (final(self)@, step@) == old(self)@.write_mem(address, buffer@),
            final(self)@.wf(),
    {
        self.pending = vstd::slice::slice_to_vec(buffer);
        self.walk(true, address, buffer.len())
    }

    /// Starts a write of `data` at `address` in one access by bytes.
    pub fn write_mem8(&mut self, address: u32, data: &[u8]) -> (step: Step)
        requires
            old(self)@.wf(),
            old(self)@.idle(),
        ensures
            (final(self)@, step@) == old(self)@.write_mem8(address, data@),
            final(self)@.wf(),
    {
        if data.len() > self.max_packet {
            return Step::Finished(Err(LinkError::TooLong));
        }
        self.pending = vstd::slice::slice_to_vec(data);
        self.access(true, false, address, data.len(), 0)
    }

    /// Starts a write of `data` at `address` in one access by words.
    pub fn write_mem32(&mut self, address: u32, data: &[u8]) -> (step: Step)
        requires
            old(self)@.wf(),
            old(self)@.idle(),
        ensures
            (final(self)@, step@) == old(self)@.write_mem32(address, data@),
            final(self)@.wf(),
    {
        if address % 4 != 0 || data.len() % 4 != 0 {
            return Step::Finished(Err(LinkError::AlignmentError));
        }
        if data.len() > DATA {
            return Step::Finished(Err(LinkError::TooLong));
        }
        self.pending = vstd::slice::slice_to_vec(data);
        self.access(true, true, address, data.len(), 0)
    }

    fn unlock_read(&mut self, stage: UnlockStage) -> (step: Step)
        requires
            old(self)@.shaped(),
            old(self)@.phase == Phase::Idle,
        ensures
            (final(self)@, step@) == old(self)@.unlock_read(stage),
            final(self)@.wf(),
    {
        let mut body = text2(DEBUG_COMMAND, apiv2::READDEBUGREG);
        append_u32(&mut body, CR, true);
        self.issue(Task::Unlock { lock: stage }, 8, &body, 8, false)
    }

    fn unlock_key(&mut self, stage: UnlockStage, key: u32) -> (step: Step)
        requires
            old(self)@.shaped(),
            old(self)@.phase == Phase::Idle,
        ensures
            (final(self)@, step@) == old(self)@.unlock_key(stage, key),
            final(self)@.wf(),
    {
        let mut body = text2(
            DEBUG_COMMAND,
            if self.version.jtag_api == 1 {
                apiv1::WRITEDEBUGREG
            } else {
                apiv2::WRITEDEBUGREG
            },
        );
        append_u32(&mut body, KEYR, true);
        append_u32(&mut body, key, true);
        self.issue(Task::Unlock { lock: stage }, 2, &body, 2, true)
    }

    /// Starts unlocking the flash controller.
    pub fn unlock_flash(&mut self) -> (step: Step)
        requires
            old(self)@.wf(),
            old(self)@.idle(),
        ensures
            (final(self)@, step@) == old(self)@.unlock_flash(),
            final(self)@.wf(),
    {
        if self.version.stlink == 1 {
            return Step::Finished(Err(LinkError::UnsupportedFeature));
        }
        self.unlock_read(UnlockStage::Check)
    }

    pub(crate) fn unlock_next(&mut self, stage: UnlockStage, outcome: Result<usize, LinkError>) -> (step:
        Step)
        requires
            old(self)@.shaped(),
            old(self)@.phase == Phase::Idle,
        ensures
            (final(self)@, step@) == old(self)@.unlock_next(stage, outcome),
            final(self)@.wf(),
    {
        match outcome {
            Err(e) => self.finish(Err(e)),
            Ok(_) => {
                let locked = buf_read_u32(&self.databuf, 4, true) & LOCK != 0;
                match stage {
                    UnlockStage::Check => {
                        if locked {
                            self.unlock_key(UnlockStage::FirstKey, KEY1)
                        } else {
                            self.finish(Ok(Reply::Done))
                        }
                    },
                    UnlockStage::FirstKey => self.unlock_key(UnlockStage::SecondKey, KEY2),
                    UnlockStage::SecondKey => self.unlock_read(UnlockStage::Verify),
                    UnlockStage::Verify => {
                        if locked {
                            self.finish(Err(LinkError::FlashStillLocked))
                        } else {
                            self.finish(Ok(Reply::Done))
                        }
                    },
                }
            },
        }
    }
}

} // verus!
