//! Laws of the session: what holds of every read of target memory and of
//! every unlocking of the flash controller.

use vstd::prelude::*;
use crate::link::constants::commands::debug::{apiv2, DEBUG_COMMAND};
use crate::link::constants::flash::cr::LOCK;
use crate::link::constants::flash::register::CR;
use crate::link::util::{bytes_u32, spec_read_u32};
use super::flash::spec_next_access;
use super::step::{LinkError, ReplyView, ResponseView, StepView, TransferView};
use super::{LinkView, OpenStage, Task};

verus! {

/// One access of a memory operation.
pub struct Access {
    /// Whether the access goes by words.
    pub wide: bool,
    pub address: u32,
    pub len: usize,
}

/// The accesses that a request for `n` bytes at `address` is cut into, in
/// their order.
pub open spec fn accesses(address: u32, n: usize, burst: usize) -> Seq<Access>
    decreases n,
{
    if n == 0 || address + n > 0x1_0000_0000 || burst < 4 {
        Seq::empty()
    } else {
        let next = spec_next_access(address, n, burst);
        seq![Access { wide: next.0, address, len: next.1 }] + accesses(
            (address + next.1) as u32,
            (n - next.1) as usize,
            burst,
        )
    }
}

/// The number of bytes that a list of accesses covers.
pub open spec fn covered(list: Seq<Access>) -> int
    decreases list.len(),
{
    if list.len() == 0 {
        0
    } else {
        list[0].len + covered(list.drop_first())
    }
}

/// Whether each access of a list starts where the one before it ends, the
/// first one at `address`.
pub open spec fn contiguous(list: Seq<Access>, address: int) -> bool
    decreases list.len(),
{
    list.len() > 0 ==> list[0].address == address && contiguous(
        list.drop_first(),
        address + list[0].len,
    )
}

/// Whether an access is one that the probe takes: by words from a word
/// boundary, a whole number of words and no more than `burst` bytes; or by
/// bytes, less than a word.
pub open spec fn legal(access: Access, burst: usize) -> bool {
    access.len > 0 && if access.wide {
        access.address % 4 == 0 && access.len % 4 == 0 && access.len <= burst
    } else {
        access.len < 4
    }
}

/// A request that stays within the address space is cut into accesses
/// that the probe takes, that follow one another without a gap from the
/// address of the request on, and that cover as many bytes as the request
/// asks for.
pub proof fn lemma_accesses_cover(address: u32, n: usize, burst: usize)
    requires
        address + n <= 0x1_0000_0000,
        burst >= 4,
        burst % 4 == 0,
    ensures
        covered(accesses(address, n, burst)) == n,
        contiguous(accesses(address, n, burst), address as int),
        forall|i: int|
            0 <= i < accesses(address, n, burst).len() ==> legal(
                #[trigger] accesses(address, n, burst)[i],
                burst,
            ),
    decreases n,
{
    if n > 0 {
        let next = spec_next_access(address, n, burst);
        let rest = accesses((address + next.1) as u32, (n - next.1) as usize, burst);
        let all = accesses(address, n, burst);
        lemma_accesses_cover((address + next.1) as u32, (n - next.1) as usize, burst);
        assert(all.drop_first() =~= rest);
        if n - next.1 == 0 {
            assert(rest.len() == 0);
            assert(contiguous(rest, address + next.1));
        }
        assert forall|i: int| 0 <= i < all.len() implies legal(#[trigger] all[i], burst) by {
            if i > 0 {
                assert(all[i] == rest[i - 1]);
            }
        }
    }
}

/// The number of bytes that a read under way hands back if it goes on
/// without an error: those that it has gathered, those of the access that
/// is under way and those that follow it.
pub open spec fn owed(v: LinkView) -> int {
    match v.task {
        Task::Memory { write: false, chunk, remaining, polling, .. } => v.pending.len() + (if polling {
            0
        } else {
            chunk as int
        }) + remaining,
        _ => 0,
    }
}

/// A read of `n` bytes starts with `n` bytes owed; a read of nothing is
/// over at once.
pub proof fn lemma_read_starts_owing(v: LinkView, address: u32, n: usize)
    requires
        v.wf(),
        v.idle(),
        address + n <= 0x1_0000_0000,
    ensures
        n == 0 ==> v.read_mem(address, n).1 == StepView::Finished(
            Ok(ReplyView::Bytes(Seq::empty())),
        ),
        n > 0 ==> v.read_mem(address, n).1 is Transfer && owed(v.read_mem(address, n).0) == n,
{
}

/// A round trip that succeeds leaves what a read owes as it was, and the
/// read ends with exactly as many bytes as it owed. The bytes that an
/// access brought are appended to those that were gathered before it.
pub proof fn lemma_read_keeps_count(
    v: LinkView,
    cursor: u32,
    chunk: usize,
    remaining: usize,
    polling: bool,
    n: usize,
)
    requires
        v.wf(),
        v.task == (Task::Memory { write: false, cursor, chunk, remaining, polling }),
    ensures
        ({
            let next = v.memory_next(false, cursor, chunk, remaining, polling, Ok(n));
            let gathered = if polling {
                v.pending
            } else {
                v.pending + v.databuf.take(chunk as int)
            };
            match next.1 {
                StepView::Transfer(_) => owed(next.0) == owed(v) && next.0.pending == gathered,
                StepView::Finished(Ok(reply)) => reply == ReplyView::Bytes(gathered)
                    && gathered.len() == owed(v),
                StepView::Finished(Err(e)) => polling && e == LinkError::AccessFailed,
            }
        }),
{
}

/// A flash controller that shows no lock is left alone: the unlocking
/// reads the control register once, writes no key and succeeds.
pub proof fn lemma_unlock_of_unlocked_flash(v: LinkView, reply: Seq<u8>)
    requires
        v.wf(),
        v.idle(),
        v.open_stage == OpenStage::Off,
        v.version.stlink != 1,
        reply.len() == 8,
        spec_read_u32(reply, 4, true) & LOCK == 0,
    ensures
        ({
            let command = seq![DEBUG_COMMAND, apiv2::READDEBUGREG] + bytes_u32(CR, true);
            let first = v.unlock_flash();
            let second = first.0.resumed(ResponseView::Written(6));
            let third = second.0.resumed(ResponseView::Received(reply));
            &&& first.1 == StepView::Transfer(
                TransferView::Write { endpoint: v.tx, data: command },
            )
            &&& second.1 == StepView::Transfer(TransferView::Read { endpoint: v.rx, len: 8 })
            &&& third.1 == StepView::Finished(Ok(ReplyView::Done))
            &&& third.0.idle()
        }),
{
    let command = seq![DEBUG_COMMAND, apiv2::READDEBUGREG] + bytes_u32(CR, true);
    let first = v.unlock_flash();
    assert(command.len() == 6);
    assert(first.0.cmdbuf.take(6) =~= command);
    let second = first.0.resumed(ResponseView::Written(6));
    let third = second.0.resumed(ResponseView::Received(reply));
    assert(spec_read_u32(third.0.databuf, 4, true) == spec_read_u32(reply, 4, true));
}

} // verus!
