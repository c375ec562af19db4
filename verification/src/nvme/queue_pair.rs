//! Queue pairs that are driven on their own, without waiting.

use vstd::prelude::*;
use crate::cmd::{NvmeCommand, IO_READ, IO_WRITE};
use crate::error::Error;
use crate::memory::{DmaChunk, DmaChunksView, DmaSlice, DmaView};
use crate::queues::{BusWrite, CompletionQueue, SubmissionQueue, SubmissionQueueView};
use super::chunk::{blocks_for, chunk_command, command_id, IO_CHUNK};

verus! {

/// A submission queue and the completion queue that answers it.
pub struct NvmeQueuePair {
    /// Identifier shared by both queues
    pub id: u16,
    pub sub_queue: SubmissionQueue,
    pub comp_queue: CompletionQueue,
}

/// What becomes of a submission queue when the chunks of a transfer are
/// submitted one by one, each announced to the controller as soon as it is in
/// the ring, until the transfer or the room in the ring runs out; and how
/// many chunks that were.
pub open spec fn submit_chunks(
    qid: u16,
    queue: SubmissionQueueView,
    chunks: DmaChunksView,
    lba: int,
    write: bool,
) -> (SubmissionQueueView, int)
    decreases chunks.dma.size - chunks.offset,
{
    if chunks.done() || chunks.chunk_size <= 0 || queue.is_full() {
        (queue, 0)
    } else {
        let chunk = chunks.next_chunk();
        let entry = chunk_command(command_id(qid, queue.tail), 1, chunk, lba as u64, write, 0);
        let rest = submit_chunks(
            qid,
            queue.submit(entry).ring(),
            chunks.advance(),
            lba + blocks_for(chunk.len as int),
            write,
        );
        (rest.0, rest.1 + 1)
    }
}

impl NvmeQueuePair {
    /// Submits a transfer between the namespace, from block `lba` on, and
    /// the memory `data`, cut into commands of at most 8 KiB. Never waits:
    /// when the ring is full the rest of the transfer is left out.
    ///
    /// Returns the number of commands submitted.
    pub fn submit_io<D: DmaSlice>(&mut self, data: &D, lba: u64, write: bool) -> (reqs: usize)
        requires
            lba + blocks_for(data.region().size) <= u64::MAX,
        ensures
            final(self).id == old(self).id,
            final(self).comp_queue@ == old(self).comp_queue@,
            final(self).sub_queue@.wf(),
            (final(self).sub_queue@, reqs as int) == submit_chunks(
                old(self).id,
                old(self).sub_queue@,
                DmaChunksView { dma: data.region(), offset: 0, chunk_size: 8192 },
                lba as int,
                write,
            ),
    {
        let mut chunks = data.chunks(IO_CHUNK);
        let mut reqs: usize = 0;
        let mut next_lba: u64 = lba;
        let ghost whole = submit_chunks(self.id, self.sub_queue@, chunks@, lba as int, write);
        loop
            invariant
                self.id == old(self).id,
                self.comp_queue@ == old(self).comp_queue@,
                chunks@.chunk_size == 8192,
                chunks@.dma.fits(),
                0 <= chunks@.offset <= chunks@.dma.size,
                reqs <= chunks@.offset,
                next_lba + blocks_for(chunks@.dma.size - chunks@.offset) <= u64::MAX,
                whole == submit_chunks(
                    old(self).id,
                    old(self).sub_queue@,
                    DmaChunksView { dma: data.region(), offset: 0, chunk_size: 8192 },
                    lba as int,
                    write,
                ),
                whole.0 == submit_chunks(
                    self.id,
                    self.sub_queue@,
                    chunks@,
                    next_lba as int,
                    write,
                ).0,
                whole.1 == submit_chunks(
                    self.id,
                    self.sub_queue@,
                    chunks@,
                    next_lba as int,
                    write,
                ).1 + reqs,
            decreases chunks@.dma.size - chunks@.offset,
        {
            let ghost before = chunks@;
            let tail = self.sub_queue.tail();
            let chunk = match chunks.next() {
                Some(chunk) => chunk,
                None => {
                    return reqs;
                },
            };
            let blocks: u64 = (chunk.len as u64 + 511) / 512;
            let addr: u64 = chunk.phys_addr as u64;
            let bytes: u64 = blocks * 512;
            let ptr1: u64 = if bytes <= 4096 {
                0
            } else {
                addr + 4096
            };
            let c_id: u16 = self.id << 11 | tail as u16;
            let entry = if write {
                NvmeCommand::io_write(c_id, 1, next_lba, (blocks - 1) as u16, addr, ptr1)
            } else {
                NvmeCommand::io_read(c_id, 1, next_lba, (blocks - 1) as u16, addr, ptr1)
            };
            assert(entry == chunk_command(
                command_id(self.id, tail as int),
                1,
                before.next_chunk(),
                next_lba,
                write,
                0,
            ));
            match self.sub_queue.submit_checked(entry) {
                Some(_) => {
                    self.sub_queue.ring();
                },
                None => {
                    return reqs;
                },
            }
            next_lba = next_lba + blocks;
            reqs = reqs + 1;
        }
    }

    /// Whether `n` completions can be taken at once.
    pub fn is_ready_for(&self, n: usize) -> (ready: bool)
        ensures
            ready == (1 <= n <= self.comp_queue@.len && self.comp_queue@.skip(n - 1).ready()),
    {
        self.comp_queue.is_ready_for(n)
    }

    /// Takes `n` completions at once, looking only at the last of them,
    /// announces the new head to the controller and takes note of how far
    /// the controller has read the submission queue.
    ///
    /// Returns that position, or `None` if the last command has failed.
    pub fn complete_io(&mut self, n: usize) -> (sq_head: Option<u16>)
        requires
            1 <= n <= old(self).comp_queue@.len,
            old(self).comp_queue@.skip(n - 1).ready(),
        ensures
            final(self).id == old(self).id,
            final(self).comp_queue@ == old(self).comp_queue@.skip(n - 1).complete().ring(),
            final(self).sub_queue@ == old(self).sub_queue@.acknowledge(
                old(self).comp_queue@.skip(n - 1).entries[old(self).comp_queue@.skip(n - 1).head].sq_head,
            ),
            sq_head == ({
                let entry = old(self).comp_queue@.skip(n - 1).entries[old(self).comp_queue@.skip(
                    n - 1,
                ).head];
                if entry.spec_status_field() == 0 {
                    Some(entry.sq_head)
                } else {
                    None
                }
            }),
    {
        let (_, c_entry, _) = self.comp_queue.complete_n(n);
        self.comp_queue.ring();
        self.sub_queue.acknowledge(c_entry.sq_head);
        if c_entry.status_field() != 0 {
            return None;
        }
        Some(c_entry.sq_head)
    }

    /// Takes one completion if one is there, announces the new head to the
    /// controller and takes note of how far the controller has read the
    /// submission queue. Never waits. A command that failed counts as
    /// completed all the same; the result only says that something completed.
    pub fn quick_poll(&mut self) -> (done: Option<()>)
        ensures
            final(self).id == old(self).id,
            done is Some == old(self).comp_queue@.ready(),
            old(self).comp_queue@.ready() ==> {
                &&& final(self).comp_queue@ == old(self).comp_queue@.complete().ring()
                &&& final(self).sub_queue@ == old(self).sub_queue@.acknowledge(
                    old(self).comp_queue@.entries[old(self).comp_queue@.head].sq_head,
                )
            },
            !old(self).comp_queue@.ready() ==> {
                &&& final(self).comp_queue@ == old(self).comp_queue@
                &&& final(self).sub_queue@ == old(self).sub_queue@
            },
    {
        match self.comp_queue.complete() {
            Some((_, c_entry, _)) => {
                self.comp_queue.ring();
                self.sub_queue.acknowledge(c_entry.sq_head);
                Some(())
            },
            None => None,
        }
    }

    /// Like [`Self::quick_poll`], but reports a command that failed as an
    /// error. The completion is taken either way.
    pub fn quick_poll_result(&mut self) -> (done: Result<Option<()>, Error>)
        ensures
            final(self).id == old(self).id,
            old(self).comp_queue@.ready() ==> {
                &&& final(self).comp_queue@ == old(self).comp_queue@.complete().ring()
                &&& final(self).sub_queue@ == old(self).sub_queue@.acknowledge(
                    old(self).comp_queue@.entries[old(self).comp_queue@.head].sq_head,
                )
            },
            !old(self).comp_queue@.ready() ==> {
                &&& final(self).comp_queue@ == old(self).comp_queue@
                &&& final(self).sub_queue@ == old(self).sub_queue@
            },
            done == ({
                let entry = old(self).comp_queue@.entries[old(self).comp_queue@.head];
                if !old(self).comp_queue@.ready() {
                    Ok(None)
                } else if entry.spec_status_field() == 0 {
                    Ok(Some(()))
                } else {
                    Err(
                        Error::Device {
                            status_code: entry.spec_status_code() as u8,
                            status_code_type: entry.spec_status_code_type() as u8,
                        },
                    )
                }
            }),
    {
        match self.comp_queue.complete() {
            Some((_, c_entry, _)) => {
                self.comp_queue.ring();
                self.sub_queue.acknowledge(c_entry.sq_head);
                match c_entry.error() {
                    Some(error) => Err(error),
                    None => Ok(Some(())),
                }
            },
            None => Ok(None),
        }
    }
}

/// Submitting a transfer in chunks of 8 KiB submits as many chunks as the
/// transfer has or as the queue has room for, whichever is less, and moves
/// the tail on by that many slots.
pub proof fn lemma_submit_chunks_count(
    qid: u16,
    queue: SubmissionQueueView,
    chunks: DmaChunksView,
    lba: int,
    write: bool,
)
    requires
        queue.wf(),
        chunks.chunk_size == 8192,
        0 <= chunks.offset <= chunks.dma.size,
    ensures
        ({
            let done = submit_chunks(qid, queue, chunks, lba, write);
            &&& done.0.wf()
            &&& done.1 == (if chunks.remaining() <= queue.free() {
                chunks.remaining()
            } else {
                queue.free()
            })
            &&& done.0.tail == (queue.tail + done.1) % queue.len
            &&& done.0.head == queue.head
            &&& done.0.writes.len() == queue.writes.len() + 2 * done.1
        }),
    decreases chunks.dma.size - chunks.offset,
{
    let len = queue.len;
    let entry = chunk_command(
        command_id(qid, queue.tail),
        1,
        chunks.next_chunk(),
        lba as u64,
        write,
        0,
    );
    crate::queues::lemma_submit(queue, entry);
    if chunks.done() || queue.is_full() {
        vstd::arithmetic::div_mod::lemma_fundamental_div_mod_converse(
            queue.tail,
            len,
            0,
            queue.tail,
        );
    } else {
        let next = queue.submit(entry).ring();
        lemma_submit_chunks_count(
            qid,
            next,
            chunks.advance(),
            lba + blocks_for(chunks.next_chunk().len as int),
            write,
        );
        let rest = submit_chunks(
            qid,
            next,
            chunks.advance(),
            lba + blocks_for(chunks.next_chunk().len as int),
            write,
        );
        assert(next.free() == queue.free() - 1);
        assert(chunks.advance().remaining() == chunks.remaining() - 1);
        let t1 = (queue.tail + 1) % len;
        assert(rest.0.tail == (t1 + rest.1) % len);
        if queue.tail + 1 < len {
            vstd::arithmetic::div_mod::lemma_fundamental_div_mod_converse(
                queue.tail + 1,
                len,
                0,
                queue.tail + 1,
            );
        } else {
            vstd::arithmetic::div_mod::lemma_fundamental_div_mod_converse(queue.tail + 1, len, 1, 0);
            vstd::arithmetic::div_mod::lemma_mod_add_multiples_vanish(rest.1, len);
        }
    }
}

/// A transfer of up to 8 KiB on a queue pair is one command. If the queue
/// is full nothing happens and the count is 0. Else the count is 1, the
/// command for the whole memory goes into the slot at the old tail with
/// queue and slot as its identifier, the tail moves on by one slot, and the
/// store of the command is followed by the store of the new tail into the
/// doorbell.
///
/// The command names the first page as its first pointer. For up to 4 KiB
/// it has no second pointer; beyond that the second pointer is the second
/// page. Its block count field is the number of blocks less one: 0 for 512
/// bytes, 7 for 4 KiB, 15 for 8 KiB.
pub proof fn lemma_submit_one_chunk(
    qid: u16,
    queue: SubmissionQueueView,
    data: DmaView,
    lba: u64,
    write: bool,
)
    requires
        queue.wf(),
        data.fits(),
        0 < data.size <= 8192,
    ensures
        ({
            let chunks = DmaChunksView { dma: data, offset: 0, chunk_size: 8192 };
            let done = submit_chunks(qid, queue, chunks, lba as int, write);
            let cmd = chunk_command(
                command_id(qid, queue.tail),
                1,
                DmaChunk {
                    phys_addr: data.phys as usize,
                    virt_addr: data.virt as usize,
                    len: data.size as usize,
                },
                lba,
                write,
                0,
            );
            let next = (queue.tail + 1) % queue.len;
            &&& queue.is_full() ==> done == (queue, 0int)
            &&& !queue.is_full() ==> {
                &&& done.1 == 1
                &&& done.0 == queue.submit(cmd).ring()
                &&& done.0.tail == next
                &&& done.0.head == queue.head
                &&& done.0.writes == queue.writes.push(
                    BusWrite::Command { addr: queue.slot_addr(queue.tail) as usize, command: cmd },
                ).push(BusWrite::Doorbell { addr: queue.doorbell, value: next as u32 })
            }
            &&& cmd.opcode == (if write {
                IO_WRITE
            } else {
                IO_READ
            })
            &&& cmd.c_id == command_id(qid, queue.tail)
            &&& cmd.ns_id == 1
            &&& cmd.prp1 == data.phys
            &&& cmd.prp2 == (if data.size <= 4096 {
                0
            } else {
                data.phys + 4096
            })
            &&& cmd.cdw12 == (data.size + 511) / 512 - 1
            &&& cmd.cdw10 == lba % 0x1_0000_0000
            &&& cmd.cdw11 == lba / 0x1_0000_0000
        }),
{
    reveal_with_fuel(submit_chunks, 3);
    let chunks = DmaChunksView { dma: data, offset: 0, chunk_size: 8192 };
    assert(chunks.next_len() == data.size);
    assert(chunks.advance().done());
}

/// A ring of 64 slots whose head is at slot 0 takes 63 commands of up to
/// 8 KiB one after the other: with the tail at slot `k` below 63 the next
/// one is submitted and the doorbell gets `k + 1`. With the tail at slot 63
/// the ring is full: nothing is submitted and nothing is stored. Once the
/// controller reports that it has read up to slot 1, the next command is
/// submitted, the tail wraps to slot 0 and the doorbell gets 0.
pub proof fn lemma_ring_of_64(
    qid: u16,
    queue: SubmissionQueueView,
    data: DmaView,
    lba: u64,
    write: bool,
)
    requires
        queue.wf(),
        queue.len == 64,
        queue.head == 0,
        data.fits(),
        0 < data.size <= 8192,
    ensures
        ({
            let chunks = DmaChunksView { dma: data, offset: 0, chunk_size: 8192 };
            let done = submit_chunks(qid, queue, chunks, lba as int, write);
            let later = submit_chunks(qid, queue.acknowledge(1), chunks, lba as int, write);
            &&& queue.tail < 63 ==> {
                &&& done.1 == 1
                &&& done.0.tail == queue.tail + 1
                &&& done.0.writes.len() == queue.writes.len() + 2
                &&& done.0.writes.last() == (BusWrite::Doorbell {
                    addr: queue.doorbell,
                    value: (queue.tail + 1) as u32,
                })
            }
            &&& queue.tail == 63 ==> {
                &&& done.1 == 0
                &&& done.0 == queue
                &&& later.1 == 1
                &&& later.0.head == 1
                &&& later.0.tail == 0
                &&& later.0.writes.last() == (BusWrite::Doorbell { addr: queue.doorbell, value: 0 })
            }
        }),
{
    lemma_submit_one_chunk(qid, queue, data, lba, write);
    lemma_submit_one_chunk(qid, queue.acknowledge(1), data, lba, write);
}

} // verus!
