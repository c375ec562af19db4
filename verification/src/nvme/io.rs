//! Transfers through the default I/O queue, one command at a time.

use vstd::prelude::*;
use crate::cmd::{NvmeCommand, IO_READ, IO_WRITE};
use crate::error::Error;
use crate::memory::{DmaChunk, DmaChunks, DmaChunksView, DmaSlice, DmaView};
use crate::queues::BusWrite;
use super::chunk::{blocks_for, chunk_command, page_list, pages_for, second_pointer};
use super::chunk::{IO_CHUNK, LIST_CHUNK, MAX_BLOCKS};
use super::device::{NvmeDevice, NvmeDeviceView, NvmeStats};

verus! {

/// The count after one more event; it stays at the largest value once it
/// has got there.
pub open spec fn counted(n: u64) -> u64 {
    if n < u64::MAX {
        (n + 1) as u64
    } else {
        n
    }
}

fn count(n: u64) -> (next: u64)
    ensures
        next == counted(n),
{
    if n < u64::MAX {
        n + 1
    } else {
        n
    }
}

/// What a [`Transfer`] stands for.
pub struct TransferView {
    /// The memory of the transfer and how much of it has been submitted
    pub chunks: DmaChunksView,
    /// Block at which the next chunk starts
    pub lba: int,
    /// Whether memory is written to the namespace or read from it
    pub write: bool,
}

/// A transfer between namespace 1 and a region of memory that is carried
/// out chunk by chunk, one command at a time.
pub struct Transfer {
    chunks: DmaChunks,
    lba: u64,
    write: bool,
}

impl View for Transfer {
    type V = TransferView;

    closed spec fn view(&self) -> TransferView {
        TransferView { chunks: self.chunks@, lba: self.lba as int, write: self.write }
    }
}

impl NvmeDeviceView {
    /// The controller after `cmd` went into the default I/O queue and was
    /// announced.
    pub open spec fn after_io(self, cmd: NvmeCommand) -> NvmeDeviceView {
        NvmeDeviceView {
            io_sq: self.io_sq.submit(cmd).ring(),
            stats: NvmeStats { submissions: counted(self.stats.submissions), ..self.stats },
            ..self
        }
    }

    /// Whether `blocks` blocks of data at I/O address `addr` cannot be
    /// submitted as one command: they are more than 65536 or take up more
    /// than 513 pages, the data ends beyond the address space, or the queue
    /// is full.
    pub open spec fn refuses_blocks(self, blocks: u64, addr: u64) -> bool {
        ||| blocks > 0x1_0000
        ||| pages_for(blocks * 512) > 513
        ||| addr + blocks * 512 > usize::MAX
        ||| self.io_sq.is_full()
    }

    /// Whether the next chunk of `transfer` cannot be submitted: the queue
    /// is full, the chunk is empty or has more blocks than a command can
    /// carry or more pages than the page list can hold, or its blocks end
    /// beyond the last block address.
    pub open spec fn refuses(self, transfer: TransferView) -> bool {
        let chunk = transfer.chunks.next_chunk();
        ||| self.io_sq.is_full()
        ||| chunk.len == 0
        ||| blocks_for(chunk.len as int) > 0x1_0000
        ||| pages_for(chunk.len as int) > 513
        ||| transfer.lba + blocks_for(chunk.len as int) > u64::MAX
    }

    /// The controller after a read or write of `blocks` blocks, from block
    /// `lba` of namespace `ns_id` on, was submitted for the memory `chunk`:
    /// the page list is filled from entry `first` on where the chunk needs
    /// it, and then the command is in the default I/O queue and announced.
    pub open spec fn after_command(
        self,
        ns_id: u32,
        chunk: DmaChunk,
        blocks: int,
        lba: u64,
        write: bool,
        first: int,
    ) -> NvmeDeviceView {
        (NvmeDeviceView {
            writes: self.writes + page_list(self.prp_list.virt, first, chunk),
            ..self
        }).after_io(
            NvmeCommand::spec_io(
                if write {
                    IO_WRITE
                } else {
                    IO_READ
                },
                self.io_sq.tail as u16,
                ns_id,
                lba,
                (blocks - 1) as u16,
                chunk.phys_addr as u64,
                second_pointer(
                    chunk.phys_addr as int,
                    chunk.len as int,
                    self.prp_list.phys + 8 * first,
                ) as u64,
            ),
        )
    }

    /// The controller after the next chunk of `transfer` was submitted.
    pub open spec fn after_chunk(self, transfer: TransferView) -> NvmeDeviceView {
        let chunk = transfer.chunks.next_chunk();
        self.after_command(
            1,
            chunk,
            blocks_for(chunk.len as int),
            transfer.lba as u64,
            transfer.write,
            0,
        )
    }
}

impl TransferView {
    /// The transfer after its next chunk was submitted.
    pub open spec fn advance(self) -> TransferView {
        TransferView {
            chunks: self.chunks.advance(),
            lba: self.lba + blocks_for(self.chunks.next_chunk().len as int),
            ..self
        }
    }
}

impl NvmeDevice {
    /// Places a read or write of `blocks` blocks of 512 bytes, from block
    /// `lba` of namespace `ns_id` on, in the default I/O queue and announces
    /// it to the controller. The data lies at I/O address `addr` and on; for
    /// more than two pages of it, the page list is filled first. The command
    /// gets the slot it is placed in as its identifier.
    ///
    /// More than 65536 blocks, more pages than the page list holds, data
    /// that ends beyond the address space or a full queue are a
    /// configuration error and leave everything as it was.
    pub fn namespace_io(&mut self, ns_id: u32, blocks: u64, lba: u64, addr: u64, write: bool) -> (submitted:
        Result<(), Error>)
        requires
            blocks > 0,
        ensures
            match submitted {
                Ok(()) => {
                    &&& !old(self)@.refuses_blocks(blocks, addr)
                    &&& final(self)@ == old(self)@.after_command(
                        ns_id,
                        DmaChunk {
                            phys_addr: addr as usize,
                            virt_addr: 0,
                            len: (blocks * 512) as usize,
                        },
                        blocks as int,
                        lba,
                        write,
                        0,
                    )
                },
                Err(e) => {
                    &&& old(self)@.refuses_blocks(blocks, addr)
                    &&& final(self)@ == old(self)@
                    &&& e matches Error::Vroom(_)
                },
            },
    {
        if blocks > MAX_BLOCKS {
            return Err(Error::config("a command cannot carry more than 65536 blocks"));
        }
        let bytes: u64 = blocks * 512;
        if bytes > 513 * 4096 {
            return Err(Error::config("the data has more pages than the page list holds"));
        }
        if addr > usize::MAX as u64 || bytes > usize::MAX as u64 - addr {
            return Err(Error::config("the data ends beyond the address space"));
        }
        if self.io_sq.is_full() {
            return Err(Error::config("the I/O queue is full"));
        }
        let chunk = DmaChunk { phys_addr: addr as usize, virt_addr: 0, len: bytes as usize };
        self.submit_command(ns_id, chunk, blocks, lba, write, 0);
        Ok(())
    }

    /// Takes `step` completions of the default I/O queue at once, looking
    /// only at the last of them, announces the new head to the controller
    /// and takes note of how far the controller has read the submission
    /// queue. All `step` completions must be there.
    ///
    /// Returns that position, or `None` if the last command has failed.
    pub fn complete_io(&mut self, step: u64) -> (sq_head: Option<u16>)
        requires
            1 <= step <= old(self)@.io_cq.len,
            old(self)@.io_cq.skip(step - 1).ready(),
        ensures
            ({
                let at = old(self)@.io_cq.skip(step - 1);
                let entry = at.entries[at.head];
                &&& final(self)@ == (NvmeDeviceView {
                    io_cq: at.complete().ring(),
                    io_sq: old(self)@.io_sq.acknowledge(entry.sq_head),
                    stats: if entry.spec_status_field() == 0 {
                        NvmeStats {
                            completions: counted(old(self)@.stats.completions),
                            ..old(self)@.stats
                        }
                    } else {
                        old(self)@.stats
                    },
                    ..old(self)@
                })
                &&& sq_head == (if entry.spec_status_field() == 0 {
                    Some(entry.sq_head)
                } else {
                    None
                })
            }),
    {
        let _ = self.io_cq.len();
        let (_, c_entry, _) = self.io_cq.complete_n(step as usize);
        self.io_cq.ring();
        self.io_sq.acknowledge(c_entry.sq_head);
        if c_entry.status_field() != 0 {
            return None;
        }
        self.stats.completions = count(self.stats.completions);
        Some(c_entry.sq_head)
    }

    /// Starts writing the memory `data` to namespace 1 from block `lba` on,
    /// in chunks of at most 8 KiB.
    pub fn write<D: DmaSlice>(&self, data: &D, lba: u64) -> (transfer: Transfer)
        ensures
            transfer@ == (TransferView {
                chunks: DmaChunksView { dma: data.region(), offset: 0, chunk_size: 8192 },
                lba: lba as int,
                write: true,
            }),
    {
        Transfer { chunks: data.chunks(IO_CHUNK), lba, write: true }
    }

    /// Starts reading namespace 1 from block `lba` on into the memory
    /// `dest`, in chunks of at most 8 KiB.
    pub fn read<D: DmaSlice>(&self, dest: &D, lba: u64) -> (transfer: Transfer)
        ensures
            transfer@ == (TransferView {
                chunks: DmaChunksView { dma: dest.region(), offset: 0, chunk_size: 8192 },
                lba: lba as int,
                write: false,
            }),
    {
        Transfer { chunks: dest.chunks(IO_CHUNK), lba, write: false }
    }

    /// Starts a transfer between namespace 1, from block `lba` on, and the
    /// memory `data` in chunks of at most 512 KiB, each carried by one
    /// command with a list of its pages.
    pub fn write_prp<D: DmaSlice>(&self, data: &D, lba: u64, write: bool) -> (transfer: Transfer)
        ensures
            transfer@ == (TransferView {
                chunks: DmaChunksView { dma: data.region(), offset: 0, chunk_size: 0x8_0000 },
                lba: lba as int,
                write,
            }),
    {
        Transfer { chunks: data.chunks(LIST_CHUNK), lba, write }
    }

    /// Fills the page list for `chunk` from entry `first` on, places the
    /// command that transfers the chunk in the default I/O queue and
    /// announces it.
    pub(super) fn submit_command(
        &mut self,
        ns_id: u32,
        chunk: DmaChunk,
        blocks: u64,
        lba: u64,
        write: bool,
        first: usize,
    )
        requires
            !old(self)@.io_sq.is_full(),
            1 <= blocks <= 0x1_0000,
            chunk.phys_addr + chunk.len <= usize::MAX,
            chunk.len > 8192 ==> first + pages_for(chunk.len as int) - 1 <= 512,
        ensures
            final(self)@ == old(self)@.after_command(ns_id, chunk, blocks as int, lba, write, first as int),
    {
        let list = self.core.prp_list;
        proof {
            use_type_invariant(&self.core);
        }
        let ghost before = self@;
        let list_virt = list.virt();
        let list_phys = list.phys();
        if chunk.len > 8192 {
            let pages: usize = (chunk.len - 1) / 4096 + 1;
            let mut j: usize = 0;
            while j < pages - 1
                invariant
                    pages == pages_for(chunk.len as int),
                    2 < pages,
                    first + pages - 1 <= 512,
                    j <= pages - 1,
                    chunk.phys_addr + chunk.len <= usize::MAX,
                    list@.fits(),
                    list@.size >= 4096,
                    list@ == before.prp_list,
                    list_virt == list@.virt,
                    self@ == (NvmeDeviceView {
                        writes: before.writes + page_list(list@.virt, first as int, chunk).take(
                            j as int,
                        ),
                        ..before
                    }),
                decreases pages - 1 - j,
            {
                let write = BusWrite::Pointer {
                    addr: list_virt + 8 * (first + j),
                    page: (chunk.phys_addr + 4096 * (j + 1)) as u64,
                };
                self.writes.push(write);
                assert(before.writes + page_list(list@.virt, first as int, chunk).take(j + 1)
                    =~= (before.writes + page_list(list@.virt, first as int, chunk).take(
                    j as int,
                )).push(write));
                j = j + 1;
            }
            assert(page_list(list@.virt, first as int, chunk).take(j as int) =~= page_list(
                list@.virt,
                first as int,
                chunk,
            ));
        } else {
            assert(before.writes + page_list(list@.virt, first as int, chunk) =~= before.writes);
        }
        let addr: u64 = chunk.phys_addr as u64;
        let ptr1: u64 = if chunk.len <= 4096 {
            0
        } else if chunk.len <= 8192 {
            addr + 4096
        } else {
            (list_phys + 8 * first) as u64
        };
        let tail = self.io_sq.tail();
        let entry = if write {
            NvmeCommand::io_write(tail as u16, ns_id, lba, (blocks - 1) as u16, addr, ptr1)
        } else {
            NvmeCommand::io_read(tail as u16, ns_id, lba, (blocks - 1) as u16, addr, ptr1)
        };
        let _ = self.io_sq.submit(entry);
        self.io_sq.ring();
        self.stats.submissions = count(self.stats.submissions);
    }

    /// Submits the next chunk of `transfer` as one command for namespace 1
    /// in the default I/O queue: fills the page list if the chunk has more
    /// than two pages, places the command and announces it. The completion
    /// is to be taken with [`Self::complete_io`] before the next chunk is
    /// submitted.
    ///
    /// Returns whether a chunk was submitted; `false` means the transfer is
    /// through. A chunk that cannot be submitted is a configuration error
    /// and leaves everything as it was.
    pub fn next_io(&mut self, transfer: &mut Transfer) -> (more: Result<bool, Error>)
        ensures
            match more {
                Ok(true) => {
                    &&& !old(transfer)@.chunks.done()
                    &&& !old(self)@.refuses(old(transfer)@)
                    &&& final(self)@ == old(self)@.after_chunk(old(transfer)@)
                    &&& final(transfer)@ == old(transfer)@.advance()
                },
                Ok(false) => {
                    &&& old(transfer)@.chunks.done()
                    &&& final(self)@ == old(self)@
                    &&& final(transfer)@ == old(transfer)@
                },
                Err(e) => {
                    &&& !old(transfer)@.chunks.done()
                    &&& old(self)@.refuses(old(transfer)@)
                    &&& final(self)@ == old(self)@
                    &&& final(transfer)@ == old(transfer)@
                    &&& e matches Error::Vroom(_)
                },
            },
    {
        let chunk = match transfer.chunks.peek() {
            Some(chunk) => chunk,
            None => {
                return Ok(false);
            },
        };
        if self.io_sq.is_full() {
            return Err(Error::config("the I/O queue is full"));
        }
        if chunk.len == 0 || chunk.len > 513 * 4096 {
            return Err(Error::config("a chunk must have between 1 and 513 pages"));
        }
        let blocks: u64 = (chunk.len as u64 + 511) / 512;
        if blocks > u64::MAX - transfer.lba {
            return Err(Error::config("the transfer ends beyond the last block address"));
        }
        self.submit_command(1, chunk, blocks, transfer.lba, transfer.write, 0);
        let _ = transfer.chunks.next();
        transfer.lba = transfer.lba + blocks;
        Ok(true)
    }
}

/// A read takes the same course as a write of the same memory from the same
/// block on: chunk by chunk, the two transfers name the same blocks and the
/// same pages, fill the page list alike, and move on alike. Their commands
/// differ in the opcode only.
pub proof fn lemma_transfer_read_mirrors_write(dev: NvmeDeviceView, transfer: TransferView)
    ensures
        ({
            let write = TransferView { write: true, ..transfer };
            let read = TransferView { write: false, ..transfer };
            let chunk = transfer.chunks.next_chunk();
            let written = chunk_command(
                dev.io_sq.tail as u16,
                1,
                chunk,
                transfer.lba as u64,
                true,
                dev.prp_list.phys,
            );
            &&& dev.refuses(write) == dev.refuses(read)
            &&& write.advance() == (TransferView { write: true, ..read.advance() })
            &&& dev.after_chunk(write) == (NvmeDeviceView {
                writes: dev.writes + page_list(dev.prp_list.virt, 0, chunk),
                ..dev
            }).after_io(written)
            &&& dev.after_chunk(read) == (NvmeDeviceView {
                writes: dev.writes + page_list(dev.prp_list.virt, 0, chunk),
                ..dev
            }).after_io(NvmeCommand { opcode: IO_READ, ..written })
        }),
{
}

/// A command for more than two pages of data names the first page as its
/// first pointer and the page list as its second, and before it is placed
/// the page list is filled: entry `i`, counted from the entry the list
/// starts at, gets the I/O address of page `i + 1` of the data. A command
/// for up to two pages stores nothing into the page list.
pub proof fn lemma_command_pages(
    dev: NvmeDeviceView,
    ns_id: u32,
    chunk: DmaChunk,
    blocks: int,
    lba: u64,
    write: bool,
    first: int,
)
    requires
        dev.io_sq.wf(),
        dev.prp_list.fits(),
        dev.prp_list.size >= 4096,
        0 <= first,
        chunk.len > 8192 ==> first + pages_for(chunk.len as int) - 1 <= 512,
        chunk.phys_addr + chunk.len <= usize::MAX,
        1 <= blocks <= 0x1_0000,
    ensures
        ({
            let after = dev.after_command(ns_id, chunk, blocks, lba, write, first);
            let list = page_list(dev.prp_list.virt, first, chunk);
            let stored = after.io_sq.writes[dev.io_sq.writes.len() as int];
            &&& after.writes == dev.writes + list
            &&& after.io_sq.writes.len() == dev.io_sq.writes.len() + 2
            &&& stored matches BusWrite::Command { addr, command } && {
                &&& addr == dev.io_sq.slot_addr(dev.io_sq.tail) as usize
                &&& command.opcode == (if write {
                    IO_WRITE
                } else {
                    IO_READ
                })
                &&& command.c_id == dev.io_sq.tail as u16
                &&& command.ns_id == ns_id
                &&& command.prp1 == chunk.phys_addr
                &&& chunk.len <= 4096 ==> command.prp2 == 0
                &&& 4096 < chunk.len <= 8192 ==> command.prp2 == chunk.phys_addr + 4096
                &&& chunk.len > 8192 ==> command.prp2 == dev.prp_list.phys + 8 * first
                &&& command.cdw10 == lba % 0x1_0000_0000
                &&& command.cdw11 == lba / 0x1_0000_0000
                &&& command.cdw12 == (blocks - 1) as u16
            }
            &&& chunk.len <= 8192 ==> list.len() == 0 && after.writes == dev.writes
            &&& chunk.len > 8192 ==> {
                &&& list.len() == pages_for(chunk.len as int) - 1
                &&& forall|i: int|
                    0 <= i < list.len() ==> #[trigger] list[i] == (BusWrite::Pointer {
                        addr: (dev.prp_list.virt + 8 * (first + i)) as usize,
                        page: (chunk.phys_addr + 4096 * (i + 1)) as u64,
                    })
            }
        }),
{
    let list = page_list(dev.prp_list.virt, first, chunk);
    if chunk.len <= 8192 {
        assert(dev.writes + list =~= dev.writes);
    }
}

/// A transfer of memory that fits one chunk is one command: when
/// the queue has room and the blocks lie below the last block address, the
/// first step submits the command for the whole memory, and the transfer is
/// through after it.
///
/// Of the plain transfers that is so for up to 8 KiB: 4 KiB go as 8 blocks
/// with the first pointer alone, 8 KiB as 16 blocks with the second page as
/// second pointer, and neither stores into the page list. Of the transfers
/// with a page list it is so for up to 512 KiB: 64 KiB go as 128 blocks
/// with the page list as second pointer, after fifteen stores into the
/// list, the last of which is the address of the page 60 KiB into the
/// memory.
pub proof fn lemma_transfer_of_one_chunk(
    dev: NvmeDeviceView,
    data: DmaView,
    lba: u64,
    write: bool,
    chunk_size: int,
)
    requires
        dev.io_sq.wf(),
        !dev.io_sq.is_full(),
        dev.prp_list.fits(),
        data.fits(),
        chunk_size == 8192 || chunk_size == 0x8_0000,
        0 < data.size <= chunk_size,
        lba + blocks_for(data.size) <= u64::MAX,
    ensures
        ({
            let transfer = TransferView {
                chunks: DmaChunksView { dma: data, offset: 0, chunk_size },
                lba: lba as int,
                write,
            };
            let chunk = DmaChunk {
                phys_addr: data.phys as usize,
                virt_addr: data.virt as usize,
                len: data.size as usize,
            };
            let list = page_list(dev.prp_list.virt, 0, chunk);
            let cmd = NvmeCommand::spec_io(
                if write {
                    IO_WRITE
                } else {
                    IO_READ
                },
                dev.io_sq.tail as u16,
                1,
                lba,
                (blocks_for(data.size) - 1) as u16,
                data.phys as u64,
                second_pointer(data.phys, data.size, dev.prp_list.phys) as u64,
            );
            let after = dev.after_chunk(transfer);
            &&& !transfer.chunks.done()
            &&& !dev.refuses(transfer)
            &&& after == (NvmeDeviceView {
                writes: dev.writes + list,
                io_sq: dev.io_sq.submit(cmd).ring(),
                stats: NvmeStats { submissions: counted(dev.stats.submissions), ..dev.stats },
                ..dev
            })
            &&& after.io_sq.tail == (dev.io_sq.tail + 1) % dev.io_sq.len
            &&& transfer.advance().chunks.done()
            &&& transfer.advance().lba == lba + blocks_for(data.size)
            &&& data.size == 4096 ==> {
                &&& cmd.prp1 == data.phys
                &&& cmd.prp2 == 0
                &&& cmd.cdw12 == 7
                &&& after.writes == dev.writes
            }
            &&& data.size == 8192 ==> {
                &&& cmd.prp1 == data.phys
                &&& cmd.prp2 == data.phys + 4096
                &&& cmd.cdw12 == 15
                &&& after.writes == dev.writes
            }
            &&& data.size == 0x1_0000 ==> {
                &&& cmd.prp1 == data.phys
                &&& cmd.prp2 == dev.prp_list.phys
                &&& cmd.cdw12 == 127
                &&& list.len() == 15
                &&& forall|i: int|
                    0 <= i < 15 ==> #[trigger] list[i] == (BusWrite::Pointer {
                        addr: (dev.prp_list.virt + 8 * i) as usize,
                        page: (data.phys + 4096 * (i + 1)) as u64,
                    })
                &&& list[14] == (BusWrite::Pointer {
                    addr: (dev.prp_list.virt + 112) as usize,
                    page: (data.phys + 61440) as u64,
                })
            }
        }),
{
    let transfer = TransferView {
        chunks: DmaChunksView { dma: data, offset: 0, chunk_size },
        lba: lba as int,
        write,
    };
    let chunk = transfer.chunks.next_chunk();
    assert(transfer.chunks.next_len() == data.size);
    let list = page_list(dev.prp_list.virt, 0, chunk);
    if data.size <= 8192 {
        assert(dev.writes + list =~= dev.writes);
    }
    let cmd = NvmeCommand::spec_io(
        if write {
            IO_WRITE
        } else {
            IO_READ
        },
        dev.io_sq.tail as u16,
        1,
        lba,
        (blocks_for(data.size) - 1) as u16,
        data.phys as u64,
        second_pointer(data.phys, data.size, dev.prp_list.phys) as u64,
    );
    crate::queues::lemma_submit(dev.io_sq, cmd);
}

} // verus!
