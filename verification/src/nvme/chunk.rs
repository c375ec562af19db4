//! The commands that carry the chunks of a transfer.

use vstd::prelude::*;
use crate::cmd::{NvmeCommand, IO_READ, IO_WRITE};
use crate::memory::DmaChunk;
use crate::queues::BusWrite;

verus! {

/// Size in bytes of the logical blocks in which the I/O path counts.
pub const BLOCK_SIZE: u64 = 512;

/// Size in bytes of the memory page one data pointer covers.
pub const DATA_PAGE: u64 = 4096;

/// Most bytes one command of the plain I/O path transfers: what two data
/// pointers cover.
pub const IO_CHUNK: usize = 8192;

/// Most bytes one command of the page-list path transfers.
pub const LIST_CHUNK: usize = 0x8_0000;

/// Most logical blocks one command can transfer.
pub const MAX_BLOCKS: u64 = 0x1_0000;

/// Number of logical blocks that `len` bytes take up.
pub open spec fn blocks_for(len: int) -> int {
    (len + 511) / 512
}

/// Number of data pages that `len` bytes take up.
pub open spec fn pages_for(len: int) -> int {
    (len + 4095) / 4096
}

/// The second data pointer of a command that transfers `len` bytes at I/O
/// address `addr`: nothing for up to one page, the second page for up to two
/// pages, and beyond that the I/O address `list` of a list of the pages
/// after the first.
pub open spec fn second_pointer(addr: int, len: int, list: int) -> int {
    if len <= 4096 {
        0
    } else if len <= 8192 {
        addr + 4096
    } else {
        list
    }
}

/// The stores that fill the page list at host address `list` for a chunk,
/// from entry `first` of the list on: none for a chunk of up to two pages,
/// and else one per page after the first, entry `first + j` holding the I/O
/// address of page `j + 1` of the chunk.
pub open spec fn page_list(list: int, first: int, chunk: DmaChunk) -> Seq<BusWrite> {
    if chunk.len <= 8192 {
        Seq::empty()
    } else {
        Seq::new(
            (pages_for(chunk.len as int) - 1) as nat,
            |j: int|
                BusWrite::Pointer {
                    addr: (list + 8 * (first + j)) as usize,
                    page: (chunk.phys_addr + 4096 * (j + 1)) as u64,
                },
        )
    }
}

/// The identifier of the command that queue `qid` places in slot `tail`:
/// the queue in the upper five bits, the slot in the lower eleven.
pub open spec fn command_id(qid: u16, tail: int) -> u16 {
    (qid << 11) | (tail as u16)
}

/// The read or write command for one chunk of a transfer.
pub open spec fn chunk_command(
    c_id: u16,
    ns_id: u32,
    chunk: DmaChunk,
    lba: u64,
    write: bool,
    list: int,
) -> NvmeCommand {
    NvmeCommand::spec_io(
        if write {
            IO_WRITE
        } else {
            IO_READ
        },
        c_id,
        ns_id,
        lba,
        (blocks_for(chunk.len as int) - 1) as u16,
        chunk.phys_addr as u64,
        second_pointer(chunk.phys_addr as int, chunk.len as int, list) as u64,
    )
}

/// Whether a command moves up to one page, up to two pages or more does not
/// change when its length is rounded up to whole blocks.
pub proof fn lemma_second_pointer_blocks(addr: int, len: int, list: int)
    requires
        0 <= len,
    ensures
        second_pointer(addr, blocks_for(len) * 512, list) == second_pointer(addr, len, list),
{
}

/// A read and a write of the same chunk at the same block differ in nothing
/// but the opcode: what a write has stored in the blocks of a chunk, a read
/// of the chunk fetches from the same blocks into the same pages.
pub proof fn lemma_read_mirrors_write(
    c_id: u16,
    ns_id: u32,
    chunk: DmaChunk,
    lba: u64,
    list: int,
)
    ensures
        chunk_command(c_id, ns_id, chunk, lba, true, list) == (NvmeCommand {
            opcode: IO_WRITE,
            ..chunk_command(c_id, ns_id, chunk, lba, false, list)
        }),
        chunk_command(c_id, ns_id, chunk, lba, false, list).opcode == IO_READ,
{
}

/// The identifiers of two commands differ when their queues or their slots
/// differ, as long as the queue number fits five bits and the slot eleven.
pub proof fn lemma_command_id_unique(qid1: u16, tail1: int, qid2: u16, tail2: int)
    requires
        qid1 < 32,
        qid2 < 32,
        0 <= tail1 < 2048,
        0 <= tail2 < 2048,
    ensures
        command_id(qid1, tail1) == qid1 * 2048 + tail1,
        command_id(qid1, tail1) == command_id(qid2, tail2) ==> qid1 == qid2 && tail1 == tail2,
{
    let t1 = tail1 as u16;
    let t2 = tail2 as u16;
    assert((qid1 << 11) | t1 == qid1 * 2048 + t1) by (bit_vector)
        requires
            qid1 < 32,
            t1 < 2048,
    ;
    assert((qid2 << 11) | t2 == qid2 * 2048 + t2) by (bit_vector)
        requires
            qid2 < 32,
            t2 < 2048,
    ;
}

} // verus!
