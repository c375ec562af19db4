//! Transfers that go through the buffer of the controller.

use vstd::prelude::*;
use crate::cmd::{NvmeCommand, IO_READ, IO_WRITE};
use crate::error::Error;
use crate::memory::DmaChunk;
use super::chunk::{pages_for, MAX_BLOCKS};
use super::device::{NvmeDevice, NvmeDeviceView};

verus! {

broadcast use vstd::std_specs::hash::group_hash_axioms;

/// Most bytes that go through the buffer of the controller at once when data
/// is copied command by command.
pub const COPY_PIECE: usize = 0x8_0000;

/// Most bytes that go through the buffer of the controller at once when data
/// is transferred in batches of commands.
pub const BATCH_PIECE: usize = 0x20_0000;

/// How a piece of a staged transfer is carried: by `commands` commands of
/// `bytes` bytes and `blocks` blocks each.
#[derive(Copy, Clone, Debug, PartialEq, Eq, Structural)]
pub struct BatchPlan {
    pub commands: u64,
    pub bytes: u64,
    pub blocks: u64,
}

/// How a piece of `len` bytes is carried when a block has `block_size`
/// bytes.
///
/// Without a batch length one command carries the piece, with as many blocks
/// as the piece touches. With a batch length the piece is split evenly over
/// that many commands, though over no more than it has blocks of 512 bytes;
/// each command carries the blocks that its share holds in full. There is no
/// plan for an empty piece, for blocks without bytes, or for a batch without
/// commands.
pub open spec fn spec_batch_plan(len: int, batch_len: Option<u64>, block_size: u64) -> Option<
    BatchPlan,
> {
    if block_size == 0 || len <= 0 {
        None
    } else {
        match batch_len {
            None => Some(
                BatchPlan {
                    commands: 1,
                    bytes: len as u64,
                    blocks: ((len - 1) / (block_size as int) + 1) as u64,
                },
            ),
            Some(b) => {
                let commands = if b as int <= len / 512 {
                    b as int
                } else {
                    len / 512
                };
                if commands == 0 {
                    None
                } else {
                    Some(
                        BatchPlan {
                            commands: commands as u64,
                            bytes: (len / commands) as u64,
                            blocks: ((len / commands) / (block_size as int)) as u64,
                        },
                    )
                }
            },
        }
    }
}

/// How a piece of `len` bytes is carried when a block has `block_size`
/// bytes.
pub fn batch_plan(len: usize, batch_len: Option<u64>, block_size: u64) -> (plan: Option<BatchPlan>)
    ensures
        plan == spec_batch_plan(len as int, batch_len, block_size),
{
    if block_size == 0 || len == 0 {
        return None;
    }
    let len = len as u64;
    match batch_len {
        None => Some(BatchPlan { commands: 1, bytes: len, blocks: (len - 1) / block_size + 1 }),
        Some(b) => {
            let commands: u64 = if b <= len / 512 {
                b
            } else {
                len / 512
            };
            if commands == 0 {
                return None;
            }
            let bytes = len / commands;
            Some(BatchPlan { commands, bytes, blocks: bytes / block_size })
        },
    }
}

/// What a [`Staged`] stands for.
pub struct StagedView {
    /// Number of bytes of the whole transfer
    pub total: int,
    /// Number of bytes that have been staged
    pub offset: int,
    /// Block at which the next piece starts
    pub lba: int,
    pub ns_id: u32,
    /// Size in bytes of a block of the namespace
    pub block_size: u64,
    pub write: bool,
    /// Most bytes of a piece
    pub piece: int,
    /// Number of commands a piece is split over, if it is split
    pub batch_len: Option<u64>,
}

impl StagedView {
    /// Length of the next piece: a full piece, or what is left.
    pub open spec fn piece_len(self) -> int {
        if self.piece <= self.total - self.offset {
            self.piece
        } else {
            self.total - self.offset
        }
    }

    pub open spec fn done(self) -> bool {
        self.offset >= self.total
    }

    /// How the next piece is carried.
    pub open spec fn plan(self) -> Option<BatchPlan> {
        spec_batch_plan(self.piece_len(), self.batch_len, self.block_size)
    }

    /// The transfer after its next piece was submitted.
    pub open spec fn advance(self) -> StagedView {
        StagedView {
            offset: self.offset + self.piece_len(),
            lba: self.lba + self.plan()->0.commands * self.plan()->0.blocks,
            ..self
        }
    }
}

/// A transfer between a namespace and memory of the caller that goes
/// through the buffer of the controller, piece by piece: the caller copies a
/// piece into the buffer before it is written, and out of the buffer after
/// it was read.
pub struct Staged {
    total: usize,
    offset: usize,
    lba: u64,
    ns_id: u32,
    block_size: u64,
    write: bool,
    piece: usize,
    batch_len: Option<u64>,
}

impl View for Staged {
    type V = StagedView;

    closed spec fn view(&self) -> StagedView {
        StagedView {
            total: self.total as int,
            offset: self.offset as int,
            lba: self.lba as int,
            ns_id: self.ns_id,
            block_size: self.block_size,
            write: self.write,
            piece: self.piece as int,
            batch_len: self.batch_len,
        }
    }
}

/// A piece of a staged transfer whose commands were submitted.
#[derive(Copy, Clone, Debug, PartialEq, Eq, Structural)]
pub struct Piece {
    /// Where the piece starts in the memory of the caller
    pub offset: usize,
    /// Length of the piece in bytes; it lies at the start of the buffer
    pub len: usize,
    /// Number of commands that carry the piece, and of completions to take
    pub commands: u64,
}

impl NvmeDeviceView {
    /// The part of the buffer that command `i` of a piece transfers.
    pub open spec fn share(self, plan: BatchPlan, i: int) -> DmaChunk {
        DmaChunk {
            phys_addr: (self.buffer.phys + i * plan.bytes) as usize,
            virt_addr: (self.buffer.virt + i * plan.bytes) as usize,
            len: plan.bytes as usize,
        }
    }

    /// The controller after the first `n` commands of a piece were
    /// submitted. Command `i` transfers share `i` of the buffer to or from
    /// the blocks after those of the commands before it, and its page list,
    /// where it needs one, starts at the entry for its first page.
    pub open spec fn after_commands(
        self,
        ns_id: u32,
        plan: BatchPlan,
        lba: int,
        write: bool,
        n: int,
    ) -> NvmeDeviceView
        decreases n,
    {
        if n <= 0 {
            self
        } else {
            self.after_commands(ns_id, plan, lba, write, n - 1).after_command(
                ns_id,
                self.share(plan, n - 1),
                plan.blocks as int,
                (lba + (n - 1) * plan.blocks) as u64,
                write,
                ((n - 1) * plan.bytes) / 4096,
            )
        }
    }

    /// Whether the next piece of `staged` cannot be submitted: there is no
    /// plan for it, it does not fit the buffer, a command would carry no
    /// block or more than 65536, the queue has not room for all commands,
    /// commands with a page list would not start on a page, the pages are
    /// more than the page list can hold, or the blocks end beyond the last
    /// block address.
    pub open spec fn refuses_piece(self, staged: StagedView) -> bool {
        match staged.plan() {
            None => true,
            Some(plan) => {
                ||| staged.piece_len() > self.buffer.size
                ||| plan.blocks < 1
                ||| plan.blocks > 0x1_0000
                ||| plan.commands > self.io_sq.free()
                ||| plan.bytes > 8192 && plan.commands > 1 && plan.bytes % 4096 != 0
                ||| pages_for(plan.bytes as int) + (plan.commands - 1) * (plan.bytes / 4096) > 513
                ||| staged.lba + plan.commands * plan.blocks > u64::MAX
            },
        }
    }
}

impl NvmeDevice {
    fn stage(
        &self,
        ns_id: u32,
        len: usize,
        lba: u64,
        write: bool,
        piece: usize,
        batch_len: Option<u64>,
    ) -> (staged: Result<Staged, Error>)
        ensures
            match staged {
                Ok(s) => {
                    &&& self@.namespaces.contains_key(ns_id)
                    &&& s@ == (StagedView {
                        total: len as int,
                        offset: 0,
                        lba: lba as int,
                        ns_id,
                        block_size: self@.namespaces[ns_id].block_size,
                        write,
                        piece: piece as int,
                        batch_len,
                    })
                },
                Err(e) => !self@.namespaces.contains_key(ns_id) && e matches Error::Vroom(_),
            },
    {
        match self.namespaces.get(&ns_id) {
            Some(namespace) => Ok(
                Staged {
                    total: len,
                    offset: 0,
                    lba,
                    ns_id,
                    block_size: namespace.block_size,
                    write,
                    piece,
                    batch_len,
                },
            ),
            None => Err(Error::config("the namespace is not known")),
        }
    }

    /// Starts writing `len` bytes of the caller's memory to namespace 1 from
    /// block `lba` on, in pieces of at most 512 KiB that are copied through
    /// the buffer of the controller, one command per piece. The namespace
    /// must be known from identify; else this is a configuration error.
    pub fn write_copied(&self, len: usize, lba: u64) -> (staged: Result<Staged, Error>)
        ensures
            match staged {
                Ok(s) => {
                    &&& self@.namespaces.contains_key(1)
                    &&& s@ == (StagedView {
                        total: len as int,
                        offset: 0,
                        lba: lba as int,
                        ns_id: 1,
                        block_size: self@.namespaces[1].block_size,
                        write: true,
                        piece: 0x8_0000,
                        batch_len: None,
                    })
                },
                Err(e) => !self@.namespaces.contains_key(1) && e matches Error::Vroom(_),
            },
    {
        self.stage(1, len, lba, true, COPY_PIECE, None)
    }

    /// Starts reading `len` bytes from namespace 1, from block `lba` on,
    /// into the caller's memory, in pieces of at most 512 KiB that are copied
    /// through the buffer of the controller, one command per piece. The
    /// namespace must be known from identify; else this is a configuration
    /// error.
    pub fn read_copied(&self, len: usize, lba: u64) -> (staged: Result<Staged, Error>)
        ensures
            match staged {
                Ok(s) => {
                    &&& self@.namespaces.contains_key(1)
                    &&& s@ == (StagedView {
                        total: len as int,
                        offset: 0,
                        lba: lba as int,
                        ns_id: 1,
                        block_size: self@.namespaces[1].block_size,
                        write: false,
                        piece: 0x8_0000,
                        batch_len: None,
                    })
                },
                Err(e) => !self@.namespaces.contains_key(1) && e matches Error::Vroom(_),
            },
    {
        self.stage(1, len, lba, false, COPY_PIECE, None)
    }

    /// Starts writing `len` bytes of the caller's memory to namespace
    /// `ns_id` from block `lba` on, in pieces of at most 2 MiB that are
    /// copied through the buffer of the controller, each piece split over
    /// `batch_len` commands that are in flight together. The namespace must
    /// be known from identify; else this is a configuration error.
    pub fn batched_write(&self, ns_id: u32, len: usize, lba: u64, batch_len: u64) -> (staged:
        Result<Staged, Error>)
        ensures
            match staged {
                Ok(s) => {
                    &&& self@.namespaces.contains_key(ns_id)
                    &&& s@ == (StagedView {
                        total: len as int,
                        offset: 0,
                        lba: lba as int,
                        ns_id,
                        block_size: self@.namespaces[ns_id].block_size,
                        write: true,
                        piece: 0x20_0000,
                        batch_len: Some(batch_len),
                    })
                },
                Err(e) => !self@.namespaces.contains_key(ns_id) && e matches Error::Vroom(_),
            },
    {
        self.stage(ns_id, len, lba, true, BATCH_PIECE, Some(batch_len))
    }

    /// Starts reading `len` bytes from namespace `ns_id`, from block `lba`
    /// on, into the caller's memory, in pieces of at most 2 MiB that are
    /// copied through the buffer of the controller, each piece split over
    /// `batch_len` commands that are in flight together. The namespace must
    /// be known from identify; else this is a configuration error.
    pub fn batched_read(&self, ns_id: u32, len: usize, lba: u64, batch_len: u64) -> (staged:
        Result<Staged, Error>)
        ensures
            match staged {
                Ok(s) => {
                    &&& self@.namespaces.contains_key(ns_id)
                    &&& s@ == (StagedView {
                        total: len as int,
                        offset: 0,
                        lba: lba as int,
                        ns_id,
                        block_size: self@.namespaces[ns_id].block_size,
                        write: false,
                        piece: 0x20_0000,
                        batch_len: Some(batch_len),
                    })
                },
                Err(e) => !self@.namespaces.contains_key(ns_id) && e matches Error::Vroom(_),
            },
    {
        self.stage(ns_id, len, lba, false, BATCH_PIECE, Some(batch_len))
    }

    /// Submits the commands for the next piece of `staged` in the default
    /// I/O queue, all of them or none. The piece lies at the start of the
    /// buffer of the controller: the caller copies it there before the
    /// commands reach the controller when it is written, and from there
    /// after the completions were taken when it was read. The completions
    /// are to be taken with [`Self::complete_io`], as many at once as the
    /// piece has commands, before the next piece is submitted.
    ///
    /// Returns the piece, or `None` when the transfer is through. A piece
    /// that cannot be submitted is a configuration error and leaves
    /// everything as it was.
    pub fn next_staged(&mut self, staged: &mut Staged) -> (piece: Result<Option<Piece>, Error>)
        ensures
            match piece {
                Ok(Some(p)) => {
                    let plan = old(staged)@.plan()->0;
                    &&& !old(staged)@.done()
                    &&& !old(self)@.refuses_piece(old(staged)@)
                    &&& p == (Piece {
                        offset: old(staged)@.offset as usize,
                        len: old(staged)@.piece_len() as usize,
                        commands: plan.commands,
                    })
                    &&& final(self)@ == old(self)@.after_commands(
                        old(staged)@.ns_id,
                        plan,
                        old(staged)@.lba,
                        old(staged)@.write,
                        plan.commands as int,
                    )
                    &&& final(staged)@ == old(staged)@.advance()
                },
                Ok(None) => {
                    &&& old(staged)@.done()
                    &&& final(self)@ == old(self)@
                    &&& final(staged)@ == old(staged)@
                },
                Err(e) => {
                    &&& !old(staged)@.done()
                    &&& old(self)@.refuses_piece(old(staged)@)
                    &&& final(self)@ == old(self)@
                    &&& final(staged)@ == old(staged)@
                    &&& e matches Error::Vroom(_)
                },
            },
    {
        if staged.offset >= staged.total {
            return Ok(None);
        }
        let left: usize = staged.total - staged.offset;
        let len: usize = if staged.piece <= left {
            staged.piece
        } else {
            left
        };
        let plan = match batch_plan(len, staged.batch_len, staged.block_size) {
            Some(plan) => plan,
            None => {
                return Err(Error::config("the piece cannot be split into commands"));
            },
        };
        let buffer = self.core.buffer;
        let size = buffer.size();
        let phys = buffer.phys();
        let virt = buffer.virt();
        if len > size {
            return Err(Error::config("the piece does not fit the buffer"));
        }
        if plan.blocks < 1 || plan.blocks > MAX_BLOCKS {
            return Err(Error::config("a command must carry between 1 and 65536 blocks"));
        }
        let free = self.io_sq.free();
        if plan.commands > free as u64 {
            return Err(Error::config("the I/O queue has not room for the piece"));
        }
        if plan.bytes > 8192 && plan.commands > 1 && plan.bytes % 4096 != 0 {
            return Err(Error::config("commands with a page list must start on a page"));
        }
        let commands = plan.commands;
        let bytes = plan.bytes;
        let blocks = plan.blocks;
        assert(commands * bytes <= len && bytes >= 1) by {
            if staged.batch_len is Some {
                assert(commands >= 1 && commands <= len / 512 && bytes == len as int
                    / commands as int);
                assert(commands * bytes <= len && bytes >= 1) by (nonlinear_arith)
                    requires
                        commands >= 1,
                        len >= 1,
                        bytes == len as int / commands as int,
                        commands <= len,
                ;
            } else {
                assert(commands == 1 && bytes == len);
                assert(commands * bytes == bytes) by (nonlinear_arith)
                    requires
                        commands == 1,
                ;
            }
        }
        assert((commands - 1) * (bytes / 4096) <= len / 4096) by (nonlinear_arith)
            requires
                commands >= 1,
                commands * bytes <= len,
        ;
        let pages: u64 = (bytes - 1) / 4096 + 1 + (commands - 1) * (bytes / 4096);
        if pages > 513 {
            return Err(Error::config("the piece has more pages than the page list holds"));
        }
        assert(commands * blocks <= 0x4000 * 0x1_0000) by (nonlinear_arith)
            requires
                commands <= 0x4000,
                blocks <= 0x1_0000,
        ;
        let span: u64 = commands * blocks;
        if span > u64::MAX - staged.lba {
            return Err(Error::config("the transfer ends beyond the last block address"));
        }
        let ghost before = self@;
        let ghost lba = staged.lba as int;
        let mut i: u64 = 0;
        while i < commands
            invariant
                i <= commands,
                plan == (BatchPlan { commands, bytes, blocks }),
                1 <= blocks <= 0x1_0000,
                1 <= bytes,
                commands * bytes <= len <= size,
                phys + size <= usize::MAX,
                virt + size <= usize::MAX,
                phys == before.buffer.phys,
                virt == before.buffer.virt,
                lba == staged.lba,
                lba + commands * blocks <= u64::MAX,
                bytes > 8192 && commands > 1 ==> bytes % 4096 == 0,
                pages_for(bytes as int) + (commands - 1) * (bytes / 4096) <= 513,
                self@.io_sq.wf(),
                self@.io_sq.free() >= commands - i,
                self@ == before.after_commands(staged.ns_id, plan, lba, staged.write, i as int),
            decreases commands - i,
        {
            assert(i * bytes + bytes <= commands * bytes && i * blocks + blocks <= commands
                * blocks && 0 <= i * bytes && 0 <= i * blocks) by (nonlinear_arith)
                requires
                    0 <= i < commands,
                    0 <= bytes,
                    0 <= blocks,
            ;
            let at: usize = (i * bytes) as usize;
            let chunk = DmaChunk { phys_addr: phys + at, virt_addr: virt + at, len: bytes as usize };
            let first: usize = (at / 4096) as usize;
            assert(bytes > 8192 ==> first + pages_for(bytes as int) - 1 <= 512) by (nonlinear_arith)
                requires
                    0 <= i < commands,
                    first == (i * bytes) / 4096,
                    bytes > 8192 && commands > 1 ==> bytes % 4096 == 0,
                    pages_for(bytes as int) + (commands - 1) * (bytes / 4096) <= 513,
                    bytes >= 1,
            ;
            proof {
                let now = self@;
                let cmd = NvmeCommand::spec_io(
                    if staged.write {
                        IO_WRITE
                    } else {
                        IO_READ
                    },
                    now.io_sq.tail as u16,
                    staged.ns_id,
                    (lba + i * blocks) as u64,
                    (blocks - 1) as u16,
                    chunk.phys_addr as u64,
                    0,
                );
                crate::queues::lemma_submit(now.io_sq, cmd);
                assert(chunk == before.share(plan, i as int));
            }
            self.submit_command(
                staged.ns_id,
                chunk,
                blocks,
                staged.lba + i * blocks,
                staged.write,
                first,
            );
            i = i + 1;
        }
        let piece = Piece { offset: staged.offset, len, commands };
        staged.offset = staged.offset + len;
        staged.lba = staged.lba + span;
        Ok(Some(piece))
    }
}

} // verus!
