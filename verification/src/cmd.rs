//! Submission entries: the 64-byte commands a host places in a submission
//! queue.

use vstd::prelude::*;
use crate::wire::{get_u16, get_u32, get_u64, le16, le32, le64, put_u16, put_u32, put_u64};
use crate::wire::{lemma_word16_of_le16, lemma_word32_of_le32, lemma_word64_of_le64};
use crate::wire::{word16, word32, word64};

verus! {

/// Size of one submission entry in bytes.
pub const COMMAND_SIZE: usize = 64;

/// Admin opcode: delete an I/O submission queue.
pub const ADMIN_DELETE_IO_SQ: u8 = 0x00;

/// Admin opcode: create an I/O submission queue.
pub const ADMIN_CREATE_IO_SQ: u8 = 0x01;

/// Admin opcode: delete an I/O completion queue.
pub const ADMIN_DELETE_IO_CQ: u8 = 0x04;

/// Admin opcode: create an I/O completion queue.
pub const ADMIN_CREATE_IO_CQ: u8 = 0x05;

/// Admin opcode: identify.
pub const ADMIN_IDENTIFY: u8 = 0x06;

/// Admin opcode: format NVM.
pub const ADMIN_FORMAT_NVM: u8 = 0x80;

/// I/O opcode: write.
pub const IO_WRITE: u8 = 0x01;

/// I/O opcode: read.
pub const IO_READ: u8 = 0x02;

/// One submission entry.
///
/// Bytes 0..4 hold opcode, flags and command identifier, bytes 4..8 the
/// namespace, bytes 24..40 the two data pointers, bytes 40..64 the six
/// command-specific words.
#[derive(Clone, Copy, Debug, PartialEq, Eq, Structural)]
pub struct NvmeCommand {
    /// Opcode
    pub opcode: u8,
    /// Fused operation (2 bits), reserved (4 bits), data-pointer kind (2 bits)
    pub flags: u8,
    /// Command identifier, echoed in the completion entry
    pub c_id: u16,
    /// Namespace identifier
    pub ns_id: u32,
    /// Reserved
    pub _rsvd: u64,
    /// Metadata pointer
    pub md_ptr: u64,
    /// First data pointer: I/O address of the first data page
    pub prp1: u64,
    /// Second data pointer: zero, the second data page, or a list of pages
    pub prp2: u64,
    /// Command dword 10
    pub cdw10: u32,
    /// Command dword 11
    pub cdw11: u32,
    /// Command dword 12
    pub cdw12: u32,
    /// Command dword 13
    pub cdw13: u32,
    /// Command dword 14
    pub cdw14: u32,
    /// Command dword 15
    pub cdw15: u32,
}

impl NvmeCommand {
    /// A command with the given opcode, identifier and namespace, all other
    /// fields zero.
    pub open spec fn blank(opcode: u8, c_id: u16, ns_id: u32) -> NvmeCommand {
        NvmeCommand {
            opcode,
            flags: 0,
            c_id,
            ns_id,
            _rsvd: 0,
            md_ptr: 0,
            prp1: 0,
            prp2: 0,
            cdw10: 0,
            cdw11: 0,
            cdw12: 0,
            cdw13: 0,
            cdw14: 0,
            cdw15: 0,
        }
    }

    /// The command that creates completion queue `qid` of `size + 1` entries
    /// at I/O address `ptr`, physically contiguous, without interrupts.
    pub open spec fn spec_create_io_completion_queue(
        c_id: u16,
        qid: u16,
        ptr: usize,
        size: u16,
    ) -> NvmeCommand {
        NvmeCommand {
            prp1: ptr as u64,
            cdw10: (size * 0x1_0000 + qid) as u32,
            cdw11: 1,
            ..Self::blank(ADMIN_CREATE_IO_CQ, c_id, 0)
        }
    }

    /// The command that creates submission queue `q_id` of `size + 1`
    /// entries at I/O address `ptr`, physically contiguous, completing into
    /// queue `cq_id`.
    pub open spec fn spec_create_io_submission_queue(
        c_id: u16,
        q_id: u16,
        ptr: usize,
        size: u16,
        cq_id: u16,
    ) -> NvmeCommand {
        NvmeCommand {
            prp1: ptr as u64,
            cdw10: (size * 0x1_0000 + q_id) as u32,
            cdw11: (cq_id * 0x1_0000 + 1) as u32,
            ..Self::blank(ADMIN_CREATE_IO_SQ, c_id, 0)
        }
    }

    /// An identify command whose result goes to I/O address `ptr`; `cns`
    /// selects what is identified.
    pub open spec fn spec_identify(c_id: u16, ptr: usize, ns_id: u32, cns: u32) -> NvmeCommand {
        NvmeCommand { prp1: ptr as u64, cdw10: cns, ..Self::blank(ADMIN_IDENTIFY, c_id, ns_id) }
    }

    /// A read or write of `blocks_1 + 1` logical blocks starting at `lba`.
    pub open spec fn spec_io(
        opcode: u8,
        c_id: u16,
        ns_id: u32,
        lba: u64,
        blocks_1: u16,
        ptr0: u64,
        ptr1: u64,
    ) -> NvmeCommand {
        NvmeCommand {
            prp1: ptr0,
            prp2: ptr1,
            cdw10: (lba % 0x1_0000_0000) as u32,
            cdw11: (lba / 0x1_0000_0000) as u32,
            cdw12: blocks_1 as u32,
            ..Self::blank(opcode, c_id, ns_id)
        }
    }

    /// The format command for namespace `ns_id`, erasing user data.
    pub open spec fn spec_format_nvm(c_id: u16, ns_id: u32) -> NvmeCommand {
        NvmeCommand { cdw10: 0x200, ..Self::blank(ADMIN_FORMAT_NVM, c_id, ns_id) }
    }

    /// The 64 bytes of the entry as the controller reads them.
    pub open spec fn spec_bytes(self) -> Seq<u8> {
        seq![self.opcode, self.flags] + le16(self.c_id) + le32(self.ns_id) + le64(self._rsvd)
            + le64(self.md_ptr) + le64(self.prp1) + le64(self.prp2) + le32(self.cdw10) + le32(
            self.cdw11,
        ) + le32(self.cdw12) + le32(self.cdw13) + le32(self.cdw14) + le32(self.cdw15)
    }

    /// The entry stored in the first 64 bytes of `s`.
    pub open spec fn spec_from_bytes(s: Seq<u8>) -> NvmeCommand {
        NvmeCommand {
            opcode: s[0],
            flags: s[1],
            c_id: word16(s, 2) as u16,
            ns_id: word32(s, 4) as u32,
            _rsvd: word64(s, 8) as u64,
            md_ptr: word64(s, 16) as u64,
            prp1: word64(s, 24) as u64,
            prp2: word64(s, 32) as u64,
            cdw10: word32(s, 40) as u32,
            cdw11: word32(s, 44) as u32,
            cdw12: word32(s, 48) as u32,
            cdw13: word32(s, 52) as u32,
            cdw14: word32(s, 56) as u32,
            cdw15: word32(s, 60) as u32,
        }
    }

    fn new(opcode: u8, c_id: u16, ns_id: u32) -> (cmd: NvmeCommand)
        ensures
            cmd == Self::blank(opcode, c_id, ns_id),
    {
        NvmeCommand {
            opcode,
            flags: 0,
            c_id,
            ns_id,
            _rsvd: 0,
            md_ptr: 0,
            prp1: 0,
            prp2: 0,
            cdw10: 0,
            cdw11: 0,
            cdw12: 0,
            cdw13: 0,
            cdw14: 0,
            cdw15: 0,
        }
    }

    pub fn create_io_completion_queue(c_id: u16, qid: u16, ptr: usize, size: u16) -> (cmd:
        NvmeCommand)
        ensures
            cmd == Self::spec_create_io_completion_queue(c_id, qid, ptr, size),
    {
        let mut cmd = Self::new(ADMIN_CREATE_IO_CQ, c_id, 0);
        cmd.prp1 = ptr as u64;
        cmd.cdw10 = (size as u32) * 0x1_0000 + (qid as u32);
        cmd.cdw11 = 1;
        cmd
    }

    pub fn create_io_submission_queue(
        c_id: u16,
        q_id: u16,
        ptr: usize,
        size: u16,
        cq_id: u16,
    ) -> (cmd: NvmeCommand)
        ensures
            cmd == Self::spec_create_io_submission_queue(c_id, q_id, ptr, size, cq_id),
    {
        let mut cmd = Self::new(ADMIN_CREATE_IO_SQ, c_id, 0);
        cmd.prp1 = ptr as u64;
        cmd.cdw10 = (size as u32) * 0x1_0000 + (q_id as u32);
        cmd.cdw11 = (cq_id as u32) * 0x1_0000 + 1;
        cmd
    }

    pub fn delete_io_submission_queue(c_id: u16, q_id: u16) -> (cmd: NvmeCommand)
        ensures
            cmd == (NvmeCommand { cdw10: q_id as u32, ..Self::blank(ADMIN_DELETE_IO_SQ, c_id, 0) }),
    {
        let mut cmd = Self::new(ADMIN_DELETE_IO_SQ, c_id, 0);
        cmd.cdw10 = q_id as u32;
        cmd
    }

    pub fn delete_io_completion_queue(c_id: u16, q_id: u16) -> (cmd: NvmeCommand)
        ensures
            cmd == (NvmeCommand { cdw10: q_id as u32, ..Self::blank(ADMIN_DELETE_IO_CQ, c_id, 0) }),
    {
        let mut cmd = Self::new(ADMIN_DELETE_IO_CQ, c_id, 0);
        cmd.cdw10 = q_id as u32;
        cmd
    }

    /// Identify namespace `ns_id`.
    pub fn identify_namespace(c_id: u16, ptr: usize, ns_id: u32) -> (cmd: NvmeCommand)
        ensures
            cmd == Self::spec_identify(c_id, ptr, ns_id, 0),
    {
        let mut cmd = Self::new(ADMIN_IDENTIFY, c_id, ns_id);
        cmd.prp1 = ptr as u64;
        cmd
    }

    /// Identify the controller.
    pub fn identify_controller(c_id: u16, ptr: usize) -> (cmd: NvmeCommand)
        ensures
            cmd == Self::spec_identify(c_id, ptr, 0, 1),
    {
        let mut cmd = Self::new(ADMIN_IDENTIFY, c_id, 0);
        cmd.prp1 = ptr as u64;
        cmd.cdw10 = 1;
        cmd
    }

    /// List the active namespaces whose identifier is above `base`.
    pub fn identify_namespace_list(c_id: u16, ptr: usize, base: u32) -> (cmd: NvmeCommand)
        ensures
            cmd == Self::spec_identify(c_id, ptr, base, 2),
    {
        let mut cmd = Self::new(ADMIN_IDENTIFY, c_id, base);
        cmd.prp1 = ptr as u64;
        cmd.cdw10 = 2;
        cmd
    }

    pub fn io_read(c_id: u16, ns_id: u32, lba: u64, blocks_1: u16, ptr0: u64, ptr1: u64) -> (cmd:
        NvmeCommand)
        ensures
            cmd == Self::spec_io(IO_READ, c_id, ns_id, lba, blocks_1, ptr0, ptr1),
    {
        let mut cmd = Self::new(IO_READ, c_id, ns_id);
        cmd.prp1 = ptr0;
        cmd.prp2 = ptr1;
        cmd.cdw10 = (lba % 0x1_0000_0000) as u32;
        cmd.cdw11 = (lba / 0x1_0000_0000) as u32;
        cmd.cdw12 = blocks_1 as u32;
        cmd
    }

    pub fn io_write(c_id: u16, ns_id: u32, lba: u64, blocks_1: u16, ptr0: u64, ptr1: u64) -> (cmd:
        NvmeCommand)
        ensures
            cmd == Self::spec_io(IO_WRITE, c_id, ns_id, lba, blocks_1, ptr0, ptr1),
    {
        let mut cmd = Self::new(IO_WRITE, c_id, ns_id);
        cmd.prp1 = ptr0;
        cmd.prp2 = ptr1;
        cmd.cdw10 = (lba % 0x1_0000_0000) as u32;
        cmd.cdw11 = (lba / 0x1_0000_0000) as u32;
        cmd.cdw12 = blocks_1 as u32;
        cmd
    }

    pub fn format_nvm(c_id: u16, ns_id: u32) -> (cmd: NvmeCommand)
        ensures
            cmd == Self::spec_format_nvm(c_id, ns_id),
    {
        let mut cmd = Self::new(ADMIN_FORMAT_NVM, c_id, ns_id);
        cmd.cdw10 = 0x200;
        cmd
    }

    /// The entry as the 64 bytes that go into a submission queue slot.
    pub fn to_bytes(&self) -> (bytes: Vec<u8>)
        ensures
            bytes@ == self.spec_bytes(),
            bytes@.len() == 64,
    {
        let mut bytes: Vec<u8> = Vec::new();
        bytes.push(self.opcode);
        bytes.push(self.flags);
        put_u16(&mut bytes, self.c_id);
        put_u32(&mut bytes, self.ns_id);
        put_u64(&mut bytes, self._rsvd);
        put_u64(&mut bytes, self.md_ptr);
        put_u64(&mut bytes, self.prp1);
        put_u64(&mut bytes, self.prp2);
        put_u32(&mut bytes, self.cdw10);
        put_u32(&mut bytes, self.cdw11);
        put_u32(&mut bytes, self.cdw12);
        put_u32(&mut bytes, self.cdw13);
        put_u32(&mut bytes, self.cdw14);
        put_u32(&mut bytes, self.cdw15);
        assert(bytes@ =~= self.spec_bytes());
        bytes
    }

    /// The entry stored in `data`, which must be exactly one slot long.
    pub fn from_bytes(data: &[u8]) -> (cmd: Option<NvmeCommand>)
        ensures
            cmd == (if data@.len() == 64 {
                Some(Self::spec_from_bytes(data@))
            } else {
                None
            }),
    {
        if data.len() != COMMAND_SIZE {
            return None;
        }
        Some(
            NvmeCommand {
                opcode: data[0],
                flags: data[1],
                c_id: get_u16(data, 2),
                ns_id: get_u32(data, 4),
                _rsvd: get_u64(data, 8),
                md_ptr: get_u64(data, 16),
                prp1: get_u64(data, 24),
                prp2: get_u64(data, 32),
                cdw10: get_u32(data, 40),
                cdw11: get_u32(data, 44),
                cdw12: get_u32(data, 48),
                cdw13: get_u32(data, 52),
                cdw14: get_u32(data, 56),
                cdw15: get_u32(data, 60),
            },
        )
    }
}

/// A command survives the trip through its 64 bytes: decoding what was
/// encoded gives the command back, and each field sits where the layout
/// puts it.
pub proof fn lemma_command_round_trip(cmd: NvmeCommand)
    ensures
        cmd.spec_bytes().len() == 64,
        cmd.spec_bytes()[0] == cmd.opcode,
        word32(cmd.spec_bytes(), 4) == cmd.ns_id,
        word64(cmd.spec_bytes(), 24) == cmd.prp1,
        word64(cmd.spec_bytes(), 32) == cmd.prp2,
        NvmeCommand::spec_from_bytes(cmd.spec_bytes()) == cmd,
{
    let s = cmd.spec_bytes();
    assert(s.len() == 64);
    assert(s.subrange(2, 4) =~= le16(cmd.c_id));
    assert(s.subrange(4, 8) =~= le32(cmd.ns_id));
    assert(s.subrange(8, 16) =~= le64(cmd._rsvd));
    assert(s.subrange(16, 24) =~= le64(cmd.md_ptr));
    assert(s.subrange(24, 32) =~= le64(cmd.prp1));
    assert(s.subrange(32, 40) =~= le64(cmd.prp2));
    assert(s.subrange(40, 44) =~= le32(cmd.cdw10));
    assert(s.subrange(44, 48) =~= le32(cmd.cdw11));
    assert(s.subrange(48, 52) =~= le32(cmd.cdw12));
    assert(s.subrange(52, 56) =~= le32(cmd.cdw13));
    assert(s.subrange(56, 60) =~= le32(cmd.cdw14));
    assert(s.subrange(60, 64) =~= le32(cmd.cdw15));
    lemma_word16_of_le16(s, 2, cmd.c_id);
    lemma_word32_of_le32(s, 4, cmd.ns_id);
    lemma_word64_of_le64(s, 8, cmd._rsvd);
    lemma_word64_of_le64(s, 16, cmd.md_ptr);
    lemma_word64_of_le64(s, 24, cmd.prp1);
    lemma_word64_of_le64(s, 32, cmd.prp2);
    lemma_word32_of_le32(s, 40, cmd.cdw10);
    lemma_word32_of_le32(s, 44, cmd.cdw11);
    lemma_word32_of_le32(s, 48, cmd.cdw12);
    lemma_word32_of_le32(s, 52, cmd.cdw13);
    lemma_word32_of_le32(s, 56, cmd.cdw14);
    lemma_word32_of_le32(s, 60, cmd.cdw15);
}

} // verus!
