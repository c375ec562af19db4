//! Completion entries: what the controller stores when a command is done.

use vstd::prelude::*;
use crate::error::Error;
use crate::wire::{get_u16, get_u32, le16, le32, put_u16, put_u32, word16, word32};
use crate::wire::{lemma_word16_of_le16, lemma_word32_of_le32};
use super::COMPLETION_ENTRY_SIZE;

verus! {

/// One completion entry: the 16 bytes the controller stores when a command
/// is done.
#[derive(Clone, Copy, Debug, PartialEq, Eq, Structural)]
pub struct NvmeCompletion {
    /// Command specific
    pub command_specific: u32,
    /// Reserved
    pub _rsvd: u32,
    /// How far the controller has read the submission queue
    pub sq_head: u16,
    /// Submission queue the command came from
    pub sq_id: u16,
    /// Identifier of the command
    pub c_id: u16,
    /// Phase tag in bit 0, status field in bits 1 to 15
    pub status: u16,
}

impl NvmeCompletion {
    /// The phase tag: bit 0 of the status word.
    pub open spec fn spec_phase(self) -> bool {
        self.status % 2 == 1
    }

    /// The status field: bits 1 to 15 of the status word. Zero is success.
    pub open spec fn spec_status_field(self) -> int {
        (self.status / 2) as int
    }

    /// The status code: bits 1 to 8 of the status word.
    pub open spec fn spec_status_code(self) -> int {
        ((self.status / 2) % 0x100) as int
    }

    /// The status code type: bits 9 and 10 of the status word.
    pub open spec fn spec_status_code_type(self) -> int {
        ((self.status / 0x200) % 4) as int
    }

    /// The do-not-retry hint: bit 14 of the status word.
    pub open spec fn spec_do_not_retry(self) -> bool {
        (self.status / 0x4000) % 2 == 1
    }

    /// The 16 bytes of the entry as the controller stores them.
    pub open spec fn spec_bytes(self) -> Seq<u8> {
        le32(self.command_specific) + le32(self._rsvd) + le16(self.sq_head) + le16(self.sq_id)
            + le16(self.c_id) + le16(self.status)
    }

    /// The entry stored in the first 16 bytes of `s`.
    pub open spec fn spec_from_bytes(s: Seq<u8>) -> NvmeCompletion {
        NvmeCompletion {
            command_specific: word32(s, 0) as u32,
            _rsvd: word32(s, 4) as u32,
            sq_head: word16(s, 8) as u16,
            sq_id: word16(s, 10) as u16,
            c_id: word16(s, 12) as u16,
            status: word16(s, 14) as u16,
        }
    }

    /// The entry of a ring that the controller has not written yet.
    pub open spec fn zero() -> NvmeCompletion {
        NvmeCompletion { command_specific: 0, _rsvd: 0, sq_head: 0, sq_id: 0, c_id: 0, status: 0 }
    }

    pub fn phase(&self) -> (tag: bool)
        ensures
            tag == self.spec_phase(),
    {
        self.status % 2 == 1
    }

    pub fn status_field(&self) -> (field: u16)
        ensures
            field == self.spec_status_field(),
    {
        self.status / 2
    }

    pub fn status_code(&self) -> (code: u8)
        ensures
            code == self.spec_status_code(),
    {
        ((self.status / 2) % 0x100) as u8
    }

    pub fn status_code_type(&self) -> (kind: u8)
        ensures
            kind == self.spec_status_code_type(),
    {
        ((self.status / 0x200) % 4) as u8
    }

    pub fn do_not_retry(&self) -> (hint: bool)
        ensures
            hint == self.spec_do_not_retry(),
    {
        (self.status / 0x4000) % 2 == 1
    }

    /// The failure that the entry reports, if it reports one.
    pub fn error(&self) -> (error: Option<Error>)
        ensures
            error == (if self.spec_status_field() == 0 {
                None
            } else {
                Some(
                    Error::Device {
                        status_code: self.spec_status_code() as u8,
                        status_code_type: self.spec_status_code_type() as u8,
                    },
                )
            }),
    {
        if self.status_field() == 0 {
            None
        } else {
            Some(
                Error::Device {
                    status_code: self.status_code(),
                    status_code_type: self.status_code_type(),
                },
            )
        }
    }

    /// The entry as the 16 bytes of a completion queue slot.
    pub fn to_bytes(&self) -> (bytes: Vec<u8>)
        ensures
            bytes@ == self.spec_bytes(),
            bytes@.len() == 16,
    {
        let mut bytes: Vec<u8> = Vec::new();
        put_u32(&mut bytes, self.command_specific);
        put_u32(&mut bytes, self._rsvd);
        put_u16(&mut bytes, self.sq_head);
        put_u16(&mut bytes, self.sq_id);
        put_u16(&mut bytes, self.c_id);
        put_u16(&mut bytes, self.status);
        assert(bytes@ =~= self.spec_bytes());
        bytes
    }

    /// The entry stored in `data`, which must be exactly one slot long.
    pub fn from_bytes(data: &[u8]) -> (entry: Option<NvmeCompletion>)
        ensures
            entry == (if data@.len() == 16 {
                Some(Self::spec_from_bytes(data@))
            } else {
                None
            }),
    {
        if data.len() != COMPLETION_ENTRY_SIZE {
            return None;
        }
        Some(
            NvmeCompletion {
                command_specific: get_u32(data, 0),
                _rsvd: get_u32(data, 4),
                sq_head: get_u16(data, 8),
                sq_id: get_u16(data, 10),
                c_id: get_u16(data, 12),
                status: get_u16(data, 14),
            },
        )
    }
}

impl Default for NvmeCompletion {
    fn default() -> (entry: NvmeCompletion)
        ensures
            entry == NvmeCompletion::zero(),
    {
        NvmeCompletion { command_specific: 0, _rsvd: 0, sq_head: 0, sq_id: 0, c_id: 0, status: 0 }
    }
}

/// A completion entry survives the trip through its 16 bytes, and the
/// status word sits in its last two bytes with the phase tag in bit 0.
pub proof fn lemma_completion_round_trip(entry: NvmeCompletion)
    ensures
        entry.spec_bytes().len() == 16,
        word16(entry.spec_bytes(), 8) == entry.sq_head,
        word16(entry.spec_bytes(), 14) == entry.status,
        entry.spec_bytes()[14] % 2 == 1 <==> entry.spec_phase(),
        NvmeCompletion::spec_from_bytes(entry.spec_bytes()) == entry,
{
    let s = entry.spec_bytes();
    assert(s.len() == 16);
    assert(s.subrange(0, 4) =~= le32(entry.command_specific));
    assert(s.subrange(4, 8) =~= le32(entry._rsvd));
    assert(s.subrange(8, 10) =~= le16(entry.sq_head));
    assert(s.subrange(10, 12) =~= le16(entry.sq_id));
    assert(s.subrange(12, 14) =~= le16(entry.c_id));
    assert(s.subrange(14, 16) =~= le16(entry.status));
    lemma_word32_of_le32(s, 0, entry.command_specific);
    lemma_word32_of_le32(s, 4, entry._rsvd);
    lemma_word16_of_le16(s, 8, entry.sq_head);
    lemma_word16_of_le16(s, 10, entry.sq_id);
    lemma_word16_of_le16(s, 12, entry.c_id);
    lemma_word16_of_le16(s, 14, entry.status);
    assert(s[14] == le16(entry.status)[0]);
}

} // verus!
