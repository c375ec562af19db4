//! What the identify pages tell about a controller and its namespaces.

use vstd::prelude::*;
use vstd::arithmetic::power2::{lemma2_to64, lemma_pow2_strictly_increases, pow2};
use vstd::bits::lemma_u64_shl_is_mul;
use crate::wire::{get_u32, get_u64, word32, word64};
use super::device::{NvmeDevice, NvmeDeviceView};
use super::text::{read_text_field, text_field};

verus! {

broadcast use vstd::std_specs::hash::group_hash_axioms;

/// What identify told about a namespace.
#[derive(Debug, Clone, Copy, PartialEq, Eq, Structural)]
pub struct NvmeNamespace {
    pub id: u32,
    /// Size of the namespace in logical blocks
    pub blocks: u64,
    /// Size of a logical block in bytes; zero if the namespace cannot be used
    pub block_size: u64,
}

/// Number of identifiers a namespace list of `len` bytes can hold: one per
/// four bytes, at most 1024.
pub open spec fn namespace_slots(len: int) -> int {
    if len / 4 <= 1024 {
        len / 4
    } else {
        1024
    }
}

/// The active logical block format of a namespace: the low four bits of the
/// byte at offset 26 of its identify page.
pub open spec fn lba_format_index(data: Seq<u8>) -> int {
    (data[26] % 16) as int
}

/// The data size exponent of the active logical block format: bits 16 to
/// 23 of the format's entry, the entries starting at offset 128.
pub open spec fn lba_data_size(data: Seq<u8>) -> int {
    (word32(data, 128 + 4 * lba_format_index(data)) / 0x1_0000) % 0x100
}

/// What the identify page `data` tells about namespace `id`: the number of
/// blocks in its first eight bytes, and a block size of two to the data size
/// exponent, or zero where the exponent is outside 9 to 31.
pub open spec fn namespace_of(id: u32, data: Seq<u8>) -> NvmeNamespace {
    let exponent = lba_data_size(data);
    NvmeNamespace {
        id,
        blocks: word64(data, 0) as u64,
        block_size: if 9 <= exponent <= 31 {
            pow2(exponent as nat) as u64
        } else {
            0
        },
    }
}

/// Size in bytes of the part of an identify namespace page that is read.
pub const NAMESPACE_DATA_LEN: usize = 192;

/// Size in bytes of the part of an identify controller page that is read.
pub const CONTROLLER_DATA_LEN: usize = 72;

impl NvmeDevice {
    /// Reads what an identify controller page tells: model, serial number and
    /// firmware revision, in this order. A page of less than 72 bytes tells
    /// nothing.
    pub fn identify_controller(data: &[u8]) -> (identity: Option<(String, String, String)>)
        ensures
            match identity {
                Some((model, serial, firmware)) => {
                    &&& data@.len() >= 72
                    &&& serial@ == text_field(data@, 4, 24)
                    &&& model@ == text_field(data@, 24, 64)
                    &&& firmware@ == text_field(data@, 64, 72)
                },
                None => data@.len() < 72,
            },
    {
        if data.len() < CONTROLLER_DATA_LEN {
            return None;
        }
        let serial = read_text_field(data, 4, 24);
        let model = read_text_field(data, 24, 64);
        let firmware = read_text_field(data, 64, 72);
        Some((model, serial, firmware))
    }

    /// Reads the identifiers in a namespace list: 32-bit integers from the
    /// start of the page up to the first zero, at most 1024 of them.
    pub fn identify_namespace_list(data: &[u8]) -> (ids: Vec<u32>)
        ensures
            ids@.len() <= namespace_slots(data@.len() as int),
            forall|i: int| 0 <= i < ids@.len() ==> ids@[i] == word32(data@, 4 * i) && ids@[i] != 0,
            ids@.len() == namespace_slots(data@.len() as int) || word32(
                data@,
                4 * ids@.len() as int,
            ) == 0,
    {
        let slots: usize = if data.len() / 4 <= 1024 {
            data.len() / 4
        } else {
            1024
        };
        let mut ids: Vec<u32> = Vec::new();
        while ids.len() < slots
            invariant
                slots == namespace_slots(data@.len() as int),
                ids@.len() <= slots,
                forall|i: int| 0 <= i < ids@.len() ==> ids@[i] == word32(data@, 4 * i) && ids@[i] != 0,
            decreases slots - ids@.len(),
        {
            let id = get_u32(data, 4 * ids.len());
            if id == 0 {
                return ids;
            }
            ids.push(id);
        }
        ids
    }

    /// Reads what an identify namespace page tells about namespace `id`. A page
    /// of less than 192 bytes tells nothing.
    fn namespace_data(id: u32, data: &[u8]) -> (namespace: Option<NvmeNamespace>)
        ensures
            namespace == (if data@.len() >= 192 {
                Some(namespace_of(id, data@))
            } else {
                None
            }),
    {
        if data.len() < NAMESPACE_DATA_LEN {
            return None;
        }
        let blocks = get_u64(data, 0);
        let flba_idx: usize = (data[26] % 16) as usize;
        let flba_data: u32 = (get_u32(data, 128 + 4 * flba_idx) / 0x1_0000) % 0x100;
        let block_size: u64 = if 9 <= flba_data && flba_data <= 31 {
            proof {
                lemma2_to64();
                lemma_pow2_strictly_increases(flba_data as nat, 32);
                lemma_u64_shl_is_mul(1, flba_data as u64);
            }
            1u64 << (flba_data as u64)
        } else {
            0
        };
        Some(NvmeNamespace { id, blocks, block_size })
    }

    /// Takes note of what the identify page `data` tells about namespace
    /// `id`. A page of less than 192 bytes tells nothing and changes
    /// nothing.
    pub fn identify_namespace(&mut self, id: u32, data: &[u8]) -> (namespace: Option<
        NvmeNamespace,
    >)
        ensures
            namespace == (if data@.len() >= 192 {
                Some(namespace_of(id, data@))
            } else {
                None
            }),
            final(self)@ == (if data@.len() >= 192 {
                NvmeDeviceView {
                    namespaces: old(self)@.namespaces.insert(id, namespace_of(id, data@)),
                    ..old(self)@
                }
            } else {
                old(self)@
            }),
    {
        match Self::namespace_data(id, data) {
            Some(namespace) => {
                self.namespaces.insert(id, namespace);
                Some(namespace)
            },
            None => None,
        }
    }
}

} // verus!
