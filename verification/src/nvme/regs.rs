//! The registers of the controller, and the steps that bring it up.

use vstd::prelude::*;
use vstd::arithmetic::power2::{lemma2_to64, lemma_pow2_strictly_increases, pow2};
use vstd::bits::lemma_u64_shl_is_mul;
use super::admin::AdminRequest;

verus! {

/// The 32-bit registers of the controller.
#[derive(Copy, Clone, Debug, PartialEq, Eq, Structural)]
pub enum NvmeRegs32 {
    /// Version
    VS,
    /// Interrupt Mask Set
    INTMS,
    /// Interrupt Mask Clear
    INTMC,
    /// Controller Configuration
    CC,
    /// Controller Status
    CSTS,
    /// NVM Subsystem Reset
    NSSR,
    /// Admin Queue Attributes
    AQA,
}

impl NvmeRegs32 {
    /// Offset of the register from the start of the register region.
    pub open spec fn spec_offset(self) -> usize {
        match self {
            NvmeRegs32::VS => 0x8,
            NvmeRegs32::INTMS => 0xC,
            NvmeRegs32::INTMC => 0x10,
            NvmeRegs32::CC => 0x14,
            NvmeRegs32::CSTS => 0x1C,
            NvmeRegs32::NSSR => 0x20,
            NvmeRegs32::AQA => 0x24,
        }
    }

    pub fn offset(&self) -> (offset: usize)
        ensures
            offset == self.spec_offset(),
    {
        match self {
            NvmeRegs32::VS => 0x8,
            NvmeRegs32::INTMS => 0xC,
            NvmeRegs32::INTMC => 0x10,
            NvmeRegs32::CC => 0x14,
            NvmeRegs32::CSTS => 0x1C,
            NvmeRegs32::NSSR => 0x20,
            NvmeRegs32::AQA => 0x24,
        }
    }
}

/// The 64-bit registers of the controller.
#[derive(Copy, Clone, Debug, PartialEq, Eq, Structural)]
pub enum NvmeRegs64 {
    /// Controller Capabilities
    CAP,
    /// Admin Submission Queue Base Address
    ASQ,
    /// Admin Completion Queue Base Address
    ACQ,
}

impl NvmeRegs64 {
    /// Offset of the register from the start of the register region.
    pub open spec fn spec_offset(self) -> usize {
        match self {
            NvmeRegs64::CAP => 0x0,
            NvmeRegs64::ASQ => 0x28,
            NvmeRegs64::ACQ => 0x30,
        }
    }

    pub fn offset(&self) -> (offset: usize)
        ensures
            offset == self.spec_offset(),
    {
        match self {
            NvmeRegs64::CAP => 0x0,
            NvmeRegs64::ASQ => 0x28,
            NvmeRegs64::ACQ => 0x30,
        }
    }
}

/// The two doorbell registers of a queue pair.
#[derive(Copy, Clone, Debug, PartialEq, Eq, Structural)]
pub enum NvmeArrayRegs {
    /// Submission queue tail doorbell
    SQyTDBL,
    /// Completion queue head doorbell
    CQyHDBL,
}

/// The doorbell stride field of the capabilities register: bits 32 to 35.
pub open spec fn doorbell_stride_field(cap: u64) -> u16 {
    ((cap / 0x1_0000_0000) % 16) as u16
}

/// Largest number of entries a queue of the controller can have, as the
/// capabilities register gives it: bits 0 to 15, plus one.
pub open spec fn max_queue_entries(cap: u64) -> int {
    cap % 0x1_0000 + 1
}

/// Reads the largest number of entries a queue can have from the
/// capabilities register.
pub fn queue_entries(cap: u64) -> (entries: u32)
    ensures
        entries == max_queue_entries(cap),
{
    (cap % 0x1_0000) as u32 + 1
}

/// Offset of a doorbell from the start of the register region: doorbells
/// start at 0x1000 and lie `4 << dstrd` bytes apart, the tail doorbell of
/// the submission queue of a pair first, then the head doorbell of its
/// completion queue.
pub open spec fn doorbell_offset(dstrd: u16, reg: NvmeArrayRegs, qid: u16) -> int {
    0x1000 + 4 * pow2(dstrd as nat) * (2 * qid + match reg {
        NvmeArrayRegs::SQyTDBL => 0int,
        NvmeArrayRegs::CQyHDBL => 1int,
    })
}

/// Whether a register region of `len` bytes at host address `addr` reaches
/// up to the doorbells of queue pair `qid`.
pub open spec fn region_covers(addr: int, len: int, dstrd: u16, qid: u16) -> bool {
    addr + len <= usize::MAX && doorbell_offset(dstrd, NvmeArrayRegs::CQyHDBL, qid) + 4 <= len
}

/// The offset of a doorbell for a stride field of at most 15, as a machine
/// integer.
pub(super) fn doorbell_offset_of(dstrd: u16, reg: NvmeArrayRegs, qid: u16) -> (offset: u64)
    requires
        dstrd <= 15,
    ensures
        offset == doorbell_offset(dstrd, reg, qid),
        0x1000 <= offset <= 0x1000 + 0x2_0000 * 0x2_0000,
{
    proof {
        lemma2_to64();
        if dstrd < 15 {
            lemma_pow2_strictly_increases(dstrd as nat, 15);
        }
        lemma_u64_shl_is_mul(4, dstrd as u64);
    }
    let stride: u64 = 4u64 << (dstrd as u64);
    let index: u64 = 2 * (qid as u64) + match reg {
        NvmeArrayRegs::SQyTDBL => 0,
        NvmeArrayRegs::CQyHDBL => 1,
    };
    assert(stride * index <= 0x2_0000 * 0x2_0000) by (nonlinear_arith)
        requires
            stride <= 0x2_0000,
            index <= 0x2_0000,
    ;
    assert(stride * index == 4 * pow2(dstrd as nat) * index) by (nonlinear_arith)
        requires
            stride == 4 * pow2(dstrd as nat),
    ;
    0x1000 + stride * index
}

/// The doorbells lie in the order of their queue pairs, the one of the
/// submission queue before the one of the completion queue, and none lies
/// before offset 0x1000.
pub proof fn lemma_doorbell_order(dstrd: u16, qid: u16)
    ensures
        0x1000 <= doorbell_offset(dstrd, NvmeArrayRegs::SQyTDBL, 0),
        doorbell_offset(dstrd, NvmeArrayRegs::SQyTDBL, qid) + 4 <= doorbell_offset(
            dstrd,
            NvmeArrayRegs::CQyHDBL,
            qid,
        ),
        qid > 0 ==> doorbell_offset(dstrd, NvmeArrayRegs::CQyHDBL, (qid - 1) as u16) + 4
            <= doorbell_offset(dstrd, NvmeArrayRegs::SQyTDBL, qid),
{
    let stride = 4 * pow2(dstrd as nat);
    vstd::arithmetic::power2::lemma_pow2_pos(dstrd as nat);
    assert(stride * (2 * qid + 1) == stride * (2 * qid) + stride) by (nonlinear_arith);
    assert(stride * (2 * qid) >= 0) by (nonlinear_arith)
        requires
            stride >= 0,
    ;
    if qid > 0 {
        assert(stride * (2 * qid) == stride * (2 * (qid - 1) + 1) + stride) by (nonlinear_arith);
    }
}

/// One step of bringing the controller up. Addresses are host addresses
/// inside the register region.
#[derive(Copy, Clone, Debug, PartialEq, Eq, Structural)]
pub enum Step {
    /// Store `value` in the 32-bit register at `addr`.
    Write32 { addr: usize, value: u32 },
    /// Store `wide` in the 64-bit register at `addr`.
    Write64 { addr: usize, wide: u64 },
    /// Load the 32-bit register at `addr`, keep the bits of `keep`, set the
    /// bits of `set`, and store the result.
    Update32 { addr: usize, keep: u32, set: u32 },
    /// Load the 32-bit register at `addr` again and again until its bits
    /// under `mask` equal `value`.
    Await { addr: usize, mask: u32, value: u32 },
    /// Submit the admin command and wait for its completion.
    Admin(AdminRequest),
}

impl Step {
    /// What an update stores when it has loaded `loaded`.
    pub open spec fn spec_updated(keep: u32, set: u32, loaded: u32) -> u32 {
        (loaded & keep) | set
    }

    /// What an update stores when it has loaded `loaded`.
    pub fn updated(keep: u32, set: u32, loaded: u32) -> (stored: u32)
        ensures
            stored == Self::spec_updated(keep, set, loaded),
    {
        (loaded & keep) | set
    }

    /// Whether a wait is over when it has loaded `loaded`.
    pub fn reached(mask: u32, value: u32, loaded: u32) -> (over: bool)
        ensures
            over == (loaded & mask == value),
    {
        loaded & mask == value
    }
}

/// What the controller configuration register holds after each of the three
/// updates of bringing the controller up: disabling clears bit 0 and nothing
/// else; configuring puts 6 into bits 16 to 19 and 4 into bits 20 to 23 and
/// keeps bits 0 to 3 and 24 to 31; enabling sets bit 0 and nothing else.
pub proof fn lemma_configuration_updates(cc: u32)
    ensures
        Step::spec_updated(0xFFFF_FFFE, 0, cc) & 1 == 0,
        Step::spec_updated(0xFFFF_FFFE, 0, cc) | 1 == cc | 1,
        (Step::spec_updated(0xFF00_000F, 0x0046_0000, cc) >> 16) & 0xF == 6,
        (Step::spec_updated(0xFF00_000F, 0x0046_0000, cc) >> 20) & 0xF == 4,
        Step::spec_updated(0xFF00_000F, 0x0046_0000, cc) & 0xFF00_000F == cc & 0xFF00_000F,
        Step::spec_updated(0xFFFF_FFFF, 1, cc) & 1 == 1,
        Step::spec_updated(0xFFFF_FFFF, 1, cc) & 0xFFFF_FFFE == cc & 0xFFFF_FFFE,
{
    assert(((cc & 0xFFFF_FFFE) | 0) & 1 == 0 && ((cc & 0xFFFF_FFFE) | 0) | 1 == cc | 1)
        by (bit_vector);
    assert((((cc & 0xFF00_000F) | 0x0046_0000) >> 16) & 0xF == 6 && (((cc & 0xFF00_000F)
        | 0x0046_0000) >> 20) & 0xF == 4 && ((cc & 0xFF00_000F) | 0x0046_0000) & 0xFF00_000F == cc
        & 0xFF00_000F) by (bit_vector);
    assert(((cc & 0xFFFF_FFFF) | 1) & 1 == 1 && ((cc & 0xFFFF_FFFF) | 1) & 0xFFFF_FFFE == cc
        & 0xFFFF_FFFE) by (bit_vector);
}

} // verus!
