//! The controller: its registers, its queues, and the admin commands that
//! go through them.

use vstd::prelude::*;
use vstd::string::StringExecFns;
use std::collections::HashMap;
use crate::error::Error;
use crate::memory::{Dma, DmaView};
use crate::queues::{holds_entries, BusWrite, CompletionQueue, CompletionQueueView};
use crate::queues::{NvmeCompletion, SubmissionQueue, SubmissionQueueView, QUEUE_LENGTH};
use super::admin::AdminRequest;
use super::identify::NvmeNamespace;
use super::queue_pair::NvmeQueuePair;
use super::regs::{doorbell_offset, doorbell_offset_of, doorbell_stride_field};
use super::regs::{lemma_doorbell_order, region_covers};
use super::regs::{NvmeArrayRegs, NvmeRegs32, NvmeRegs64, Step};

verus! {

broadcast use vstd::std_specs::hash::group_hash_axioms;

/// How many commands were submitted and how many completed.
#[derive(Debug, Clone, Copy, PartialEq, Eq, Structural)]
pub struct NvmeStats {
    pub completions: u64,
    pub submissions: u64,
}

impl Default for NvmeStats {
    fn default() -> (stats: NvmeStats)
        ensures
            stats == (NvmeStats { completions: 0, submissions: 0 }),
    {
        NvmeStats { completions: 0, submissions: 0 }
    }
}

/// The memory a controller needs besides the data buffers of its users.
pub struct DeviceMemory {
    /// Receives what identify commands return; at least one page
    pub buffer: Dma,
    /// Holds the list of data pages of a transfer of more than two pages
    pub prp_list: Dma,
    pub admin_sq: Dma,
    pub admin_cq: Dma,
    pub io_sq: Dma,
    pub io_cq: Dma,
}

impl DeviceMemory {
    /// Every part is large enough: a page each for the identify data and
    /// for the page list, and room for queues of full length.
    pub open spec fn fits(self) -> bool {
        &&& self.buffer@.size >= 4096
        &&& self.prp_list@.size >= 4096
        &&& holds_entries(self.admin_sq@, QUEUE_LENGTH as int, 64)
        &&& holds_entries(self.admin_cq@, QUEUE_LENGTH as int, 16)
        &&& holds_entries(self.io_sq@, QUEUE_LENGTH as int, 64)
        &&& holds_entries(self.io_cq@, QUEUE_LENGTH as int, 16)
    }
}

/// A submission queue of full length that nothing was submitted to.
pub open spec fn fresh_sq(commands: DmaView, len: int, doorbell: int) -> SubmissionQueueView {
    SubmissionQueueView {
        commands,
        head: 0,
        tail: 0,
        len,
        doorbell: doorbell as usize,
        writes: Seq::empty(),
    }
}

/// A completion queue of full length that nothing has completed in.
pub open spec fn fresh_cq(commands: DmaView, len: int, doorbell: int) -> CompletionQueueView {
    CompletionQueueView {
        commands,
        entries: Seq::new(len as nat, |i: int| NvmeCompletion::zero()),
        head: 0,
        phase: true,
        len,
        doorbell: doorbell as usize,
        writes: Seq::empty(),
    }
}

/// What an [`NvmeDevice`] stands for.
pub struct NvmeDeviceView {
    pub pci_addr: Seq<char>,
    /// Host address of the register region
    pub addr: int,
    /// Length of the register region in bytes
    pub len: int,
    /// Doorbell stride field of the controller
    pub dstrd: u16,
    pub admin_sq: SubmissionQueueView,
    pub admin_cq: CompletionQueueView,
    pub io_sq: SubmissionQueueView,
    pub io_cq: CompletionQueueView,
    pub buffer: DmaView,
    pub prp_list: DmaView,
    pub namespaces: Map<u32, NvmeNamespace>,
    pub stats: NvmeStats,
    /// Identifier of the next queue pair to be created
    pub q_id: u16,
    /// Stores into the page list owed to the controller, oldest first
    pub writes: Seq<BusWrite>,
}

impl NvmeDeviceView {
    /// Host address of a register.
    pub open spec fn reg32(self, reg: NvmeRegs32) -> usize {
        (self.addr + reg.spec_offset()) as usize
    }

    /// Host address of a register.
    pub open spec fn reg64(self, reg: NvmeRegs64) -> usize {
        (self.addr + reg.spec_offset()) as usize
    }

    /// What brings the controller up, step by step: disable it and wait
    /// until it is no longer ready; tell it where the admin queues lie and
    /// how long they are; set the entry sizes, 64 bytes for submissions and
    /// 16 for completions; enable it and wait until it is ready; have it
    /// create the completion queue and then the submission queue of the
    /// default I/O queue pair.
    pub open spec fn enable_steps(self) -> Seq<Step> {
        seq![
            Step::Update32 { addr: self.reg32(NvmeRegs32::CC), keep: 0xFFFF_FFFE, set: 0 },
            Step::Await { addr: self.reg32(NvmeRegs32::CSTS), mask: 1, value: 0 },
            Step::Write64 { addr: self.reg64(NvmeRegs64::ASQ), wide: self.admin_sq.commands.phys as u64 },
            Step::Write64 { addr: self.reg64(NvmeRegs64::ACQ), wide: self.admin_cq.commands.phys as u64 },
            Step::Write32 {
                addr: self.reg32(NvmeRegs32::AQA),
                value: ((self.admin_cq.len - 1) * 0x1_0000 + (self.admin_sq.len - 1)) as u32,
            },
            Step::Update32 { addr: self.reg32(NvmeRegs32::CC), keep: 0xFF00_000F, set: 0x0046_0000 },
            Step::Update32 { addr: self.reg32(NvmeRegs32::CC), keep: 0xFFFF_FFFF, set: 1 },
            Step::Await { addr: self.reg32(NvmeRegs32::CSTS), mask: 1, value: 1 },
            Step::Admin(
                AdminRequest::CreateIoCompletionQueue {
                    q_id: 1,
                    addr: self.io_cq.commands.phys as usize,
                    size: (self.io_cq.len - 1) as u16,
                },
            ),
            Step::Admin(
                AdminRequest::CreateIoSubmissionQueue {
                    q_id: 1,
                    addr: self.io_sq.commands.phys as usize,
                    size: (self.io_sq.len - 1) as u16,
                    cq_id: 1,
                },
            ),
        ]
    }

    /// Every store owed to the controller: first those into the page list,
    /// then those of the admin queues, then those of the I/O queues.
    pub open spec fn all_writes(self) -> Seq<BusWrite> {
        self.writes + self.admin_sq.writes + self.admin_cq.writes + self.io_sq.writes
            + self.io_cq.writes
    }
}

/// Where the registers lie and which memory the controller has for itself.
pub(crate) struct Core {
    pub(crate) addr: usize,
    pub(crate) len: usize,
    pub(crate) dstrd: u16,
    pub(crate) buffer: Dma,
    pub(crate) prp_list: Dma,
    pub(crate) q_id: u16,
}

impl Core {
    #[verifier::type_invariant]
    pub(crate) open spec fn inv(self) -> bool {
        &&& self.dstrd <= 15
        &&& region_covers(self.addr as int, self.len as int, self.dstrd, 1)
        &&& self.buffer@.size >= 4096
        &&& self.prp_list@.size >= 4096
    }
}

/// A controller: its registers, its admin queue pair, its default I/O queue
/// pair and what identify told about its namespaces.
pub struct NvmeDevice {
    pub pci_addr: String,
    pub(crate) core: Core,
    pub admin_sq: SubmissionQueue,
    pub admin_cq: CompletionQueue,
    pub io_sq: SubmissionQueue,
    pub io_cq: CompletionQueue,
    pub namespaces: HashMap<u32, NvmeNamespace>,
    pub stats: NvmeStats,
    pub(crate) writes: Vec<BusWrite>,
}

impl View for NvmeDevice {
    type V = NvmeDeviceView;

    open(crate) spec fn view(&self) -> NvmeDeviceView {
        NvmeDeviceView {
            pci_addr: self.pci_addr@,
            addr: self.core.addr as int,
            len: self.core.len as int,
            dstrd: self.core.dstrd,
            admin_sq: self.admin_sq@,
            admin_cq: self.admin_cq@,
            io_sq: self.io_sq@,
            io_cq: self.io_cq@,
            buffer: self.core.buffer@,
            prp_list: self.core.prp_list@,
            namespaces: self.namespaces@,
            stats: self.stats,
            q_id: self.core.q_id,
            writes: self.writes@,
        }
    }
}

impl NvmeDevice {
    /// Describes the controller whose registers are mapped at host address
    /// `addr` for `len` bytes and whose capabilities register holds `cap`,
    /// with the memory `memory` for its queues and pages.
    ///
    /// The queues have full length. Queue pair 0 is the admin pair, queue
    /// pair 1 the default I/O pair; the next pair to be created gets
    /// identifier 2. A register region that does not reach up to the
    /// doorbells of queue pair 1 is refused as a backend error, memory that
    /// is too small as a DMA error.
    pub fn init(pci_addr: &str, addr: usize, len: usize, cap: u64, memory: DeviceMemory) -> (device:
        Result<NvmeDevice, Error>)
        ensures
            match device {
                Ok(dev) => {
                    let dstrd = doorbell_stride_field(cap);
                    &&& region_covers(addr as int, len as int, dstrd, 1)
                    &&& memory.fits()
                    &&& dev@ == (NvmeDeviceView {
                        pci_addr: pci_addr@,
                        addr: addr as int,
                        len: len as int,
                        dstrd,
                        admin_sq: fresh_sq(
                            memory.admin_sq@,
                            QUEUE_LENGTH as int,
                            addr + doorbell_offset(dstrd, NvmeArrayRegs::SQyTDBL, 0),
                        ),
                        admin_cq: fresh_cq(
                            memory.admin_cq@,
                            QUEUE_LENGTH as int,
                            addr + doorbell_offset(dstrd, NvmeArrayRegs::CQyHDBL, 0),
                        ),
                        io_sq: fresh_sq(
                            memory.io_sq@,
                            QUEUE_LENGTH as int,
                            addr + doorbell_offset(dstrd, NvmeArrayRegs::SQyTDBL, 1),
                        ),
                        io_cq: fresh_cq(
                            memory.io_cq@,
                            QUEUE_LENGTH as int,
                            addr + doorbell_offset(dstrd, NvmeArrayRegs::CQyHDBL, 1),
                        ),
                        buffer: memory.buffer@,
                        prp_list: memory.prp_list@,
                        namespaces: Map::empty(),
                        stats: NvmeStats { completions: 0, submissions: 0 },
                        q_id: 2,
                        writes: Seq::empty(),
                    })
                },
                Err(e) => if region_covers(
                    addr as int,
                    len as int,
                    doorbell_stride_field(cap),
                    1,
                ) {
                    e matches Error::Allocation(_) && !memory.fits()
                } else {
                    e matches Error::Mmio(_)
                },
            },
    {
        let dstrd: u16 = ((cap / 0x1_0000_0000) % 16) as u16;
        let last = doorbell_offset_of(dstrd, NvmeArrayRegs::CQyHDBL, 1);
        if len > usize::MAX - addr || (len as u64) < last + 4 {
            return Err(Error::mmio("the register region does not reach the doorbells"));
        }
        if memory.buffer.size() < 4096 || memory.prp_list.size() < 4096 {
            return Err(Error::allocation("the controller needs a page for data and one for lists"));
        }
        proof {
            lemma_doorbell_order(dstrd, 0);
            lemma_doorbell_order(dstrd, 1);
        }
        let sq0 = doorbell_offset_of(dstrd, NvmeArrayRegs::SQyTDBL, 0);
        let cq0 = doorbell_offset_of(dstrd, NvmeArrayRegs::CQyHDBL, 0);
        let sq1 = doorbell_offset_of(dstrd, NvmeArrayRegs::SQyTDBL, 1);
        let admin_sq = match SubmissionQueue::new(memory.admin_sq, QUEUE_LENGTH, addr + sq0 as usize) {
            Ok(queue) => queue,
            Err(e) => {
                return Err(e);
            },
        };
        let admin_cq = match CompletionQueue::new(memory.admin_cq, QUEUE_LENGTH, addr + cq0 as usize) {
            Ok(queue) => queue,
            Err(e) => {
                return Err(e);
            },
        };
        let io_sq = match SubmissionQueue::new(memory.io_sq, QUEUE_LENGTH, addr + sq1 as usize) {
            Ok(queue) => queue,
            Err(e) => {
                return Err(e);
            },
        };
        let io_cq = match CompletionQueue::new(memory.io_cq, QUEUE_LENGTH, addr + last as usize) {
            Ok(queue) => queue,
            Err(e) => {
                return Err(e);
            },
        };
        proof {
            assert(admin_cq@.entries =~= fresh_cq(
                memory.admin_cq@,
                QUEUE_LENGTH as int,
                addr + cq0,
            ).entries);
            assert(io_cq@.entries =~= fresh_cq(
                memory.io_cq@,
                QUEUE_LENGTH as int,
                addr + last,
            ).entries);
        }
        Ok(
            NvmeDevice {
                pci_addr: String::from_str(pci_addr),
                core: Core {
                    addr,
                    len,
                    dstrd,
                    buffer: memory.buffer,
                    prp_list: memory.prp_list,
                    q_id: 2,
                },
                admin_sq,
                admin_cq,
                io_sq,
                io_cq,
                namespaces: HashMap::new(),
                stats: NvmeStats::default(),
                writes: Vec::new(),
            },
        )
    }

    /// Host address of the register region.
    pub fn addr(&self) -> (addr: usize)
        ensures
            addr == self@.addr,
    {
        self.core.addr
    }

    /// Length of the register region in bytes.
    pub fn len(&self) -> (len: usize)
        ensures
            len == self@.len,
    {
        self.core.len
    }

    /// The memory that receives what identify commands return.
    pub fn buffer(&self) -> (buffer: Dma)
        ensures
            buffer@ == self@.buffer,
            buffer@.size >= 4096,
    {
        proof {
            use_type_invariant(&self.core);
        }
        self.core.buffer
    }

    /// The memory that holds the list of data pages of a large transfer.
    pub fn prp_list(&self) -> (list: Dma)
        ensures
            list@ == self@.prp_list,
            list@.size >= 4096,
    {
        proof {
            use_type_invariant(&self.core);
        }
        self.core.prp_list
    }

    /// The store that sets a doorbell of queue pair `qid` to `val`, unless
    /// the doorbell lies outside the register region.
    pub fn write_reg_idx(&self, reg: NvmeArrayRegs, qid: u16, val: u32) -> (write: Option<
        BusWrite,
    >)
        ensures
            write == (if doorbell_offset(self@.dstrd, reg, qid) + 4 <= self@.len {
                Some(
                    BusWrite::Doorbell {
                        addr: (self@.addr + doorbell_offset(self@.dstrd, reg, qid)) as usize,
                        value: val,
                    },
                )
            } else {
                None
            }),
    {
        proof {
            use_type_invariant(&self.core);
        }
        let offset = doorbell_offset_of(self.core.dstrd, reg, qid);
        if offset + 4 <= self.core.len as u64 {
            Some(BusWrite::Doorbell { addr: self.core.addr + offset as usize, value: val })
        } else {
            None
        }
    }

    /// The steps that bring the controller up, in the order in which they
    /// are to be taken. A step that fails ends the sequence.
    pub fn enable_sequence(&self) -> (steps: Vec<Step>)
        ensures
            steps@ == self@.enable_steps(),
    {
        proof {
            use_type_invariant(&self.core);
            lemma_doorbell_order(self.core.dstrd, 1);
        }
        let base = self.core.addr;
        let cc = base + NvmeRegs32::CC.offset();
        let csts = base + NvmeRegs32::CSTS.offset();
        let asq_len = self.admin_sq.len();
        let acq_len = self.admin_cq.len();
        let io_sq_len = self.io_sq.len();
        let io_cq_len = self.io_cq.len();
        let mut steps: Vec<Step> = Vec::new();
        steps.push(Step::Update32 { addr: cc, keep: 0xFFFF_FFFE, set: 0 });
        steps.push(Step::Await { addr: csts, mask: 1, value: 0 });
        steps.push(
            Step::Write64 {
                addr: base + NvmeRegs64::ASQ.offset(),
                wide: self.admin_sq.get_addr() as u64,
            },
        );
        steps.push(
            Step::Write64 {
                addr: base + NvmeRegs64::ACQ.offset(),
                wide: self.admin_cq.get_addr() as u64,
            },
        );
        steps.push(
            Step::Write32 {
                addr: base + NvmeRegs32::AQA.offset(),
                value: ((acq_len - 1) * 0x1_0000 + (asq_len - 1)) as u32,
            },
        );
        steps.push(Step::Update32 { addr: cc, keep: 0xFF00_000F, set: 0x0046_0000 });
        steps.push(Step::Update32 { addr: cc, keep: 0xFFFF_FFFF, set: 1 });
        steps.push(Step::Await { addr: csts, mask: 1, value: 1 });
        steps.push(
            Step::Admin(
                AdminRequest::CreateIoCompletionQueue {
                    q_id: 1,
                    addr: self.io_cq.get_addr(),
                    size: (io_cq_len - 1) as u16,
                },
            ),
        );
        steps.push(
            Step::Admin(
                AdminRequest::CreateIoSubmissionQueue {
                    q_id: 1,
                    addr: self.io_sq.get_addr(),
                    size: (io_sq_len - 1) as u16,
                    cq_id: 1,
                },
            ),
        );
        assert(steps@ =~= self@.enable_steps());
        steps
    }

    /// Places the command for `request` in the admin queue and announces it
    /// to the controller. The command gets the slot it is placed in as its
    /// identifier, and data it returns goes to the buffer of the controller.
    ///
    /// A full admin queue is a configuration error and leaves everything as
    /// it was.
    pub fn submit_admin(&mut self, request: AdminRequest) -> (submitted: Result<(), Error>)
        ensures
            match submitted {
                Ok(()) => {
                    &&& !old(self)@.admin_sq.is_full()
                    &&& final(self)@ == (NvmeDeviceView {
                        admin_sq: old(self)@.admin_sq.submit(
                            request.spec_command(
                                old(self)@.admin_sq.tail as u16,
                                old(self)@.buffer.phys as usize,
                            ),
                        ).ring(),
                        ..old(self)@
                    })
                },
                Err(e) => {
                    &&& old(self)@.admin_sq.is_full()
                    &&& final(self)@ == old(self)@
                    &&& e matches Error::Vroom(_)
                },
            },
    {
        let cid = self.admin_sq.tail();
        let cmd = request.command(cid as u16, self.core.buffer.phys());
        match self.admin_sq.submit_checked(cmd) {
            Some(_) => {
                self.admin_sq.ring();
                Ok(())
            },
            None => Err(Error::config("the admin queue is full")),
        }
    }

    /// Takes the completion of an admin command, which must be there,
    /// announces the new head to the controller and takes note of how far
    /// the controller has read the admin submission queue.
    ///
    /// Returns the completion entry, or the failure it reports.
    pub fn complete_admin(&mut self) -> (done: Result<NvmeCompletion, Error>)
        requires
            old(self)@.admin_cq.ready(),
        ensures
            final(self)@ == (NvmeDeviceView {
                admin_cq: old(self)@.admin_cq.complete().ring(),
                admin_sq: old(self)@.admin_sq.acknowledge(
                    old(self)@.admin_cq.entries[old(self)@.admin_cq.head].sq_head,
                ),
                ..old(self)@
            }),
            done == ({
                let entry = old(self)@.admin_cq.entries[old(self)@.admin_cq.head];
                if entry.spec_status_field() == 0 {
                    Ok(entry)
                } else {
                    Err(
                        Error::Device {
                            status_code: entry.spec_status_code() as u8,
                            status_code_type: entry.spec_status_code_type() as u8,
                        },
                    )
                }
            }),
    {
        let (_, entry, _) = self.admin_cq.complete_spin();
        self.admin_cq.ring();
        self.admin_sq.acknowledge(entry.sq_head);
        match entry.error() {
            Some(error) => Err(error),
            None => Ok(entry),
        }
    }

    /// Hands out every store owed to the controller, in the order in which
    /// the stores are to be performed: those into the page list first, then
    /// those of the admin queues, then those of the I/O queues.
    pub fn take_writes(&mut self) -> (writes: Vec<BusWrite>)
        ensures
            writes@ == old(self)@.all_writes(),
            final(self)@ == (NvmeDeviceView {
                writes: Seq::empty(),
                admin_sq: SubmissionQueueView { writes: Seq::empty(), ..old(self)@.admin_sq },
                admin_cq: CompletionQueueView { writes: Seq::empty(), ..old(self)@.admin_cq },
                io_sq: SubmissionQueueView { writes: Seq::empty(), ..old(self)@.io_sq },
                io_cq: CompletionQueueView { writes: Seq::empty(), ..old(self)@.io_cq },
                ..old(self)@
            }),
    {
        let mut writes: Vec<BusWrite> = Vec::new();
        std::mem::swap(&mut writes, &mut self.writes);
        let mut more = self.admin_sq.take_writes();
        writes.append(&mut more);
        let mut more = self.admin_cq.take_writes();
        writes.append(&mut more);
        let mut more = self.io_sq.take_writes();
        writes.append(&mut more);
        let mut more = self.io_cq.take_writes();
        writes.append(&mut more);
        writes
    }

    /// The request that formats namespace `ns_id`, or all namespaces if
    /// none is named. A namespace that identify has not told about is a
    /// configuration error.
    pub fn format_namespace(&self, ns_id: Option<u32>) -> (request: Result<AdminRequest, Error>)
        ensures
            match ns_id {
                Some(id) => if self@.namespaces.contains_key(id) {
                    request == Ok::<AdminRequest, Error>(AdminRequest::FormatNvm { ns_id: id })
                } else {
                    request matches Err(Error::Vroom(_))
                },
                None => request == Ok::<AdminRequest, Error>(
                    AdminRequest::FormatNvm { ns_id: 0xFFFF_FFFF },
                ),
            },
    {
        match ns_id {
            Some(id) => {
                if self.namespaces.contains_key(&id) {
                    Ok(AdminRequest::FormatNvm { ns_id: id })
                } else {
                    Err(Error::config("the namespace is not known"))
                }
            },
            None => Ok(AdminRequest::FormatNvm { ns_id: 0xFFFF_FFFF }),
        }
    }

    /// Identifier of the next queue pair to be created.
    pub fn next_queue_id(&self) -> (q_id: u16)
        ensures
            q_id == self@.q_id,
    {
        self.core.q_id
    }

    /// Prepares a queue pair of `len` entries, at most [`QUEUE_LENGTH`],
    /// with the rings in the memory `sq_memory` and `cq_memory`. The pair
    /// gets the next free identifier and the doorbells that belong to it.
    ///
    /// Returns the pair and the two requests that make the controller create
    /// it, the completion queue first. Once both have completed,
    /// [`Self::queue_pair_created`] uses the identifier up.
    ///
    /// Doorbells outside the register region are a backend error, a length
    /// of zero or no identifier left a configuration error, memory too small
    /// for the rings a DMA error.
    pub fn create_io_queue_pair(&self, len: usize, sq_memory: Dma, cq_memory: Dma) -> (created:
        Result<(NvmeQueuePair, Vec<AdminRequest>), Error>)
        ensures
            match created {
                Ok((pair, requests)) => {
                    let q_id = self@.q_id;
                    &&& q_id < 0xFFFF
                    &&& len >= 1
                    &&& region_covers(self@.addr, self@.len, self@.dstrd, q_id)
                    &&& pair.id == q_id
                    &&& pair.sub_queue@ == fresh_sq(
                        sq_memory@,
                        crate::queues::queue_len(len as int),
                        self@.addr + doorbell_offset(self@.dstrd, NvmeArrayRegs::SQyTDBL, q_id),
                    )
                    &&& pair.comp_queue@ == fresh_cq(
                        cq_memory@,
                        crate::queues::queue_len(len as int),
                        self@.addr + doorbell_offset(self@.dstrd, NvmeArrayRegs::CQyHDBL, q_id),
                    )
                    &&& requests@ == seq![
                        AdminRequest::CreateIoCompletionQueue {
                            q_id,
                            addr: cq_memory@.phys as usize,
                            size: (crate::queues::queue_len(len as int) - 1) as u16,
                        },
                        AdminRequest::CreateIoSubmissionQueue {
                            q_id,
                            addr: sq_memory@.phys as usize,
                            size: (crate::queues::queue_len(len as int) - 1) as u16,
                            cq_id: q_id,
                        },
                    ]
                },
                Err(e) => if self@.q_id == 0xFFFF || len == 0 {
                    e matches Error::Vroom(_)
                } else if !region_covers(self@.addr, self@.len, self@.dstrd, self@.q_id) {
                    e matches Error::Mmio(_)
                } else {
                    &&& e matches Error::Allocation(_)
                    &&& !holds_entries(cq_memory@, crate::queues::queue_len(len as int), 16)
                        || !holds_entries(sq_memory@, crate::queues::queue_len(len as int), 64)
                },
            },
    {
        proof {
            use_type_invariant(&self.core);
        }
        let q_id = self.core.q_id;
        if q_id == 0xFFFF {
            return Err(Error::config("no queue identifier is left"));
        }
        if len == 0 {
            return Err(Error::config("a queue needs at least one entry"));
        }
        proof {
            lemma_doorbell_order(self.core.dstrd, q_id);
        }
        let cq_offset = doorbell_offset_of(self.core.dstrd, NvmeArrayRegs::CQyHDBL, q_id);
        if cq_offset + 4 > self.core.len as u64 {
            return Err(Error::mmio("the doorbells lie outside the register region"));
        }
        let sq_offset = doorbell_offset_of(self.core.dstrd, NvmeArrayRegs::SQyTDBL, q_id);
        let comp_queue = match CompletionQueue::new(
            cq_memory,
            len,
            self.core.addr + cq_offset as usize,
        ) {
            Ok(queue) => queue,
            Err(e) => {
                return Err(e);
            },
        };
        let sub_queue = match SubmissionQueue::new(
            sq_memory,
            len,
            self.core.addr + sq_offset as usize,
        ) {
            Ok(queue) => queue,
            Err(e) => {
                return Err(e);
            },
        };
        let size: u16 = (comp_queue.len() - 1) as u16;
        let mut requests: Vec<AdminRequest> = Vec::new();
        requests.push(
            AdminRequest::CreateIoCompletionQueue { q_id, addr: comp_queue.get_addr(), size },
        );
        requests.push(
            AdminRequest::CreateIoSubmissionQueue {
                q_id,
                addr: sub_queue.get_addr(),
                size,
                cq_id: q_id,
            },
        );
        proof {
            assert(comp_queue@.entries =~= fresh_cq(
                cq_memory@,
                crate::queues::queue_len(len as int),
                self@.addr + doorbell_offset(self@.dstrd, NvmeArrayRegs::CQyHDBL, q_id),
            ).entries);
        }
        Ok((NvmeQueuePair { id: q_id, sub_queue, comp_queue }, requests))
    }

    /// Takes note that the controller has created `qpair`: its identifier
    /// is used up, and the next pair gets the one after it. A pair that
    /// does not carry the next free identifier changes nothing.
    pub fn queue_pair_created(&mut self, qpair: &NvmeQueuePair)
        ensures
            final(self)@ == (if qpair.id == old(self)@.q_id && qpair.id < 0xFFFF {
                NvmeDeviceView { q_id: (old(self)@.q_id + 1) as u16, ..old(self)@ }
            } else {
                old(self)@
            }),
    {
        proof {
            use_type_invariant(&self.core);
        }
        if qpair.id == self.core.q_id && qpair.id < 0xFFFF {
            self.core.q_id = self.core.q_id + 1;
        }
    }

    /// The two requests that make the controller delete `qpair`, the
    /// submission queue first. Once both have completed, the memory of the
    /// two rings can be given back.
    pub fn delete_io_queue_pair(&self, qpair: &NvmeQueuePair) -> (requests: Vec<AdminRequest>)
        ensures
            requests@ == seq![
                AdminRequest::DeleteIoSubmissionQueue { q_id: qpair.id },
                AdminRequest::DeleteIoCompletionQueue { q_id: qpair.id },
            ],
    {
        let mut requests: Vec<AdminRequest> = Vec::new();
        requests.push(AdminRequest::DeleteIoSubmissionQueue { q_id: qpair.id });
        requests.push(AdminRequest::DeleteIoCompletionQueue { q_id: qpair.id });
        requests
    }
}

} // verus!
