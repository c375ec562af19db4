//! The submission queue: the ring in which the host places commands.

use vstd::prelude::*;
use vstd::arithmetic::div_mod::lemma_fundamental_div_mod_converse;
use crate::cmd::NvmeCommand;
use crate::error::Error;
use crate::memory::{Dma, DmaView};
use super::{holds_entries, queue_len, BusWrite, QUEUE_LENGTH, SUBMISSION_ENTRY_SIZE};

verus! {

/// What a [`SubmissionQueue`] stands for.
pub struct SubmissionQueueView {
    /// The memory that holds the ring
    pub commands: DmaView,
    /// First slot the controller has not yet taken
    pub head: int,
    /// Next slot to write
    pub tail: int,
    /// Number of slots
    pub len: int,
    /// Host address of the tail doorbell
    pub doorbell: usize,
    /// Stores owed to the controller, oldest first
    pub writes: Seq<BusWrite>,
}

impl SubmissionQueueView {
    /// Both indices lie in the ring, and the ring lies in its memory.
    pub open spec fn wf(self) -> bool {
        &&& 1 <= self.len <= QUEUE_LENGTH
        &&& 0 <= self.head < self.len
        &&& 0 <= self.tail < self.len
        &&& holds_entries(self.commands, self.len, 64)
    }

    pub open spec fn is_empty(self) -> bool {
        self.head == self.tail
    }

    /// No entry can be submitted: the next tail would meet the head.
    pub open spec fn is_full(self) -> bool {
        self.head == (self.tail + 1) % self.len
    }

    /// How many entries can be submitted before the queue is full.
    pub open spec fn free(self) -> int {
        (self.head - self.tail - 1) % self.len
    }

    /// Host address of slot `slot`.
    pub open spec fn slot_addr(self, slot: int) -> int {
        self.commands.virt + 64 * slot
    }

    /// The queue after `entry` went into the slot at the tail.
    pub open spec fn submit(self, entry: NvmeCommand) -> SubmissionQueueView {
        SubmissionQueueView {
            tail: (self.tail + 1) % self.len,
            writes: self.writes.push(
                BusWrite::Command { addr: self.slot_addr(self.tail) as usize, command: entry },
            ),
            ..self
        }
    }

    /// The queue after its tail was announced to the controller.
    pub open spec fn ring(self) -> SubmissionQueueView {
        SubmissionQueueView {
            writes: self.writes.push(
                BusWrite::Doorbell { addr: self.doorbell, value: self.tail as u32 },
            ),
            ..self
        }
    }

    /// The queue after the controller reported to have read up to
    /// `sq_head`; a report that points outside the ring is ignored.
    pub open spec fn acknowledge(self, sq_head: u16) -> SubmissionQueueView {
        if sq_head < self.len {
            SubmissionQueueView { head: sq_head as int, ..self }
        } else {
            self
        }
    }
}

/// Where a submission ring lies and how far it has come.
struct SubmissionRing {
    commands: Dma,
    head: usize,
    tail: usize,
    len: usize,
}

impl SubmissionRing {
    #[verifier::type_invariant]
    spec fn inv(self) -> bool {
        &&& 1 <= self.len <= QUEUE_LENGTH
        &&& self.head < self.len
        &&& self.tail < self.len
        &&& holds_entries(self.commands@, self.len as int, 64)
    }
}

/// Submission queue: the ring in which the host places commands.
pub struct SubmissionQueue {
    ring: SubmissionRing,
    doorbell: usize,
    writes: Vec<BusWrite>,
}

impl View for SubmissionQueue {
    type V = SubmissionQueueView;

    closed spec fn view(&self) -> SubmissionQueueView {
        SubmissionQueueView {
            commands: self.ring.commands@,
            head: self.ring.head as int,
            tail: self.ring.tail as int,
            len: self.ring.len as int,
            doorbell: self.doorbell,
            writes: self.writes@,
        }
    }
}

impl SubmissionQueue {
    /// A queue of `len` entries, at most [`QUEUE_LENGTH`], in the memory
    /// `commands`, with its tail doorbell at host address `doorbell`.
    ///
    /// A queue without entries is refused as a configuration error, memory
    /// too small for the entries as a DMA error.
    pub fn new(commands: Dma, len: usize, doorbell: usize) -> (queue: Result<
        SubmissionQueue,
        Error,
    >)
        ensures
            match queue {
                Ok(q) => {
                    &&& len >= 1
                    &&& holds_entries(commands@, queue_len(len as int), 64)
                    &&& q@ == (SubmissionQueueView {
                        commands: commands@,
                        head: 0,
                        tail: 0,
                        len: queue_len(len as int),
                        doorbell,
                        writes: Seq::empty(),
                    })
                    &&& q@.wf()
                },
                Err(e) => if len == 0 {
                    e matches Error::Vroom(_)
                } else {
                    e matches Error::Allocation(_) && !holds_entries(
                        commands@,
                        queue_len(len as int),
                        64,
                    )
                },
            },
    {
        if len == 0 {
            return Err(Error::config("a queue needs at least one entry"));
        }
        let len: usize = if len <= QUEUE_LENGTH {
            len
        } else {
            QUEUE_LENGTH
        };
        if commands.size() / SUBMISSION_ENTRY_SIZE < len {
            return Err(Error::allocation("the memory is too small for the submission queue"));
        }
        Ok(
            SubmissionQueue {
                ring: SubmissionRing { commands, head: 0, tail: 0, len },
                doorbell,
                writes: Vec::new(),
            },
        )
    }

    /// First slot the controller has not yet taken.
    pub fn head(&self) -> (head: usize)
        ensures
            head == self@.head,
            self@.wf(),
    {
        proof {
            use_type_invariant(&self.ring);
        }
        self.ring.head
    }

    /// Next slot to write.
    pub fn tail(&self) -> (tail: usize)
        ensures
            tail == self@.tail,
            self@.wf(),
    {
        proof {
            use_type_invariant(&self.ring);
        }
        self.ring.tail
    }

    /// Number of slots.
    pub fn len(&self) -> (len: usize)
        ensures
            len == self@.len,
            self@.wf(),
    {
        proof {
            use_type_invariant(&self.ring);
        }
        self.ring.len
    }

    /// Host address of the tail doorbell.
    pub fn doorbell(&self) -> (addr: usize)
        ensures
            addr == self@.doorbell,
    {
        self.doorbell
    }

    /// The memory that holds the ring.
    pub fn commands(&self) -> (region: Dma)
        ensures
            region@ == self@.commands,
    {
        self.ring.commands
    }

    pub fn is_empty(&self) -> (empty: bool)
        ensures
            empty == self@.is_empty(),
    {
        self.ring.head == self.ring.tail
    }

    pub fn is_full(&self) -> (full: bool)
        ensures
            full == self@.is_full(),
            self@.wf(),
    {
        proof {
            use_type_invariant(&self.ring);
        }
        self.ring.head == (self.ring.tail + 1) % self.ring.len
    }

    /// How many entries can be submitted before the queue is full.
    pub fn free(&self) -> (slots: usize)
        ensures
            slots == self@.free(),
            self@.wf(),
    {
        proof {
            use_type_invariant(&self.ring);
            let d = self.ring.head - self.ring.tail - 1;
            if d >= 0 {
                lemma_fundamental_div_mod_converse(d, self.ring.len as int, 0, d);
            } else {
                lemma_fundamental_div_mod_converse(d, self.ring.len as int, -1, d + self.ring.len);
            }
        }
        if self.ring.head > self.ring.tail {
            self.ring.head - self.ring.tail - 1
        } else {
            self.ring.len - 1 - (self.ring.tail - self.ring.head)
        }
    }

    /// Places `entry` in the slot at the tail unless the queue is full, and
    /// returns the new tail.
    pub fn submit_checked(&mut self, entry: NvmeCommand) -> (tail: Option<usize>)
        ensures
            old(self)@.wf(),
            final(self)@.wf(),
            match tail {
                Some(t) => {
                    &&& !old(self)@.is_full()
                    &&& final(self)@ == old(self)@.submit(entry)
                    &&& t == (old(self)@.tail + 1) % old(self)@.len
                    &&& t == final(self)@.tail
                    &&& t != final(self)@.head
                },
                None => old(self)@.is_full() && final(self)@ == old(self)@,
            },
    {
        if self.is_full() {
            None
        } else {
            Some(self.submit(entry))
        }
    }

    /// Places `entry` in the slot at the tail and returns the new tail. The
    /// queue must not be full.
    pub fn submit(&mut self, entry: NvmeCommand) -> (tail: usize)
        requires
            !old(self)@.is_full(),
        ensures
            old(self)@.wf(),
            final(self)@.wf(),
            final(self)@ == old(self)@.submit(entry),
            tail == (old(self)@.tail + 1) % old(self)@.len,
            tail == final(self)@.tail,
            tail != final(self)@.head,
    {
        proof {
            use_type_invariant(&self.ring);
        }
        let virt = self.ring.commands.virt();
        assert(64 * self.ring.tail + 64 <= 64 * self.ring.len) by (nonlinear_arith)
            requires
                self.ring.tail < self.ring.len,
        ;
        let addr: usize = virt + SUBMISSION_ENTRY_SIZE * self.ring.tail;
        self.writes.push(BusWrite::Command { addr, command: entry });
        self.ring.tail = (self.ring.tail + 1) % self.ring.len;
        self.ring.tail
    }

    /// I/O address of the ring.
    pub fn get_addr(&self) -> (addr: usize)
        ensures
            addr == self@.commands.phys,
    {
        self.ring.commands.phys()
    }

    /// Announces the tail to the controller: everything from the head up to
    /// the tail is ready to be read.
    pub fn ring(&mut self)
        ensures
            final(self)@ == old(self)@.ring(),
            final(self)@.wf(),
    {
        proof {
            use_type_invariant(&self.ring);
        }
        self.writes.push(BusWrite::Doorbell { addr: self.doorbell, value: self.ring.tail as u32 });
    }

    /// Takes note that the controller has read the ring up to `sq_head`, as
    /// a completion entry reports it. A report that points outside the ring
    /// is ignored.
    pub fn acknowledge(&mut self, sq_head: u16)
        ensures
            final(self)@ == old(self)@.acknowledge(sq_head),
            final(self)@.wf(),
    {
        proof {
            use_type_invariant(&self.ring);
        }
        if (sq_head as usize) < self.ring.len {
            self.ring.head = sq_head as usize;
        }
    }

    /// Hands out the stores owed to the controller, oldest first. They are
    /// to be performed in this order.
    pub fn take_writes(&mut self) -> (writes: Vec<BusWrite>)
        ensures
            writes@ == old(self)@.writes,
            final(self)@ == (SubmissionQueueView { writes: Seq::empty(), ..old(self)@ }),
            final(self)@.wf(),
    {
        proof {
            use_type_invariant(&self.ring);
        }
        let mut writes: Vec<BusWrite> = Vec::new();
        std::mem::swap(&mut writes, &mut self.writes);
        writes
    }
}

/// A submission moves the tail one slot on, never onto the head, and uses up
/// one free slot; the queue is full exactly when no slot is free, and an
/// empty queue has all slots but one free.
pub proof fn lemma_submit(q: SubmissionQueueView, entry: NvmeCommand)
    requires
        q.wf(),
    ensures
        0 <= q.free() < q.len,
        q.is_full() <==> q.free() == 0,
        q.is_empty() ==> q.free() == q.len - 1,
        !q.is_full() ==> {
            &&& q.submit(entry).wf()
            &&& q.submit(entry).tail == (q.tail + 1) % q.len
            &&& q.submit(entry).tail != q.submit(entry).head
            &&& q.submit(entry).free() == q.free() - 1
        },
{
    let len = q.len;
    let d = q.head - q.tail - 1;
    if d >= 0 {
        lemma_fundamental_div_mod_converse(d, len, 0, d);
    } else {
        lemma_fundamental_div_mod_converse(d, len, -1, d + len);
    }
    let next = (q.tail + 1) % len;
    if q.tail + 1 < len {
        lemma_fundamental_div_mod_converse(q.tail + 1, len, 0, q.tail + 1);
    } else {
        lemma_fundamental_div_mod_converse(q.tail + 1, len, 1, 0);
    }
    if !q.is_full() {
        let e = q.head - next - 1;
        if e >= 0 {
            lemma_fundamental_div_mod_converse(e, len, 0, e);
        } else {
            lemma_fundamental_div_mod_converse(e, len, -1, e + len);
        }
    }
}

/// When the controller reports that it has read the whole ring up to the
/// tail, the queue is empty again, and unless it has a single slot it takes
/// submissions again.
pub proof fn lemma_acknowledge_frees(q: SubmissionQueueView)
    requires
        q.wf(),
    ensures
        q.acknowledge(q.tail as u16).wf(),
        q.acknowledge(q.tail as u16).is_empty(),
        q.len >= 2 ==> !q.acknowledge(q.tail as u16).is_full(),
{
    if q.tail + 1 < q.len {
        lemma_fundamental_div_mod_converse(q.tail + 1, q.len, 0, q.tail + 1);
    } else {
        lemma_fundamental_div_mod_converse(q.tail + 1, q.len, 1, 0);
    }
}

} // verus!
