//! The completion queue: the ring in which the controller reports commands
//! as done.

use vstd::prelude::*;
use vstd::arithmetic::div_mod::{lemma_fundamental_div_mod, lemma_fundamental_div_mod_converse};
use crate::error::Error;
use crate::memory::{Dma, DmaView};
use super::entry::NvmeCompletion;
use super::{holds_entries, queue_len, BusWrite, COMPLETION_ENTRY_SIZE, QUEUE_LENGTH};

verus! {

/// What a [`CompletionQueue`] stands for.
pub struct CompletionQueueView {
    /// The memory that holds the ring
    pub commands: DmaView,
    /// What the host has seen in each slot of the ring
    pub entries: Seq<NvmeCompletion>,
    /// Next slot to look at
    pub head: int,
    /// Phase tag that marks an entry as new
    pub phase: bool,
    /// Number of slots
    pub len: int,
    /// Host address of the head doorbell
    pub doorbell: usize,
    /// Stores owed to the controller, oldest first
    pub writes: Seq<BusWrite>,
}

impl CompletionQueueView {
    /// The head lies in the ring, and the ring lies in its memory.
    pub open spec fn wf(self) -> bool {
        &&& 1 <= self.len <= QUEUE_LENGTH
        &&& 0 <= self.head < self.len
        &&& self.entries.len() == self.len
        &&& holds_entries(self.commands, self.len, 16)
    }

    /// The entry at the head is new: its phase tag is the expected one.
    pub open spec fn ready(self) -> bool {
        self.entries[self.head].spec_phase() == self.phase
    }

    /// The queue after the head moved on by `n` slots. The expected phase
    /// flips each time the head passes the end of the ring.
    pub open spec fn skip(self, n: int) -> CompletionQueueView {
        CompletionQueueView {
            head: (self.head + n) % self.len,
            phase: self.phase != (((self.head + n) / self.len) % 2 == 1),
            ..self
        }
    }

    /// The queue after the entry at the head was consumed.
    pub open spec fn complete(self) -> CompletionQueueView {
        let next = (self.head + 1) % self.len;
        CompletionQueueView {
            head: next,
            phase: if next == 0 {
                !self.phase
            } else {
                self.phase
            },
            ..self
        }
    }

    /// The queue after the host saw `entry` in slot `slot`.
    pub open spec fn post(self, slot: int, entry: NvmeCompletion) -> CompletionQueueView {
        if 0 <= slot < self.len {
            CompletionQueueView { entries: self.entries.update(slot, entry), ..self }
        } else {
            self
        }
    }

    /// The queue after its head was announced to the controller.
    pub open spec fn ring(self) -> CompletionQueueView {
        CompletionQueueView {
            writes: self.writes.push(
                BusWrite::Doorbell { addr: self.doorbell, value: self.head as u32 },
            ),
            ..self
        }
    }

    /// Host address of slot `slot`.
    pub open spec fn slot_addr(self, slot: int) -> int {
        self.commands.virt + 16 * slot
    }
}

/// Where a completion ring lies, what was seen in it and how far it has
/// come.
struct CompletionRing {
    commands: Dma,
    entries: Vec<NvmeCompletion>,
    head: usize,
    len: usize,
}

impl CompletionRing {
    #[verifier::type_invariant]
    spec fn inv(self) -> bool {
        &&& 1 <= self.len <= QUEUE_LENGTH
        &&& self.head < self.len
        &&& self.entries@.len() == self.len
        &&& holds_entries(self.commands@, self.len as int, 16)
    }
}

/// Completion queue: the ring in which the controller reports commands as
/// done.
pub struct CompletionQueue {
    ring: CompletionRing,
    phase: bool,
    doorbell: usize,
    writes: Vec<BusWrite>,
}

impl View for CompletionQueue {
    type V = CompletionQueueView;

    closed spec fn view(&self) -> CompletionQueueView {
        CompletionQueueView {
            commands: self.ring.commands@,
            entries: self.ring.entries@,
            head: self.ring.head as int,
            phase: self.phase,
            len: self.ring.len as int,
            doorbell: self.doorbell,
            writes: self.writes@,
        }
    }
}

/// With less than one turn of the ring ahead, the head wraps at most once.
proof fn lemma_one_wrap(head: int, n: int, len: int)
    requires
        0 <= head < len,
        0 <= n <= len,
    ensures
        head + n < len ==> (head + n) % len == head + n && (head + n) / len == 0,
        head + n >= len ==> (head + n) % len == head + n - len && (head + n) / len == 1,
{
    assert(head + n < len ==> (head + n) % len == head + n && (head + n) / len == 0)
        by (nonlinear_arith)
        requires
            0 <= head < len,
            0 <= n <= len,
    ;
    assert(head + n >= len ==> (head + n) % len == head + n - len && (head + n) / len == 1)
        by (nonlinear_arith)
        requires
            0 <= head < len,
            0 <= n <= len,
    ;
}

impl CompletionQueue {
    /// A queue of `len` entries, at most [`QUEUE_LENGTH`], in the memory
    /// `commands`, with its head doorbell at host address `doorbell`. No
    /// slot holds a new entry yet, and the first new entry is expected with
    /// the phase tag set.
    ///
    /// A queue without entries is refused as a configuration error, memory
    /// too small for the entries as a DMA error.
    pub fn new(commands: Dma, len: usize, doorbell: usize) -> (queue: Result<
        CompletionQueue,
        Error,
    >)
        ensures
            match queue {
                Ok(q) => {
                    &&& len >= 1
                    &&& holds_entries(commands@, queue_len(len as int), 16)
                    &&& q@ == (CompletionQueueView {
                        commands: commands@,
                        entries: Seq::new(
                            queue_len(len as int) as nat,
                            |i: int| NvmeCompletion::zero(),
                        ),
                        head: 0,
                        phase: true,
                        len: queue_len(len as int),
                        doorbell,
                        writes: Seq::empty(),
                    })
                    &&& q@.wf()
                    &&& !q@.ready()
                },
                Err(e) => if len == 0 {
                    e matches Error::Vroom(_)
                } else {
                    e matches Error::Allocation(_) && !holds_entries(
                        commands@,
                        queue_len(len as int),
                        16,
                    )
                },
            },
    {
        if len == 0 {
            return Err(Error::config("a queue needs at least one entry"));
        }
        let len: usize = if len <= QUEUE_LENGTH {
            len
        } else {
            QUEUE_LENGTH
        };
        if commands.size() / COMPLETION_ENTRY_SIZE < len {
            return Err(Error::allocation("the memory is too small for the completion queue"));
        }
        let mut entries: Vec<NvmeCompletion> = Vec::new();
        while entries.len() < len
            invariant
                entries@.len() <= len,
                forall|i: int| 0 <= i < entries@.len() ==> entries@[i] == NvmeCompletion::zero(),
            decreases len - entries@.len(),
        {
            entries.push(NvmeCompletion::default());
        }
        assert(entries@ =~= Seq::new(len as nat, |i: int| NvmeCompletion::zero()));
        Ok(
            CompletionQueue {
                ring: CompletionRing { commands, entries, head: 0, len },
                phase: true,
                doorbell,
                writes: Vec::new(),
            },
        )
    }

    /// Next slot to look at.
    pub fn head(&self) -> (head: usize)
        ensures
            head == self@.head,
            self@.wf(),
    {
        proof {
            use_type_invariant(&self.ring);
        }
        self.ring.head
    }

    /// Phase tag that marks an entry as new.
    pub fn phase(&self) -> (phase: bool)
        ensures
            phase == self@.phase,
    {
        self.phase
    }

    /// Number of slots.
    pub fn len(&self) -> (len: usize)
        ensures
            len == self@.len,
            self@.wf(),
    {
        proof {
            use_type_invariant(&self.ring);
        }
        self.ring.len
    }

    /// Host address of the head doorbell.
    pub fn doorbell(&self) -> (addr: usize)
        ensures
            addr == self@.doorbell,
    {
        self.doorbell
    }

    /// The memory that holds the ring.
    pub fn commands(&self) -> (region: Dma)
        ensures
            region@ == self@.commands,
    {
        self.ring.commands
    }

    /// I/O address of the ring.
    pub fn get_addr(&self) -> (addr: usize)
        ensures
            addr == self@.commands.phys,
    {
        self.ring.commands.phys()
    }

    /// Host address of the slot that lies `ahead` slots after the head: the
    /// sixteen bytes to read there, the status word last, tell whether the
    /// controller has completed a command.
    pub fn slot_addr(&self, ahead: usize) -> (place: (usize, usize))
        requires
            ahead <= self@.len,
        ensures
            self@.wf(),
            place.0 == (self@.head + ahead) % self@.len,
            place.1 == self@.slot_addr(place.0 as int),
    {
        proof {
            use_type_invariant(&self.ring);
            lemma_one_wrap(self.ring.head as int, ahead as int, self.ring.len as int);
        }
        let slot: usize = (self.ring.head + ahead) % self.ring.len;
        let virt = self.ring.commands.virt();
        assert(16 * slot + 16 <= 16 * self.ring.len) by (nonlinear_arith)
            requires
                slot < self.ring.len,
        ;
        (slot, virt + COMPLETION_ENTRY_SIZE * slot)
    }

    /// Takes note of what the host read in slot `slot` of the ring. A slot
    /// outside the ring is ignored.
    pub fn post(&mut self, slot: usize, entry: NvmeCompletion)
        ensures
            final(self)@ == old(self)@.post(slot as int, entry),
            final(self)@.wf(),
    {
        proof {
            use_type_invariant(&self.ring);
        }
        if slot < self.ring.len {
            self.ring.entries[slot] = entry;
        }
    }

    /// Whether the entry at the head is new.
    pub fn is_ready(&self) -> (ready: bool)
        ensures
            ready == self@.ready(),
            self@.wf(),
    {
        proof {
            use_type_invariant(&self.ring);
        }
        self.ring.entries[self.ring.head].phase() == self.phase
    }

    /// Whether `commands` entries can be consumed at once: whether, with
    /// the head moved on by `commands - 1` slots, the entry there is new.
    pub fn is_ready_for(&self, commands: usize) -> (ready: bool)
        ensures
            self@.wf(),
            ready == (1 <= commands <= self@.len && self@.skip(commands - 1).ready()),
    {
        proof {
            use_type_invariant(&self.ring);
        }
        if commands == 0 || commands > self.ring.len {
            return false;
        }
        proof {
            lemma_one_wrap(self.ring.head as int, commands - 1, self.ring.len as int);
        }
        let sum: usize = self.ring.head + (commands - 1);
        if sum >= self.ring.len {
            self.ring.entries[sum - self.ring.len].phase() == !self.phase
        } else {
            self.ring.entries[sum].phase() == self.phase
        }
    }

    /// Consumes the entry at the head if it is new. Returns the new head,
    /// the entry, and the slot it was taken from.
    pub fn complete(&mut self) -> (done: Option<(usize, NvmeCompletion, usize)>)
        ensures
            old(self)@.wf(),
            final(self)@.wf(),
            match done {
                Some((head, entry, prev)) => {
                    &&& old(self)@.ready()
                    &&& final(self)@ == old(self)@.complete()
                    &&& head == final(self)@.head
                    &&& entry == old(self)@.entries[old(self)@.head]
                    &&& prev == old(self)@.head
                    &&& entry.spec_phase() == old(self)@.phase
                    &&& (final(self)@.phase != old(self)@.phase) == (final(self)@.head == 0)
                },
                None => !old(self)@.ready() && final(self)@ == old(self)@,
            },
    {
        proof {
            use_type_invariant(&self.ring);
        }
        let entry = self.ring.entries[self.ring.head];
        if entry.phase() == self.phase {
            let prev = self.ring.head;
            self.ring.head = (self.ring.head + 1) % self.ring.len;
            if self.ring.head == 0 {
                self.phase = !self.phase;
            }
            Some((self.ring.head, entry, prev))
        } else {
            None
        }
    }

    /// Consumes `commands` entries at once: moves the head on by
    /// `commands - 1` slots without looking at them, then consumes the entry
    /// found there. Returns the new head, that entry, and the slot the head
    /// was at before.
    ///
    /// All `commands` entries must be pending; [`Self::is_ready_for`] tells.
    pub fn complete_n(&mut self, commands: usize) -> (done: (usize, NvmeCompletion, usize))
        requires
            1 <= commands <= old(self)@.len,
            old(self)@.skip(commands - 1).ready(),
        ensures
            old(self)@.wf(),
            final(self)@.wf(),
            final(self)@ == old(self)@.skip(commands - 1).complete(),
            done.0 == final(self)@.head,
            done.1 == old(self)@.entries[old(self)@.skip(commands - 1).head],
            done.2 == old(self)@.head,
    {
        proof {
            use_type_invariant(&self.ring);
            lemma_one_wrap(self.ring.head as int, commands - 1, self.ring.len as int);
        }
        let prev = self.ring.head;
        let sum: usize = self.ring.head + (commands - 1);
        if sum >= self.ring.len {
            self.phase = !self.phase;
            self.ring.head = sum - self.ring.len;
        } else {
            self.ring.head = sum;
        }
        let (head, entry, _) = self.complete_spin();
        (head, entry, prev)
    }

    /// Consumes the entry at the head, which must be new. Waiting for the
    /// controller is the caller's part: it looks at the slot until
    /// [`Self::is_ready`] holds.
    pub fn complete_spin(&mut self) -> (done: (usize, NvmeCompletion, usize))
        requires
            old(self)@.ready(),
        ensures
            old(self)@.wf(),
            final(self)@.wf(),
            final(self)@ == old(self)@.complete(),
            done.0 == final(self)@.head,
            done.1 == old(self)@.entries[old(self)@.head],
            done.2 == old(self)@.head,
            done.1.spec_phase() == old(self)@.phase,
            (final(self)@.phase != old(self)@.phase) == (final(self)@.head == 0),
    {
        match self.complete() {
            Some(done) => done,
            None => {
                proof {
                    use_type_invariant(&self.ring);
                }
                (self.ring.head, self.ring.entries[self.ring.head], self.ring.head)
            },
        }
    }

    /// Announces the head to the controller: every slot before it may be
    /// written again.
    pub fn ring(&mut self)
        ensures
            final(self)@ == old(self)@.ring(),
            final(self)@.wf(),
    {
        proof {
            use_type_invariant(&self.ring);
        }
        self.writes.push(BusWrite::Doorbell { addr: self.doorbell, value: self.ring.head as u32 });
    }

    /// Hands out the stores owed to the controller, oldest first.
    pub fn take_writes(&mut self) -> (writes: Vec<BusWrite>)
        ensures
            writes@ == old(self)@.writes,
            final(self)@ == (CompletionQueueView { writes: Seq::empty(), ..old(self)@ }),
            final(self)@.wf(),
    {
        proof {
            use_type_invariant(&self.ring);
        }
        let mut writes: Vec<BusWrite> = Vec::new();
        std::mem::swap(&mut writes, &mut self.writes);
        writes
    }
}

/// Consuming one entry is moving the head on by one slot: the head moves to
/// the next slot of the ring, and the expected phase tag flips exactly when
/// the head comes back to the first slot.
pub proof fn lemma_complete_is_skip(q: CompletionQueueView)
    requires
        q.wf(),
    ensures
        q.complete() == q.skip(1),
        q.complete().wf(),
        q.complete().head == (q.head + 1) % q.len,
        (q.complete().phase != q.phase) == (q.complete().head == 0),
        q.ready() ==> q.entries[q.head].spec_phase() == q.phase,
        q.skip(0) == q,
{
    lemma_one_wrap(q.head, 1, q.len);
    lemma_one_wrap(q.head, 0, q.len);
}

/// Moving the head on by `a` slots and then by `b` slots is moving it on by
/// `a + b` slots.
pub proof fn lemma_skip_add(q: CompletionQueueView, a: int, b: int)
    requires
        q.wf(),
        0 <= a,
        0 <= b,
    ensures
        q.skip(a).wf(),
        q.skip(a).skip(b) == q.skip(a + b),
{
    let len = q.len;
    let x = q.head + a;
    lemma_fundamental_div_mod(x, len);
    let q1 = x / len;
    let r1 = x % len;
    let y = r1 + b;
    lemma_fundamental_div_mod(y, len);
    let q2 = y / len;
    let r2 = y % len;
    assert(x + b == (q1 + q2) * len + r2) by (nonlinear_arith)
        requires
            x == len * q1 + r1,
            r1 + b == len * q2 + r2,
    ;
    lemma_fundamental_div_mod_converse(x + b, len, q1 + q2, r2);
}

/// After as many entries as the ring has slots, the head is where it was
/// and the expected phase tag has flipped.
pub proof fn lemma_wrap_flips_phase(q: CompletionQueueView)
    requires
        q.wf(),
    ensures
        q.skip(q.len) == (CompletionQueueView { phase: !q.phase, ..q }),
        q.skip(2 * q.len) == q,
{
    lemma_fundamental_div_mod_converse(q.head + q.len, q.len, 1, q.head);
    lemma_fundamental_div_mod_converse(q.head + 2 * q.len, q.len, 2, q.head);
}

} // verus!
