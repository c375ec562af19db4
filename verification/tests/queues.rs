use vroom::cmd::NvmeCommand;
use vroom::memory::Dma;
use vroom::queues::{BusWrite, CompletionQueue, NvmeCompletion, SubmissionQueue};
use vroom::{Error, QUEUE_LENGTH};

fn ring_memory(entries: usize, entry_size: usize) -> Dma {
    Dma::new(0x10_0000, 0x8000_0000, entries * entry_size).unwrap()
}

fn done(sq_head: u16, c_id: u16, phase: bool) -> NvmeCompletion {
    NvmeCompletion {
        command_specific: 0,
        _rsvd: 0,
        sq_head,
        sq_id: 1,
        c_id,
        status: if phase { 1 } else { 0 },
    }
}

#[test]
fn queue_length_is_half_a_huge_page_of_commands() {
    assert_eq!(QUEUE_LENGTH, 2 * 1024 * 1024 / 64 / 2);
    assert_eq!(QUEUE_LENGTH, 16384);
}

#[test]
fn submission_queue_starts_empty() {
    let sq = SubmissionQueue::new(ring_memory(64, 64), 64, 0x1000).unwrap();
    assert!(sq.is_empty());
    assert!(!sq.is_full());
    assert_eq!(sq.head(), 0);
    assert_eq!(sq.tail(), 0);
    assert_eq!(sq.len(), 64);
    assert_eq!(sq.get_addr(), 0x8000_0000);
    assert_eq!(sq.doorbell(), 0x1000);
}

#[test]
fn queue_length_is_capped() {
    let memory = Dma::new(0x10_0000, 0x8000_0000, 64 * QUEUE_LENGTH).unwrap();
    let sq = SubmissionQueue::new(memory, QUEUE_LENGTH + 5, 0).unwrap();
    assert_eq!(sq.len(), QUEUE_LENGTH);
    let cq = CompletionQueue::new(memory, usize::MAX, 0).unwrap();
    assert_eq!(cq.len(), QUEUE_LENGTH);
}

#[test]
fn queue_without_entries_is_refused() {
    assert!(matches!(
        SubmissionQueue::new(ring_memory(64, 64), 0, 0),
        Err(Error::Vroom(_))
    ));
    assert!(matches!(
        CompletionQueue::new(ring_memory(64, 16), 0, 0),
        Err(Error::Vroom(_))
    ));
}

#[test]
fn queue_in_too_little_memory_is_refused() {
    assert!(matches!(
        SubmissionQueue::new(ring_memory(63, 64), 64, 0),
        Err(Error::Allocation(_))
    ));
    assert!(matches!(
        CompletionQueue::new(ring_memory(63, 16), 64, 0),
        Err(Error::Allocation(_))
    ));
    assert!(SubmissionQueue::new(ring_memory(64, 64), 64, 0).is_ok());
    assert!(CompletionQueue::new(ring_memory(64, 16), 64, 0).is_ok());
}

#[test]
fn submit_stores_entry_at_tail_slot() {
    let mut sq = SubmissionQueue::new(ring_memory(64, 64), 64, 0x1000).unwrap();
    let first = NvmeCommand::io_write(0, 1, 7, 0, 0x2000, 0);
    let second = NvmeCommand::io_read(1, 1, 8, 0, 0x3000, 0);
    assert_eq!(sq.submit_checked(first), Some(1));
    assert_eq!(sq.submit_checked(second), Some(2));
    sq.ring();
    let writes = sq.take_writes();
    assert_eq!(
        writes,
        vec![
            BusWrite::Command { addr: 0x10_0000, command: first },
            BusWrite::Command { addr: 0x10_0040, command: second },
            BusWrite::Doorbell { addr: 0x1000, value: 2 },
        ]
    );
    assert!(sq.take_writes().is_empty());
    assert_eq!(sq.tail(), 2);
}

#[test]
fn tail_wraps_and_never_meets_head() {
    let mut sq = SubmissionQueue::new(ring_memory(4, 64), 4, 0).unwrap();
    let cmd = NvmeCommand::io_write(0, 1, 0, 0, 0x2000, 0);
    assert_eq!(sq.submit(cmd), 1);
    assert_eq!(sq.submit(cmd), 2);
    assert_eq!(sq.submit(cmd), 3);
    assert!(sq.is_full());
    assert_eq!(sq.submit_checked(cmd), None);
    sq.acknowledge(2);
    assert_eq!(sq.head(), 2);
    assert_eq!(sq.submit_checked(cmd), Some(0));
    assert_eq!(sq.submit_checked(cmd), Some(1));
    assert_eq!(sq.submit_checked(cmd), None);
    assert_ne!(sq.tail(), sq.head());
}

#[test]
fn full_queue_takes_submissions_after_a_completion() {
    let q = 64;
    let mut sq = SubmissionQueue::new(ring_memory(q, 64), q, 0).unwrap();
    for i in 0..q - 1 {
        let cmd = NvmeCommand::io_write(i as u16, 1, i as u64, 0, 0x2000, 0);
        assert_eq!(sq.submit_checked(cmd), Some((i + 1) % q));
    }
    assert!(sq.is_full());
    let extra = NvmeCommand::io_write(63, 1, 63, 0, 0x2000, 0);
    assert_eq!(sq.submit_checked(extra), None);
    assert_eq!(sq.tail(), 63);
    sq.acknowledge(1);
    assert!(!sq.is_full());
    assert_eq!(sq.submit_checked(extra), Some(0));
    assert!(sq.is_full());
}

#[test]
fn acknowledge_ignores_positions_outside_the_ring() {
    let mut sq = SubmissionQueue::new(ring_memory(8, 64), 8, 0).unwrap();
    sq.acknowledge(8);
    assert_eq!(sq.head(), 0);
    sq.acknowledge(0xFFFF);
    assert_eq!(sq.head(), 0);
    sq.acknowledge(7);
    assert_eq!(sq.head(), 7);
}

#[test]
fn queue_of_one_entry_is_always_full() {
    let mut sq = SubmissionQueue::new(ring_memory(1, 64), 1, 0).unwrap();
    assert!(sq.is_empty());
    assert!(sq.is_full());
    assert_eq!(sq.submit_checked(NvmeCommand::format_nvm(0, 1)), None);
}

#[test]
fn completion_needs_matching_phase() {
    let mut cq = CompletionQueue::new(ring_memory(4, 16), 4, 0x1004).unwrap();
    assert!(cq.phase());
    assert!(!cq.is_ready());
    assert!(cq.complete().is_none());
    let entry = done(1, 9, true);
    cq.post(0, entry);
    assert!(cq.is_ready());
    assert_eq!(cq.complete(), Some((1, entry, 0)));
    assert!(cq.complete().is_none());
    assert_eq!(cq.head(), 1);
}

#[test]
fn post_outside_the_ring_is_ignored() {
    let mut cq = CompletionQueue::new(ring_memory(4, 16), 4, 0).unwrap();
    cq.post(4, done(0, 0, true));
    assert!(!cq.is_ready());
}

#[test]
fn phase_flips_when_the_head_wraps() {
    let q = 4;
    let mut cq = CompletionQueue::new(ring_memory(q, 16), q, 0).unwrap();
    for i in 0..q {
        assert!(cq.phase());
        cq.post(i, done(0, i as u16, true));
        let (head, entry, prev) = cq.complete().unwrap();
        assert_eq!(head, (i + 1) % q);
        assert_eq!(prev, i);
        assert_eq!(entry.status & 1, 1);
    }
    assert_eq!(cq.head(), 0);
    assert!(!cq.phase());
    assert!(cq.complete().is_none());
    for i in 0..q {
        assert!(!cq.phase());
        cq.post(i, done(0, i as u16, false));
        assert!(cq.complete().is_some());
    }
    assert!(cq.phase());
}

#[test]
fn complete_n_skips_and_takes_the_last() {
    let mut cq = CompletionQueue::new(ring_memory(8, 16), 8, 0).unwrap();
    for i in 0..5 {
        cq.post(i, done(i as u16 + 1, i as u16, true));
    }
    assert!(cq.is_ready_for(5));
    assert!(!cq.is_ready_for(6));
    assert!(!cq.is_ready_for(0));
    assert!(!cq.is_ready_for(9));
    let (head, entry, prev) = cq.complete_n(5);
    assert_eq!(head, 5);
    assert_eq!(entry.c_id, 4);
    assert_eq!(prev, 0);
    assert!(cq.phase());
}

#[test]
fn complete_n_across_the_end_flips_the_phase() {
    let mut cq = CompletionQueue::new(ring_memory(4, 16), 4, 0).unwrap();
    for i in 0..3 {
        cq.post(i, done(0, i as u16, true));
    }
    let (head, _, _) = cq.complete_n(3);
    assert_eq!(head, 3);
    cq.post(3, done(0, 3, true));
    cq.post(0, done(0, 4, false));
    cq.post(1, done(0, 5, false));
    assert!(cq.is_ready_for(3));
    let (head, entry, prev) = cq.complete_n(3);
    assert_eq!((head, entry.c_id, prev), (2, 5, 3));
    assert!(!cq.phase());
}

#[test]
fn complete_spin_takes_a_posted_entry() {
    let mut cq = CompletionQueue::new(ring_memory(4, 16), 4, 0).unwrap();
    let entry = done(3, 2, true);
    cq.post(0, entry);
    assert_eq!(cq.complete_spin(), (1, entry, 0));
}

#[test]
fn completion_doorbell_carries_the_head() {
    let mut cq = CompletionQueue::new(ring_memory(4, 16), 4, 0x1004).unwrap();
    cq.post(0, done(0, 0, true));
    cq.complete();
    cq.ring();
    assert_eq!(cq.take_writes(), vec![BusWrite::Doorbell { addr: 0x1004, value: 1 }]);
    assert_eq!(cq.get_addr(), 0x8000_0000);
    assert_eq!(cq.doorbell(), 0x1004);
}

#[test]
fn slot_addresses() {
    let mut cq = CompletionQueue::new(ring_memory(4, 16), 4, 0).unwrap();
    assert_eq!(cq.slot_addr(0), (0, 0x10_0000));
    assert_eq!(cq.slot_addr(3), (3, 0x10_0030));
    assert_eq!(cq.slot_addr(4), (0, 0x10_0000));
    cq.post(0, done(0, 0, true));
    cq.complete();
    assert_eq!(cq.slot_addr(0), (1, 0x10_0010));
    assert_eq!(cq.slot_addr(3), (0, 0x10_0000));
}

#[test]
fn completion_status_fields() {
    let mut entry = done(0, 0, true);
    assert_eq!(entry.status_field(), 0);
    assert_eq!(entry.error(), None);
    entry.status = (0x81 << 1) | (2 << 9) | (1 << 14) | 1;
    assert!(entry.phase());
    assert_eq!(entry.status_code(), 0x81);
    assert_eq!(entry.status_code_type(), 2);
    assert!(entry.do_not_retry());
    assert_eq!(entry.status_field(), entry.status >> 1);
    assert_eq!(
        entry.error(),
        Some(Error::Device { status_code: 0x81, status_code_type: 2 })
    );
    entry.status = 2;
    assert!(!entry.phase());
    assert!(!entry.do_not_retry());
    assert_eq!(
        entry.error(),
        Some(Error::Device { status_code: 1, status_code_type: 0 })
    );
}

#[test]
fn completion_bytes_follow_the_layout() {
    let entry = NvmeCompletion {
        command_specific: 0x0102_0304,
        _rsvd: 0,
        sq_head: 0x1122,
        sq_id: 0x3344,
        c_id: 0x5566,
        status: 0x8001,
    };
    let bytes = entry.to_bytes();
    assert_eq!(
        bytes,
        vec![0x04, 0x03, 0x02, 0x01, 0, 0, 0, 0, 0x22, 0x11, 0x44, 0x33, 0x66, 0x55, 0x01, 0x80]
    );
    assert_eq!(NvmeCompletion::from_bytes(&bytes), Some(entry));
    assert_eq!(NvmeCompletion::from_bytes(&bytes[..15]), None);
    assert_eq!(NvmeCompletion::default().to_bytes(), vec![0u8; 16]);
}
