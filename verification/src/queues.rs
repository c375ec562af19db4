//! The submission and completion rings of a queue pair.
//!
//! A queue never touches the memory it describes. What the host has to
//! store for the controller leaves a queue as a list of [`BusWrite`]s, in
//! the order in which the stores must become visible; what the controller
//! stored for the host is handed to the completion queue entry by entry.

pub mod completion;
pub mod entry;
pub mod submission;

pub use self::completion::{lemma_complete_is_skip, lemma_skip_add, lemma_wrap_flips_phase};
pub use self::completion::{CompletionQueue, CompletionQueueView};
pub use self::entry::{lemma_completion_round_trip, NvmeCompletion};
pub use self::submission::{lemma_acknowledge_frees, lemma_submit};
pub use self::submission::{SubmissionQueue, SubmissionQueueView};

use vstd::prelude::*;
use crate::cmd::NvmeCommand;
use crate::memory::DmaView;

verus! {

/// Most entries a queue can have: half of what fits a 2 MiB page of
/// submission entries.
pub const QUEUE_LENGTH: usize = 16384;

/// Size of one submission entry in bytes.
pub const SUBMISSION_ENTRY_SIZE: usize = 64;

/// Size of one completion entry in bytes.
pub const COMPLETION_ENTRY_SIZE: usize = 16;

/// Number of entries of a queue that was asked to have `configured` entries.
pub open spec fn queue_len(configured: int) -> int {
    if configured <= QUEUE_LENGTH {
        configured
    } else {
        QUEUE_LENGTH as int
    }
}

/// Whether `region` has room for `len` entries of `entry_size` bytes.
pub open spec fn holds_entries(region: DmaView, len: int, entry_size: int) -> bool {
    region.fits() && entry_size * len <= region.size
}

/// A store that the host owes the controller.
#[derive(Clone, Copy, Debug, PartialEq, Eq, Structural)]
pub enum BusWrite {
    /// Store the 64 bytes of `command` at host address `addr`, a slot of a
    /// submission queue.
    Command { addr: usize, command: NvmeCommand },
    /// Store `page`, least significant byte first, in the eight bytes at
    /// host address `addr`, an entry of a list of data pages.
    Pointer { addr: usize, page: u64 },
    /// Store `value` with one 32-bit access in the doorbell register at host
    /// address `addr`.
    Doorbell { addr: usize, value: u32 },
}

} // verus!
