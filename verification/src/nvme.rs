//! The controller and its queue pairs: which commands are built for a
//! transfer, how completions are taken, and how the controller is brought
//! up.

pub mod admin;
pub mod chunk;
pub mod device;
pub mod identify;
pub mod io;
pub mod queue_pair;
pub mod regs;
pub mod staged;
pub mod text;

pub use self::admin::AdminRequest;
pub use self::chunk::{BLOCK_SIZE, DATA_PAGE, IO_CHUNK, LIST_CHUNK, MAX_BLOCKS};
pub use self::device::{DeviceMemory, NvmeDevice, NvmeDeviceView, NvmeStats};
pub use self::identify::{NvmeNamespace, CONTROLLER_DATA_LEN, NAMESPACE_DATA_LEN};
pub use self::io::{Transfer, TransferView};
pub use self::queue_pair::NvmeQueuePair;
pub use self::regs::{queue_entries, NvmeArrayRegs, NvmeRegs32, NvmeRegs64, Step};
pub use self::staged::{batch_plan, BatchPlan, Piece, Staged, StagedView};
pub use self::staged::{BATCH_PIECE, COPY_PIECE};
