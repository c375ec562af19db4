//! Verified core of a user-space NVMe driver.
//!
//! The library holds every decision the driver takes: how DMA buffers are
//! sized and sliced, how commands are laid out, how the submission and
//! completion rings advance, which registers are programmed with which
//! values and in which order. It never touches the device itself. Whatever
//! has to reach the device leaves the library as a plain value (a
//! [`queues::BusWrite`], a [`nvme::Step`]), and whatever the device
//! produced enters it as a plain value (a completion entry, a page of
//! identify data, the value of a register).

pub mod cmd;
pub mod error;
pub mod ioallocator;
pub mod ioctl_op;
pub mod mapping;
pub mod memory;
pub mod mmio;
pub mod nvme;
pub mod pci;
pub mod physical;
pub mod queues;
pub mod uio;
pub mod vfio;
pub mod vfio_constants;
pub mod vfio_structs;
pub mod wire;

pub use error::Error;
pub use error::Result;
pub use mapping::Mapping;
pub use mapping::MemoryAccess;
pub use memory::Pagesize;
pub use memory::DEFAULT_PAGE_SIZE;
pub use memory::PAGESIZE_1GIB;
pub use memory::PAGESIZE_2MIB;
pub use memory::PAGESIZE_4KIB;
pub use nvme::NvmeDevice;
pub use nvme::NvmeQueuePair;
pub use queues::QUEUE_LENGTH;
