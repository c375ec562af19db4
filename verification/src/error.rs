//! What can go wrong while the driver talks to the system and the device.

use vstd::prelude::*;
use vstd::string::StringExecFns;
use crate::ioctl_op::IoctlOp;

verus! {

/// The result type of this library.
pub type Result<T> = std::result::Result<T, Error>;

/// The failures the driver distinguishes. None is retried by the driver
/// itself.
#[derive(Debug, Clone, PartialEq, Eq)]
pub enum Error {
    /// The configuration cannot be used: a parameter is invalid, or the
    /// device is not an NVMe controller.
    Vroom(String),
    /// Reading or writing a file failed; the message says how.
    Io(String),
    /// DMA memory could not be allocated or could not be given an address
    /// the device can use.
    Allocation(String),
    /// Mapping or unmapping `len` bytes of memory failed with this error
    /// number.
    Mmap { len: usize, errno: i32 },
    /// The request `op` failed with this error number.
    Ioctl { op: IoctlOp, errno: i32 },
    /// The IOMMU backend could not be set up.
    Vfio(String),
    /// The physical-address backend could not be set up.
    Mmio(String),
    /// The controller completed a command with a status other than
    /// success.
    Device { status_code: u8, status_code_type: u8 },
}

impl Error {
    /// A configuration error with the given message.
    pub fn config(message: &str) -> (error: Error)
        ensures
            error matches Error::Vroom(m) && m@ == message@,
    {
        Error::Vroom(String::from_str(message))
    }

    /// A file error with the given message.
    pub fn io(message: &str) -> (error: Error)
        ensures
            error matches Error::Io(m) && m@ == message@,
    {
        Error::Io(String::from_str(message))
    }

    /// A DMA error with the given message.
    pub fn allocation(message: &str) -> (error: Error)
        ensures
            error matches Error::Allocation(m) && m@ == message@,
    {
        Error::Allocation(String::from_str(message))
    }

    /// An IOMMU backend error with the given message.
    pub fn vfio(message: &str) -> (error: Error)
        ensures
            error matches Error::Vfio(m) && m@ == message@,
    {
        Error::Vfio(String::from_str(message))
    }

    /// A physical-address backend error with the given message.
    pub fn mmio(message: &str) -> (error: Error)
        ensures
            error matches Error::Mmio(m) && m@ == message@,
    {
        Error::Mmio(String::from_str(message))
    }
}

} // verus!
