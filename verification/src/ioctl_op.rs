//! Request numbers of the VFIO and IOMMUFD ioctls, and the flags that go
//! into their arguments.
#![allow(non_camel_case_types, non_snake_case)]

use vstd::prelude::*;

verus! {

/// Bit position of the type field inside a request number.
pub const _IOC_TYPESHIFT: u64 = 8;

/// Bit position of the sequence number inside a request number.
pub const _IOC_NRSHIFT: u64 = 0;

/// Type byte of every VFIO request, the character `;`.
pub const VFIO_TYPE: u64 = 0x3B;

/// Sequence number of the first VFIO request.
pub const VFIO_BASE: u64 = 100;

/// Type byte of every IOMMUFD request, the character `;`.
pub const IOMMUFD_TYPE: u64 = 0x3B;

/// Sequence number of the request that allocates an I/O address space.
pub const IOMMUFD_CMD_IOAS_ALLOC: u64 = 0x81;

/// Sequence number of the request that maps memory into an I/O address space.
pub const IOMMUFD_CMD_IOAS_MAP: u64 = 0x85;

/// Sequence number of the request that unmaps memory from an I/O address space.
pub const IOMMUFD_CMD_IOAS_UNMAP: u64 = 0x86;

/// The request number that carries neither direction nor size: the type in
/// bits 8 and up, the sequence number below.
pub open spec fn io_number(type_: u64, nr: u64) -> u64 {
    (type_ << 8) | (nr << 0)
}

/// For a type and a sequence number of one byte each, the request number is
/// the type times 256 plus the sequence number.
pub proof fn lemma_io_number(type_: u64, nr: u64)
    requires
        type_ < 256,
        nr < 256,
    ensures
        io_number(type_, nr) == type_ * 256 + nr,
{
    assert((type_ << 8) | (nr << 0) == type_ * 256 + nr) by (bit_vector)
        requires
            type_ < 256,
            nr < 256,
    ;
}

/// The requests the driver sends to the VFIO and IOMMUFD devices.
#[derive(Debug, Clone, Copy, PartialEq, Eq, Structural)]
pub enum IoctlOp {
    VFIO_GET_API_VERSION,
    VFIO_CHECK_EXTENSION,
    VFIO_SET_IOMMU,
    VFIO_GROUP_GET_STATUS,
    VFIO_GROUP_SET_CONTAINER,
    VFIO_GROUP_GET_DEVICE_FD,
    VFIO_DEVICE_GET_REGION_INFO,
    VFIO_IOMMU_GET_INFO,
    VFIO_IOMMU_MAP_DMA,
    VFIO_IOMMU_UNMAP_DMA,
    VFIO_DEVICE_GET_IRQ_INFO,
    VFIO_DEVICE_SET_IRQS,
    VFIO_DEVICE_BIND_IOMMUFD,
    VFIO_DEVICE_ATTACH_IOMMUFD_PT,
    IOMMU_IOAS_ALLOC,
    IOMMU_IOAS_MAP,
    IOMMU_IOAS_UNMAP,
}

impl IoctlOp {
    /// Sequence number of the request within its type.
    pub open spec fn spec_nr(self) -> int {
        match self {
            IoctlOp::VFIO_GET_API_VERSION => 100,
            IoctlOp::VFIO_CHECK_EXTENSION => 101,
            IoctlOp::VFIO_SET_IOMMU => 102,
            IoctlOp::VFIO_GROUP_GET_STATUS => 103,
            IoctlOp::VFIO_GROUP_SET_CONTAINER => 104,
            IoctlOp::VFIO_GROUP_GET_DEVICE_FD => 106,
            IoctlOp::VFIO_DEVICE_GET_REGION_INFO => 108,
            IoctlOp::VFIO_DEVICE_GET_IRQ_INFO => 109,
            IoctlOp::VFIO_DEVICE_SET_IRQS => 110,
            IoctlOp::VFIO_IOMMU_GET_INFO => 112,
            IoctlOp::VFIO_IOMMU_MAP_DMA => 113,
            IoctlOp::VFIO_IOMMU_UNMAP_DMA => 114,
            IoctlOp::VFIO_DEVICE_BIND_IOMMUFD => 118,
            IoctlOp::VFIO_DEVICE_ATTACH_IOMMUFD_PT => 119,
            IoctlOp::IOMMU_IOAS_ALLOC => 0x81,
            IoctlOp::IOMMU_IOAS_MAP => 0x85,
            IoctlOp::IOMMU_IOAS_UNMAP => 0x86,
        }
    }

    /// The request number: type `;` in the second byte, the sequence number
    /// in the first.
    pub open spec fn spec_op(self) -> int {
        0x3B00 + self.spec_nr()
    }

    /// Builds a request number from a type and a sequence number.
    pub fn _IO(type_: u64, nr: u64) -> (number: u64)
        ensures
            number == io_number(type_, nr),
    {
        type_ << _IOC_TYPESHIFT | nr << _IOC_NRSHIFT
    }

    /// The number under which the kernel knows the request.
    pub fn op(&self) -> (number: u64)
        ensures
            number == self.spec_op(),
    {
        let (type_, nr): (u64, u64) = match self {
            IoctlOp::VFIO_GET_API_VERSION => (VFIO_TYPE, VFIO_BASE + 0),
            IoctlOp::VFIO_CHECK_EXTENSION => (VFIO_TYPE, VFIO_BASE + 1),
            IoctlOp::VFIO_SET_IOMMU => (VFIO_TYPE, VFIO_BASE + 2),
            IoctlOp::VFIO_GROUP_GET_STATUS => (VFIO_TYPE, VFIO_BASE + 3),
            IoctlOp::VFIO_GROUP_SET_CONTAINER => (VFIO_TYPE, VFIO_BASE + 4),
            IoctlOp::VFIO_GROUP_GET_DEVICE_FD => (VFIO_TYPE, VFIO_BASE + 6),
            IoctlOp::VFIO_DEVICE_GET_REGION_INFO => (VFIO_TYPE, VFIO_BASE + 8),
            IoctlOp::VFIO_IOMMU_GET_INFO => (VFIO_TYPE, VFIO_BASE + 12),
            IoctlOp::VFIO_IOMMU_MAP_DMA => (VFIO_TYPE, VFIO_BASE + 13),
            IoctlOp::VFIO_IOMMU_UNMAP_DMA => (VFIO_TYPE, VFIO_BASE + 14),
            IoctlOp::VFIO_DEVICE_BIND_IOMMUFD => (VFIO_TYPE, VFIO_BASE + 18),
            IoctlOp::VFIO_DEVICE_ATTACH_IOMMUFD_PT => (VFIO_TYPE, VFIO_BASE + 19),
            IoctlOp::VFIO_DEVICE_GET_IRQ_INFO => (VFIO_TYPE, VFIO_BASE + 9),
            IoctlOp::VFIO_DEVICE_SET_IRQS => (VFIO_TYPE, VFIO_BASE + 10),
            IoctlOp::IOMMU_IOAS_ALLOC => (IOMMUFD_TYPE, IOMMUFD_CMD_IOAS_ALLOC),
            IoctlOp::IOMMU_IOAS_MAP => (IOMMUFD_TYPE, IOMMUFD_CMD_IOAS_MAP),
            IoctlOp::IOMMU_IOAS_UNMAP => (IOMMUFD_TYPE, IOMMUFD_CMD_IOAS_UNMAP),
        };
        proof {
            lemma_io_number(type_, nr);
        }
        Self::_IO(type_, nr)
    }

    /// The name of the request as the kernel headers spell it.
    pub fn name(&self) -> (name: &'static str)
        ensures
            name@ == self.spec_name(),
    {
        match self {
            IoctlOp::VFIO_GET_API_VERSION => "VFIO_GET_API_VERSION",
            IoctlOp::VFIO_CHECK_EXTENSION => "VFIO_CHECK_EXTENSION",
            IoctlOp::VFIO_SET_IOMMU => "VFIO_SET_IOMMU",
            IoctlOp::VFIO_GROUP_GET_STATUS => "VFIO_GROUP_GET_STATUS",
            IoctlOp::VFIO_GROUP_SET_CONTAINER => "VFIO_GROUP_SET_CONTAINER",
            IoctlOp::VFIO_GROUP_GET_DEVICE_FD => "VFIO_GROUP_GET_DEVICE_FD",
            IoctlOp::VFIO_DEVICE_GET_REGION_INFO => "VFIO_DEVICE_GET_REGION_INFO",
            IoctlOp::VFIO_IOMMU_GET_INFO => "VFIO_IOMMU_GET_INFO",
            IoctlOp::VFIO_IOMMU_MAP_DMA => "VFIO_IOMMU_MAP_DMA",
            IoctlOp::VFIO_IOMMU_UNMAP_DMA => "VFIO_IOMMU_UNMAP_DMA",
            IoctlOp::VFIO_DEVICE_GET_IRQ_INFO => "VFIO_DEVICE_GET_IRQ_INFO",
            IoctlOp::VFIO_DEVICE_SET_IRQS => "VFIO_DEVICE_SET_IRQS",
            IoctlOp::VFIO_DEVICE_BIND_IOMMUFD => "VFIO_DEVICE_BIND_IOMMUFD",
            IoctlOp::VFIO_DEVICE_ATTACH_IOMMUFD_PT => "VFIO_DEVICE_ATTACH_IOMMUFD_PT",
            IoctlOp::IOMMU_IOAS_ALLOC => "IOMMU_IOAS_ALLOC",
            IoctlOp::IOMMU_IOAS_MAP => "IOMMU_IOAS_MAP",
            IoctlOp::IOMMU_IOAS_UNMAP => "IOMMU_IOAS_UNMAP",
        }
    }

    /// The name of the request as the kernel headers spell it.
    pub open spec fn spec_name(self) -> Seq<char> {
        match self {
            IoctlOp::VFIO_GET_API_VERSION => "VFIO_GET_API_VERSION"@,
            IoctlOp::VFIO_CHECK_EXTENSION => "VFIO_CHECK_EXTENSION"@,
            IoctlOp::VFIO_SET_IOMMU => "VFIO_SET_IOMMU"@,
            IoctlOp::VFIO_GROUP_GET_STATUS => "VFIO_GROUP_GET_STATUS"@,
            IoctlOp::VFIO_GROUP_SET_CONTAINER => "VFIO_GROUP_SET_CONTAINER"@,
            IoctlOp::VFIO_GROUP_GET_DEVICE_FD => "VFIO_GROUP_GET_DEVICE_FD"@,
            IoctlOp::VFIO_DEVICE_GET_REGION_INFO => "VFIO_DEVICE_GET_REGION_INFO"@,
            IoctlOp::VFIO_IOMMU_GET_INFO => "VFIO_IOMMU_GET_INFO"@,
            IoctlOp::VFIO_IOMMU_MAP_DMA => "VFIO_IOMMU_MAP_DMA"@,
            IoctlOp::VFIO_IOMMU_UNMAP_DMA => "VFIO_IOMMU_UNMAP_DMA"@,
            IoctlOp::VFIO_DEVICE_GET_IRQ_INFO => "VFIO_DEVICE_GET_IRQ_INFO"@,
            IoctlOp::VFIO_DEVICE_SET_IRQS => "VFIO_DEVICE_SET_IRQS"@,
            IoctlOp::VFIO_DEVICE_BIND_IOMMUFD => "VFIO_DEVICE_BIND_IOMMUFD"@,
            IoctlOp::VFIO_DEVICE_ATTACH_IOMMUFD_PT => "VFIO_DEVICE_ATTACH_IOMMUFD_PT"@,
            IoctlOp::IOMMU_IOAS_ALLOC => "IOMMU_IOAS_ALLOC"@,
            IoctlOp::IOMMU_IOAS_MAP => "IOMMU_IOAS_MAP"@,
            IoctlOp::IOMMU_IOAS_UNMAP => "IOMMU_IOAS_UNMAP"@,
        }
    }
}

/// Flags that travel inside the arguments of the requests.
#[derive(Debug, Clone, Copy, PartialEq, Eq, Structural)]
pub enum IoctlFlag {
    /// Every device of the group is bound to VFIO.
    VFIO_GROUP_FLAGS_VIABLE,
    /// The device may read the mapped memory.
    VFIO_DMA_MAP_FLAG_READ,
    /// The device may write the mapped memory.
    VFIO_DMA_MAP_FLAG_WRITE,
    /// No data accompanies the interrupt request.
    VFIO_IRQ_SET_DATA_NONE,
    /// The data of the interrupt request is an eventfd.
    VFIO_IRQ_SET_DATA_EVENTFD,
    /// The interrupt request sets what triggers the interrupt.
    VFIO_IRQ_SET_ACTION_TRIGGER,
    /// Map at the I/O address that the request names.
    IOMMU_IOAS_MAP_FIXED_IOVA,
    /// The device may write the mapped memory.
    IOMMU_IOAS_MAP_WRITEABLE,
    /// The device may read the mapped memory.
    IOMMU_IOAS_MAP_READABLE,
}

impl IoctlFlag {
    /// The bit that stands for the flag.
    pub open spec fn spec_bits(self) -> u32 {
        match self {
            IoctlFlag::VFIO_GROUP_FLAGS_VIABLE => 1,
            IoctlFlag::VFIO_DMA_MAP_FLAG_READ => 1,
            IoctlFlag::VFIO_DMA_MAP_FLAG_WRITE => 2,
            IoctlFlag::VFIO_IRQ_SET_DATA_NONE => 1,
            IoctlFlag::VFIO_IRQ_SET_DATA_EVENTFD => 4,
            IoctlFlag::VFIO_IRQ_SET_ACTION_TRIGGER => 32,
            IoctlFlag::IOMMU_IOAS_MAP_FIXED_IOVA => 1,
            IoctlFlag::IOMMU_IOAS_MAP_WRITEABLE => 2,
            IoctlFlag::IOMMU_IOAS_MAP_READABLE => 4,
        }
    }

    /// The bit that stands for the flag.
    pub fn bits(&self) -> (bits: u32)
        ensures
            bits == self.spec_bits(),
    {
        match self {
            IoctlFlag::VFIO_GROUP_FLAGS_VIABLE => 1,
            IoctlFlag::VFIO_DMA_MAP_FLAG_READ => 1,
            IoctlFlag::VFIO_DMA_MAP_FLAG_WRITE => 2,
            IoctlFlag::VFIO_IRQ_SET_DATA_NONE => 1,
            IoctlFlag::VFIO_IRQ_SET_DATA_EVENTFD => 4,
            IoctlFlag::VFIO_IRQ_SET_ACTION_TRIGGER => 32,
            IoctlFlag::IOMMU_IOAS_MAP_FIXED_IOVA => 1,
            IoctlFlag::IOMMU_IOAS_MAP_WRITEABLE => 2,
            IoctlFlag::IOMMU_IOAS_MAP_READABLE => 4,
        }
    }
}

} // verus!
