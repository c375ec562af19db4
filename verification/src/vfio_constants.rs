//! Numbers from the kernel's VFIO and IOMMUFD headers.
#![allow(non_snake_case)]

use vstd::prelude::*;
use crate::ioctl_op::{io_number, lemma_io_number, IoctlOp};

verus! {

/// Builds a request number that carries neither direction nor size from a
/// type and a sequence number.
pub fn _IO(type_: u64, nr: u64) -> (number: u64)
    ensures
        number == io_number(type_, nr),
{
    type_ << 8 | nr << 0
}

pub const VFIO_GET_API_VERSION: u64 = 0x3B64;

pub const VFIO_CHECK_EXTENSION: u64 = 0x3B65;

pub const VFIO_SET_IOMMU: u64 = 0x3B66;

pub const VFIO_GROUP_GET_STATUS: u64 = 0x3B67;

pub const VFIO_GROUP_SET_CONTAINER: u64 = 0x3B68;

pub const VFIO_GROUP_GET_DEVICE_FD: u64 = 0x3B6A;

pub const VFIO_DEVICE_GET_REGION_INFO: u64 = 0x3B6C;

/// The version of the VFIO interface the driver speaks.
pub const VFIO_API_VERSION: i32 = 0;

/// The IOMMU model the driver asks for.
pub const VFIO_TYPE1_IOMMU: u64 = 1;

pub const VFIO_GROUP_FLAGS_VIABLE: u32 = 1;

pub const VFIO_DMA_MAP_FLAG_READ: u32 = 1;

pub const VFIO_DMA_MAP_FLAG_WRITE: u32 = 2;

pub const VFIO_IOMMU_GET_INFO: u64 = 0x3B70;

pub const VFIO_IOMMU_MAP_DMA: u64 = 0x3B71;

pub const VFIO_IOMMU_UNMAP_DMA: u64 = 0x3B72;

pub const VFIO_DEVICE_BIND_IOMMUFD: u64 = 0x3B76;

pub const VFIO_DEVICE_ATTACH_IOMMUFD_PT: u64 = 0x3B77;

pub const VFIO_DEVICE_GET_IRQ_INFO: u64 = 0x3B6D;

pub const VFIO_DEVICE_SET_IRQS: u64 = 0x3B6E;

/// Data not present
pub const VFIO_IRQ_SET_DATA_NONE: u32 = 1;

/// Data is an eventfd
pub const VFIO_IRQ_SET_DATA_EVENTFD: u32 = 4;

/// Trigger the interrupt
pub const VFIO_IRQ_SET_ACTION_TRIGGER: u32 = 32;

pub const VFIO_PCI_MSI_IRQ_INDEX: u64 = 1;

pub const VFIO_PCI_MSIX_IRQ_INDEX: u64 = 2;

/// Index of the region that holds the configuration space of a device.
pub const VFIO_PCI_CONFIG_REGION_INDEX: u32 = 7;

/// Index of the region that holds the registers of a device.
pub const VFIO_PCI_BAR0_REGION_INDEX: u32 = 0;

pub const VFIO_IRQ_INFO_EVENTFD: u32 = 1;

/// Position of the guest address width in the capability register of an
/// Intel IOMMU.
pub const VTD_CAP_MGAW_SHIFT: u8 = 16;

/// The six bits of the guest address width in the capability register of
/// an Intel IOMMU.
pub const VTD_CAP_MGAW_MASK: u64 = 0x3F_0000;

pub const IOMMU_IOAS_ALLOC: u64 = 0x3B81;

pub const IOMMU_IOAS_MAP: u64 = 0x3B85;

pub const IOMMU_IOAS_UNMAP: u64 = 0x3B86;

pub const IOMMU_IOAS_MAP_FIXED_IOVA: u32 = 1;

pub const IOMMU_IOAS_MAP_WRITEABLE: u32 = 2;

pub const IOMMU_IOAS_MAP_READABLE: u32 = 4;

/// The request numbers listed here are those the requests of [`IoctlOp`]
/// have, and each is built from the type `;` and a sequence number.
pub proof fn lemma_request_numbers()
    ensures
        IoctlOp::VFIO_GET_API_VERSION.spec_op() == VFIO_GET_API_VERSION == io_number(0x3B, 100),
        IoctlOp::VFIO_CHECK_EXTENSION.spec_op() == VFIO_CHECK_EXTENSION == io_number(0x3B, 101),
        IoctlOp::VFIO_SET_IOMMU.spec_op() == VFIO_SET_IOMMU == io_number(0x3B, 102),
        IoctlOp::VFIO_GROUP_GET_STATUS.spec_op() == VFIO_GROUP_GET_STATUS == io_number(0x3B, 103),
        IoctlOp::VFIO_GROUP_SET_CONTAINER.spec_op() == VFIO_GROUP_SET_CONTAINER == io_number(
            0x3B,
            104,
        ),
        IoctlOp::VFIO_GROUP_GET_DEVICE_FD.spec_op() == VFIO_GROUP_GET_DEVICE_FD == io_number(
            0x3B,
            106,
        ),
        IoctlOp::VFIO_DEVICE_GET_REGION_INFO.spec_op() == VFIO_DEVICE_GET_REGION_INFO == io_number(
            0x3B,
            108,
        ),
        IoctlOp::VFIO_DEVICE_GET_IRQ_INFO.spec_op() == VFIO_DEVICE_GET_IRQ_INFO == io_number(
            0x3B,
            109,
        ),
        IoctlOp::VFIO_DEVICE_SET_IRQS.spec_op() == VFIO_DEVICE_SET_IRQS == io_number(0x3B, 110),
        IoctlOp::VFIO_IOMMU_GET_INFO.spec_op() == VFIO_IOMMU_GET_INFO == io_number(0x3B, 112),
        IoctlOp::VFIO_IOMMU_MAP_DMA.spec_op() == VFIO_IOMMU_MAP_DMA == io_number(0x3B, 113),
        IoctlOp::VFIO_IOMMU_UNMAP_DMA.spec_op() == VFIO_IOMMU_UNMAP_DMA == io_number(0x3B, 114),
        IoctlOp::VFIO_DEVICE_BIND_IOMMUFD.spec_op() == VFIO_DEVICE_BIND_IOMMUFD == io_number(
            0x3B,
            118,
        ),
        IoctlOp::VFIO_DEVICE_ATTACH_IOMMUFD_PT.spec_op() == VFIO_DEVICE_ATTACH_IOMMUFD_PT
            == io_number(0x3B, 119),
        IoctlOp::IOMMU_IOAS_ALLOC.spec_op() == IOMMU_IOAS_ALLOC == io_number(0x3B, 0x81),
        IoctlOp::IOMMU_IOAS_MAP.spec_op() == IOMMU_IOAS_MAP == io_number(0x3B, 0x85),
        IoctlOp::IOMMU_IOAS_UNMAP.spec_op() == IOMMU_IOAS_UNMAP == io_number(0x3B, 0x86),
{
    lemma_io_number(0x3B, 100);
    lemma_io_number(0x3B, 101);
    lemma_io_number(0x3B, 102);
    lemma_io_number(0x3B, 103);
    lemma_io_number(0x3B, 104);
    lemma_io_number(0x3B, 106);
    lemma_io_number(0x3B, 108);
    lemma_io_number(0x3B, 109);
    lemma_io_number(0x3B, 110);
    lemma_io_number(0x3B, 112);
    lemma_io_number(0x3B, 113);
    lemma_io_number(0x3B, 114);
    lemma_io_number(0x3B, 118);
    lemma_io_number(0x3B, 119);
    lemma_io_number(0x3B, 0x81);
    lemma_io_number(0x3B, 0x85);
    lemma_io_number(0x3B, 0x86);
}

} // verus!
