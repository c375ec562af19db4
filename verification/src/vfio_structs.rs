//! The arguments of the VFIO and IOMMUFD requests, field by field as the
//! kernel's headers define them.
#![allow(non_camel_case_types)]

use vstd::prelude::*;

verus! {

/// Argument of `VFIO_IOMMU_MAP_DMA`.
#[derive(Debug, Clone, Copy, PartialEq, Eq, Structural)]
pub struct vfio_iommu_type1_dma_map {
    pub argsz: u32,
    pub flags: u32,
    /// Host address of the memory
    pub vaddr: u64,
    /// I/O address the device uses for it
    pub iova: u64,
    /// Length of the memory in bytes
    pub size: usize,
}

/// Argument of `VFIO_IOMMU_UNMAP_DMA`.
#[derive(Debug, Clone, Copy, PartialEq, Eq, Structural)]
pub struct vfio_iommu_type1_dma_unmap {
    pub argsz: u32,
    pub flags: u32,
    /// I/O address of the mapping
    pub iova: usize,
    /// Length of the mapping in bytes
    pub size: usize,
    /// Address of further data; none is passed
    pub data: usize,
}

/// Argument of `VFIO_GROUP_GET_STATUS`.
#[derive(Debug, Clone, Copy, PartialEq, Eq, Structural)]
pub struct vfio_group_status {
    pub argsz: u32,
    pub flags: u32,
}

/// Argument of `VFIO_DEVICE_GET_REGION_INFO`.
#[derive(Debug, Clone, Copy, PartialEq, Eq, Structural)]
pub struct vfio_region_info {
    pub argsz: u32,
    pub flags: u32,
    pub index: u32,
    pub cap_offset: u32,
    /// Length of the region in bytes
    pub size: u64,
    /// Offset of the region in the file of the device
    pub offset: u64,
}

/// Argument of `VFIO_IOMMU_GET_INFO`.
#[derive(Debug, Clone, Copy, PartialEq, Eq, Structural)]
pub struct vfio_iommu_type1_info {
    pub argsz: u32,
    pub flags: u32,
    pub iova_pgsizes: u64,
    pub cap_offset: u32,
    pub pad: u32,
}

/// Argument of `VFIO_DEVICE_SET_IRQS`; `data` follows the fixed part.
#[derive(Debug, Clone, Copy, PartialEq, Eq)]
pub struct vfio_irq_set<T> {
    pub argsz: u32,
    pub flags: u32,
    pub index: u32,
    pub start: u32,
    pub count: u32,
    pub data: T,
}

/// Argument of `VFIO_DEVICE_GET_IRQ_INFO`.
#[derive(Debug, Clone, Copy, PartialEq, Eq, Structural)]
pub struct vfio_irq_info {
    pub argsz: u32,
    pub flags: u32,
    /// IRQ index
    pub index: u32,
    /// Number of IRQs within this index
    pub count: u32,
}

/// Argument of `IOMMU_IOAS_MAP`.
#[derive(Debug, Clone, Copy, PartialEq, Eq, Structural)]
pub struct iommu_ioas_map {
    pub size: u32,
    pub flags: u32,
    pub ioas_id: u32,
    pub __reserved: u32,
    /// Host address of the memory
    pub user_va: u64,
    /// Length of the memory in bytes
    pub length: u64,
    /// I/O address the kernel chose for it
    pub iova: u64,
}

/// Argument of `IOMMU_IOAS_UNMAP`.
#[derive(Debug, Clone, Copy, PartialEq, Eq, Structural)]
pub struct iommu_ioas_unmap {
    pub size: u32,
    pub ioas_id: u32,
    pub iova: u64,
    pub length: u64,
}

/// Argument of `VFIO_DEVICE_BIND_IOMMUFD`.
#[derive(Debug, Clone, Copy, PartialEq, Eq, Structural)]
pub struct vfio_device_bind_iommufd {
    pub argsz: u32,
    pub flags: u32,
    pub iommufd: i32,
    pub out_devid: u32,
}

/// Argument of `IOMMU_IOAS_ALLOC`.
#[derive(Debug, Clone, Copy, PartialEq, Eq, Structural)]
pub struct iommu_ioas_alloc {
    pub size: u32,
    pub flags: u32,
    pub out_ioas_id: u32,
}

/// Argument of `VFIO_DEVICE_ATTACH_IOMMUFD_PT`.
#[derive(Debug, Clone, Copy, PartialEq, Eq, Structural)]
pub struct vfio_device_attach_iommufd_pt {
    pub argsz: u32,
    pub flags: u32,
    pub pt_id: u32,
}

/// Size in bytes of [`vfio_group_status`] in the kernel's layout.
pub const VFIO_GROUP_STATUS_SIZE: u32 = 8;

/// Size in bytes of [`vfio_region_info`] in the kernel's layout.
pub const VFIO_REGION_INFO_SIZE: u32 = 32;

/// Size in bytes of [`vfio_iommu_type1_info`] in the kernel's layout.
pub const VFIO_IOMMU_TYPE1_INFO_SIZE: u32 = 24;

/// Size in bytes of [`vfio_iommu_type1_dma_map`] in the kernel's layout.
pub const VFIO_IOMMU_TYPE1_DMA_MAP_SIZE: u32 = 32;

/// Size in bytes of [`vfio_iommu_type1_dma_unmap`] as the driver lays it
/// out on a 64-bit machine.
pub const VFIO_IOMMU_TYPE1_DMA_UNMAP_SIZE: u32 = 32;

/// Size in bytes of [`iommu_ioas_map`] in the kernel's layout.
pub const IOMMU_IOAS_MAP_SIZE: u32 = 40;

/// Size in bytes of [`iommu_ioas_unmap`] in the kernel's layout.
pub const IOMMU_IOAS_UNMAP_SIZE: u32 = 24;

/// Size in bytes of [`vfio_device_bind_iommufd`] in the kernel's layout.
pub const VFIO_DEVICE_BIND_IOMMUFD_SIZE: u32 = 16;

/// Size in bytes of [`iommu_ioas_alloc`] in the kernel's layout.
pub const IOMMU_IOAS_ALLOC_SIZE: u32 = 12;

/// Size in bytes of [`vfio_device_attach_iommufd_pt`] in the kernel's
/// layout.
pub const VFIO_DEVICE_ATTACH_IOMMUFD_PT_SIZE: u32 = 12;

} // verus!
