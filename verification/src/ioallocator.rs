//! Allocators by name: the device's way to its memory, chosen once.

use vstd::prelude::*;
use crate::error::Error;
use crate::mapping::{buffer_error, describe, region_error, region_len, whole_pages};
use crate::mapping::BackendKind;
use crate::memory::{round_up, Dma, DmaView, Pagesize};
use crate::mmio::Mmio;
use crate::vfio::Vfio;

verus! {

/// A way of allocating memory for a device.
pub trait Allocating {
    /// Granularity at which memory is mapped.
    spec fn spec_page_size(&self) -> Pagesize;

    /// Describes the buffer that came of mapping `size` bytes for the
    /// device at host address `virt` and I/O address `iova`. The buffer
    /// spans the size rounded up to whole pages and starts on a page
    /// boundary of the I/O address space; a mapping of which that is not
    /// true is a DMA error.
    fn allocate(&self, size: usize, virt: usize, iova: usize) -> (buffer: Result<Dma, Error>)
        ensures
            match buffer {
                Ok(dma) => {
                    &&& dma@.virt == virt
                    &&& dma@.phys == iova
                    &&& dma@.size == round_up(size as int, self.spec_page_size().spec_size())
                    &&& dma@.size % self.spec_page_size().spec_size() == 0
                    &&& dma@.phys % self.spec_page_size().spec_size() == 0
                    &&& dma@.fits()
                },
                Err(e) => {
                    &&& e matches Error::Allocation(m) && m@ == buffer_error()
                    &&& iova as int % self.spec_page_size().spec_size() != 0 || !(DmaView {
                        virt: virt as int,
                        phys: iova as int,
                        size: round_up(size as int, self.spec_page_size().spec_size()),
                    }).fits()
                },
            },
    ;

    /// Number of bytes to unmap from the host when the region `dma` is
    /// given back: its size in whole pages.
    fn deallocate(&self, dma: Dma) -> (len: Result<usize, Error>)
        ensures
            match len {
                Ok(n) => n == round_up(dma@.size, self.spec_page_size().spec_size()),
                Err(e) => {
                    &&& round_up(dma@.size, self.spec_page_size().spec_size()) > usize::MAX
                    &&& e matches Error::Mmap { len, errno } && len == dma@.size
                },
            },
    ;

    /// Number of bytes to map of the register region of the device, which
    /// is `len` bytes long.
    fn map_resource(&self, len: u64) -> (mapped: Result<usize, Error>)
        ensures
            match mapped {
                Ok(n) => n == len && len > 0,
                Err(e) => {
                    &&& len == 0 || len > usize::MAX
                    &&& e matches Error::Vroom(m) && m@ == region_error(len)
                },
            },
    ;
}

/// The allocator of a device: memory-mapped huge pages or VFIO.
pub enum IOAllocator {
    MmioAllocator(Mmio),
    VfioAllocator(Vfio),
}

impl IOAllocator {
    /// Which allocator is taken for a device that has an IOMMU group or has
    /// none, with pages of 2 MiB.
    pub fn init(has_iommu_group: bool) -> (kind: (BackendKind, Pagesize))
        ensures
            kind == (
                if has_iommu_group {
                    BackendKind::Vfio
                } else {
                    BackendKind::Physical
                },
                Pagesize::Page2M,
            ),
    {
        Self::init_with_page_size(has_iommu_group, Pagesize::Page2M)
    }

    /// Which allocator is taken for a device and with which page size: VFIO
    /// with the page size asked for exactly when the device has an IOMMU
    /// group, and else memory-mapped huge pages of 2 MiB.
    pub fn init_with_page_size(has_iommu_group: bool, page_size: Pagesize) -> (kind: (
        BackendKind,
        Pagesize,
    ))
        ensures
            kind == (if has_iommu_group {
                (BackendKind::Vfio, page_size)
            } else {
                (BackendKind::Physical, Pagesize::Page2M)
            }),
    {
        if has_iommu_group {
            (BackendKind::Vfio, page_size)
        } else {
            (BackendKind::Physical, Pagesize::Page2M)
        }
    }

    /// Changes the page size of the VFIO allocator; the other keeps its
    /// page size.
    pub fn set_page_size(&mut self, page_size: Pagesize)
        ensures
            match *old(self) {
                IOAllocator::VfioAllocator(vfio) => *final(self) matches IOAllocator::VfioAllocator(
                    v,
                ) && v@ == (crate::vfio::VfioView { page_size, ..vfio@ }),
                IOAllocator::MmioAllocator(mmio) => *final(self) == *old(self),
            },
    {
        match self {
            IOAllocator::VfioAllocator(vfio) => {
                vfio.set_page_size(page_size);
            },
            IOAllocator::MmioAllocator(_) => {},
        }
    }
}

impl Allocating for Vfio {
    open spec fn spec_page_size(&self) -> Pagesize {
        self@.page_size
    }

    fn allocate(&self, size: usize, virt: usize, iova: usize) -> (buffer: Result<Dma, Error>) {
        describe(self.page_size(), size, virt, iova)
    }

    fn deallocate(&self, dma: Dma) -> (len: Result<usize, Error>) {
        whole_pages(self.page_size(), &dma)
    }

    fn map_resource(&self, len: u64) -> (mapped: Result<usize, Error>) {
        region_len(len)
    }
}

impl Allocating for IOAllocator {
    open spec fn spec_page_size(&self) -> Pagesize {
        match self {
            IOAllocator::MmioAllocator(mmio) => mmio@.page_size,
            IOAllocator::VfioAllocator(vfio) => vfio@.page_size,
        }
    }

    fn allocate(&self, size: usize, virt: usize, iova: usize) -> (buffer: Result<Dma, Error>) {
        match self {
            IOAllocator::MmioAllocator(mmio) => mmio.allocate(size, virt, iova),
            IOAllocator::VfioAllocator(vfio) => Allocating::allocate(vfio, size, virt, iova),
        }
    }

    fn deallocate(&self, dma: Dma) -> (len: Result<usize, Error>) {
        match self {
            IOAllocator::MmioAllocator(mmio) => mmio.deallocate(dma),
            IOAllocator::VfioAllocator(vfio) => Allocating::deallocate(vfio, dma),
        }
    }

    fn map_resource(&self, len: u64) -> (mapped: Result<usize, Error>) {
        match self {
            IOAllocator::MmioAllocator(mmio) => mmio.map_resource(len),
            IOAllocator::VfioAllocator(vfio) => Allocating::map_resource(vfio, len),
        }
    }
}

} // verus!
