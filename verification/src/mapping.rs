//! What the two ways of giving a device memory have in common.

use vstd::prelude::*;
use crate::error::Error;
use crate::memory::{round_up, Dma, DmaView, Pagesize};
use crate::physical::Physical;
use crate::vfio::Vfio;

verus! {

/// A way of giving a device memory and of reaching its registers.
///
/// Mapping itself is the caller's part. An implementation says how the
/// result is to be understood.
pub trait Mapping {
    /// Granularity at which memory is mapped.
    spec fn spec_page_size(&self) -> Pagesize;

    /// Describes the buffer that came of mapping `size` bytes for the
    /// device: the mapping starts at host address `virt`, and the device
    /// reaches it at I/O address `iova`. The buffer spans the size rounded
    /// up to whole pages and starts on a page boundary of the I/O address
    /// space; a mapping of which that is not true is a DMA error.
    fn allocate(&self, size: usize, virt: usize, iova: usize) -> (buffer: Result<Dma, Error>)
        ensures
            match buffer {
                Ok(dma) => {
                    &&& dma@.virt == virt
                    &&& dma@.phys == iova
                    &&& dma@.size == round_up(size as int, self.spec_page_size().spec_size())
                    &&& dma@.size % self.spec_page_size().spec_size() == 0
                    &&& dma@.phys % self.spec_page_size().spec_size() == 0
                    &&& dma@.fits()
                },
                Err(e) => {
                    &&& e matches Error::Allocation(m) && m@ == buffer_error()
                    &&& iova as int % self.spec_page_size().spec_size() != 0 || !(DmaView {
                        virt: virt as int,
                        phys: iova as int,
                        size: round_up(size as int, self.spec_page_size().spec_size()),
                    }).fits()
                },
            },
    ;

    /// Number of bytes to unmap from the host when the region `dma` is
    /// given back: its size in whole pages.
    fn deallocate(&self, dma: &Dma) -> (len: Result<usize, Error>)
        ensures
            match len {
                Ok(n) => n == round_up(dma@.size, self.spec_page_size().spec_size()),
                Err(e) => {
                    &&& round_up(dma@.size, self.spec_page_size().spec_size()) > usize::MAX
                    &&& e matches Error::Mmap { len, errno } && len == dma@.size
                },
            },
    ;

    /// Number of bytes to map of the register region of the device, which
    /// is `len` bytes long. A region without bytes, or one that cannot be
    /// addressed, is refused.
    fn map_resource(&self, len: u64) -> (mapped: Result<usize, Error>)
        ensures
            match mapped {
                Ok(n) => n == len && len > 0,
                Err(e) => {
                    &&& len == 0 || len > usize::MAX
                    &&& e matches Error::Vroom(m) && m@ == region_error(len)
                },
            },
    ;
}

/// What the error says when a register region of `len` bytes cannot be
/// mapped.
pub open spec fn region_error(len: u64) -> Seq<char> {
    if len == 0 {
        "Resource0 len is 0"@
    } else {
        "Resource0 does not fit the address space"@
    }
}

/// What the error says when a mapping makes no buffer.
pub open spec fn buffer_error() -> Seq<char> {
    "the mapping is not a whole number of aligned pages"@
}

/// Describes a mapped buffer, for any way of mapping it.
pub fn describe(page_size: Pagesize, size: usize, virt: usize, iova: usize) -> (buffer: Result<
    Dma,
    Error,
>)
    ensures
        match buffer {
            Ok(dma) => {
                &&& dma@.virt == virt
                &&& dma@.phys == iova
                &&& dma@.size == round_up(size as int, page_size.spec_size())
                &&& dma@.size % page_size.spec_size() == 0
                &&& dma@.phys % page_size.spec_size() == 0
                &&& dma@.fits()
            },
            Err(e) => {
                &&& e matches Error::Allocation(m) && m@ == buffer_error()
                &&& iova as int % page_size.spec_size() != 0 || !(DmaView {
                    virt: virt as int,
                    phys: iova as int,
                    size: round_up(size as int, page_size.spec_size()),
                }).fits()
            },
        },
{
    match Dma::mapped(page_size, size, virt, iova) {
        Some(dma) => Ok(dma),
        None => Err(Error::allocation("the mapping is not a whole number of aligned pages")),
    }
}

/// Number of bytes that a region takes up in whole pages.
pub fn whole_pages(page_size: Pagesize, dma: &Dma) -> (len: Result<usize, Error>)
    ensures
        match len {
            Ok(n) => n == round_up(dma@.size, page_size.spec_size()),
            Err(e) => {
                &&& round_up(dma@.size, page_size.spec_size()) > usize::MAX
                &&& e matches Error::Mmap { len, errno } && len == dma@.size
            },
        },
{
    match page_size.checked_shift_up(dma.size()) {
        Some(len) => Ok(len),
        None => Err(Error::Mmap { len: dma.size(), errno: 0 }),
    }
}

/// Number of bytes to map of a register region of `len` bytes.
pub fn region_len(len: u64) -> (mapped: Result<usize, Error>)
    ensures
        match mapped {
            Ok(n) => n == len && len > 0,
            Err(e) => {
                    &&& len == 0 || len > usize::MAX
                    &&& e matches Error::Vroom(m) && m@ == region_error(len)
                },
        },
{
    if len == 0 {
        return Err(Error::config("Resource0 len is 0"));
    }
    if len > usize::MAX as u64 {
        return Err(Error::config("Resource0 does not fit the address space"));
    }
    Ok(len as usize)
}

/// Which of the two ways is taken for a device: through the IOMMU exactly
/// when the device belongs to an IOMMU group.
#[derive(Debug, Clone, Copy, PartialEq, Eq, Structural)]
pub enum BackendKind {
    Physical,
    Vfio,
}

/// The device's way to its memory: physical addresses on huge pages, or
/// I/O addresses behind an IOMMU.
pub enum MemoryAccess {
    Physical(Physical),
    Vfio(Vfio),
}

impl MemoryAccess {
    /// Which way is taken for a device that has an IOMMU group or has none.
    pub fn init(has_iommu_group: bool) -> (kind: BackendKind)
        ensures
            kind == (if has_iommu_group {
                BackendKind::Vfio
            } else {
                BackendKind::Physical
            }),
    {
        if has_iommu_group {
            BackendKind::Vfio
        } else {
            BackendKind::Physical
        }
    }

    /// Which way is taken for a device and with which page size: the IOMMU
    /// with the page size asked for, or physical addresses, where pages of
    /// 4 KiB are refused as a backend error.
    pub fn init_with_page_size(has_iommu_group: bool, page_size: Pagesize) -> (kind: Result<
        (BackendKind, Pagesize),
        Error,
    >)
        ensures
            match kind {
                Ok((k, p)) => p == page_size && k == (if has_iommu_group {
                    BackendKind::Vfio
                } else {
                    BackendKind::Physical
                }) && (has_iommu_group || page_size != Pagesize::Page4K),
                Err(e) => {
                    &&& !has_iommu_group && page_size == Pagesize::Page4K
                    &&& e matches Error::Mmio(m) && m@ == "Pagesize 4K not supported for non-Vfio!"@
                },
            },
    {
        if has_iommu_group {
            Ok((BackendKind::Vfio, page_size))
        } else if page_size == Pagesize::Page4K {
            Err(Error::mmio("Pagesize 4K not supported for non-Vfio!"))
        } else {
            Ok((BackendKind::Physical, page_size))
        }
    }

    /// Changes the page size of the IOMMU backend; the physical backend
    /// keeps its page size.
    pub fn set_page_size(&mut self, page_size: Pagesize)
        ensures
            match *old(self) {
                MemoryAccess::Vfio(vfio) => *final(self) matches MemoryAccess::Vfio(v) && v@ == (
                crate::vfio::VfioView { page_size, ..vfio@ }),
                MemoryAccess::Physical(physical) => *final(self) == *old(self),
            },
    {
        match self {
            MemoryAccess::Vfio(vfio) => {
                vfio.set_page_size(page_size);
            },
            MemoryAccess::Physical(_) => {},
        }
    }
}

impl Mapping for MemoryAccess {
    open spec fn spec_page_size(&self) -> Pagesize {
        match self {
            MemoryAccess::Physical(physical) => physical.spec_page_size(),
            MemoryAccess::Vfio(vfio) => vfio.spec_page_size(),
        }
    }

    fn allocate(&self, size: usize, virt: usize, iova: usize) -> (buffer: Result<Dma, Error>) {
        match self {
            MemoryAccess::Physical(physical) => physical.allocate(size, virt, iova),
            MemoryAccess::Vfio(vfio) => Mapping::allocate(vfio, size, virt, iova),
        }
    }

    fn deallocate(&self, dma: &Dma) -> (len: Result<usize, Error>) {
        match self {
            MemoryAccess::Physical(physical) => physical.deallocate(dma),
            MemoryAccess::Vfio(vfio) => Mapping::deallocate(vfio, dma),
        }
    }

    fn map_resource(&self, len: u64) -> (mapped: Result<usize, Error>) {
        match self {
            MemoryAccess::Physical(physical) => physical.map_resource(len),
            MemoryAccess::Vfio(vfio) => Mapping::map_resource(vfio, len),
        }
    }
}

impl Mapping for Vfio {
    open spec fn spec_page_size(&self) -> Pagesize {
        self@.page_size
    }

    fn allocate(&self, size: usize, virt: usize, iova: usize) -> (buffer: Result<Dma, Error>) {
        describe(self.page_size(), size, virt, iova)
    }

    fn deallocate(&self, dma: &Dma) -> (len: Result<usize, Error>) {
        whole_pages(self.page_size(), dma)
    }

    fn map_resource(&self, len: u64) -> (mapped: Result<usize, Error>) {
        region_len(len)
    }
}

} // verus!
