//! The IOMMU backend: what is asked of the kernel's VFIO and IOMMUFD
//! interfaces, in which order, and what is made of the answers.
//!
//! The library does not talk to the kernel. Setting a device up is a
//! conversation: the library names the next request, the caller makes it and
//! hands back the reply, until the library says that the device is set up or
//! that setting it up has failed.
#![allow(non_camel_case_types)]

pub mod setup;

pub use self::setup::{IoctlArg, Progress, SetupFailure, SetupReply, SetupRequest, Stage, VfioSetup};

use vstd::prelude::*;
use vstd::string::StringExecFns;
use crate::error::Error;
use crate::ioctl_op::IoctlFlag;
use crate::memory::{lemma_round_up, round_up, Dma, DmaView, Pagesize, PAGESIZE_2MIB};
use crate::vfio_structs::{iommu_ioas_map, iommu_ioas_unmap, vfio_iommu_type1_dma_map};
use crate::vfio_structs::{vfio_iommu_type1_dma_unmap, vfio_region_info};

verus! {

/// Width in bits of the addresses a process on x86-64 uses.
pub const X86_VA_WIDTH: u8 = 47;

/// Whether devices are opened through their character device by default.
pub const USE_CDEV: bool = false;

/// Stands for a file that is not open.
pub const NO_FD: i32 = -1;

/// The guest address width that the capability register `cap` of an Intel
/// IOMMU gives: the six bits from bit 16 on, plus one.
pub open spec fn spec_gaw(cap: u64) -> int {
    (cap / 0x1_0000) % 64 + 1
}

/// The width of the I/O addresses to use: the width of the host's
/// addresses, or the guest address width of the IOMMU where that is known
/// and narrower.
pub open spec fn spec_iova_width(cap: Option<u64>) -> int {
    match cap {
        Some(cap) => if spec_gaw(cap) < 47 {
            spec_gaw(cap)
        } else {
            47
        },
        None => 47,
    }
}

/// The interface through which memory is mapped for the device.
#[derive(Debug, Clone, Copy, PartialEq, Eq, Structural)]
pub enum VfioBackend {
    /// A VFIO container with a type 1 IOMMU
    Legacy { container_fd: i32 },
    /// An I/O address space of IOMMUFD
    IOMMUFD { ioas_id: u32, iommufd: i32 },
}

/// The request that maps memory for the device.
#[derive(Debug, Clone, Copy, PartialEq, Eq, Structural)]
pub enum DmaMapRequest {
    /// `VFIO_IOMMU_MAP_DMA` on the container `fd`
    Legacy { fd: i32, argument: vfio_iommu_type1_dma_map },
    /// `IOMMU_IOAS_MAP` on the IOMMUFD `fd`
    Iommufd { fd: i32, ioas: iommu_ioas_map },
}

/// The request that takes a mapping away from the device.
#[derive(Debug, Clone, Copy, PartialEq, Eq, Structural)]
pub enum DmaUnmapRequest {
    /// `VFIO_IOMMU_UNMAP_DMA` on the container `fd`
    Legacy { fd: i32, argument: vfio_iommu_type1_dma_unmap },
    /// `IOMMU_IOAS_UNMAP` on the IOMMUFD `fd`
    Iommufd { fd: i32, ioas: iommu_ioas_unmap },
}

impl VfioBackend {
    /// The request that maps `size` bytes at host address `ptr` for reading
    /// and writing by the device, at the I/O address that equals the host
    /// address: the device sees the memory where the host sees it. IOMMUFD
    /// is told that the I/O address is fixed, so that it does not choose
    /// one of its own.
    pub open spec fn spec_map_dma(self, ptr: usize, size: usize) -> DmaMapRequest {
        match self {
            VfioBackend::Legacy { container_fd } => DmaMapRequest::Legacy {
                fd: container_fd,
                argument: vfio_iommu_type1_dma_map {
                    argsz: 32,
                    flags: 3,
                    vaddr: ptr as u64,
                    iova: ptr as u64,
                    size,
                },
            },
            VfioBackend::IOMMUFD { ioas_id, iommufd } => DmaMapRequest::Iommufd {
                fd: iommufd,
                ioas: iommu_ioas_map {
                    size: 40,
                    flags: 7,
                    ioas_id,
                    __reserved: 0,
                    user_va: ptr as u64,
                    length: size as u64,
                    iova: ptr as u64,
                },
            },
        }
    }

    /// The request that takes the mapping of the region `dma` away.
    pub open spec fn spec_unmap_dma(self, dma: DmaView) -> DmaUnmapRequest {
        match self {
            VfioBackend::Legacy { container_fd } => DmaUnmapRequest::Legacy {
                fd: container_fd,
                argument: vfio_iommu_type1_dma_unmap {
                    argsz: 32,
                    flags: 0,
                    iova: dma.phys as usize,
                    size: dma.size as usize,
                    data: 0,
                },
            },
            VfioBackend::IOMMUFD { ioas_id, iommufd } => DmaUnmapRequest::Iommufd {
                fd: iommufd,
                ioas: iommu_ioas_unmap {
                    size: 24,
                    ioas_id,
                    iova: dma.phys as u64,
                    length: dma.size as u64,
                },
            },
        }
    }

    pub fn map_dma(&self, ptr: usize, size: usize) -> (request: DmaMapRequest)
        ensures
            request == self.spec_map_dma(ptr, size),
    {
        match self {
            VfioBackend::Legacy { container_fd } => {
                let read = IoctlFlag::VFIO_DMA_MAP_FLAG_READ.bits();
                let write = IoctlFlag::VFIO_DMA_MAP_FLAG_WRITE.bits();
                assert(1u32 | 2u32 == 3u32) by (bit_vector);
                DmaMapRequest::Legacy {
                    fd: *container_fd,
                    argument: vfio_iommu_type1_dma_map {
                        argsz: crate::vfio_structs::VFIO_IOMMU_TYPE1_DMA_MAP_SIZE,
                        flags: read | write,
                        vaddr: ptr as u64,
                        iova: ptr as u64,
                        size,
                    },
                }
            },
            VfioBackend::IOMMUFD { ioas_id, iommufd } => {
                let fixed = IoctlFlag::IOMMU_IOAS_MAP_FIXED_IOVA.bits();
                let write = IoctlFlag::IOMMU_IOAS_MAP_WRITEABLE.bits();
                let read = IoctlFlag::IOMMU_IOAS_MAP_READABLE.bits();
                assert(1u32 | 2u32 | 4u32 == 7u32) by (bit_vector);
                DmaMapRequest::Iommufd {
                    fd: *iommufd,
                    ioas: iommu_ioas_map {
                        size: crate::vfio_structs::IOMMU_IOAS_MAP_SIZE,
                        flags: fixed | write | read,
                        ioas_id: *ioas_id,
                        __reserved: 0,
                        user_va: ptr as u64,
                        length: size as u64,
                        iova: ptr as u64,
                    },
                }
            },
        }
    }

    pub fn unmap_dma(&self, dma: &Dma) -> (request: DmaUnmapRequest)
        ensures
            request == self.spec_unmap_dma(dma@),
    {
        match self {
            VfioBackend::Legacy { container_fd } => DmaUnmapRequest::Legacy {
                fd: *container_fd,
                argument: vfio_iommu_type1_dma_unmap {
                    argsz: crate::vfio_structs::VFIO_IOMMU_TYPE1_DMA_UNMAP_SIZE,
                    flags: 0,
                    iova: dma.phys(),
                    size: dma.size(),
                    data: 0,
                },
            },
            VfioBackend::IOMMUFD { ioas_id, iommufd } => DmaUnmapRequest::Iommufd {
                fd: *iommufd,
                ioas: iommu_ioas_unmap {
                    size: crate::vfio_structs::IOMMU_IOAS_UNMAP_SIZE,
                    ioas_id: *ioas_id,
                    iova: dma.phys() as u64,
                    length: dma.size() as u64,
                },
            },
        }
    }
}

/// Whichever interface maps the memory, the request asks for an identity
/// map with read and write access: the I/O address is the host address, the
/// length is the length asked for, and both access bits are set. IOMMUFD is
/// told besides that the I/O address is fixed.
pub proof fn lemma_identity_map(backend: VfioBackend, ptr: usize, size: usize)
    ensures
        match backend.spec_map_dma(ptr, size) {
            DmaMapRequest::Legacy { fd, argument } => {
                &&& backend == (VfioBackend::Legacy { container_fd: fd })
                &&& argument.vaddr == ptr
                &&& argument.iova == argument.vaddr
                &&& argument.size == size
                &&& argument.flags & 1 == 1
                &&& argument.flags & 2 == 2
            },
            DmaMapRequest::Iommufd { fd, ioas } => {
                &&& backend matches VfioBackend::IOMMUFD { ioas_id, iommufd } && iommufd == fd
                    && ioas_id == ioas.ioas_id
                &&& ioas.user_va == ptr
                &&& ioas.iova == ioas.user_va
                &&& ioas.length == size
                &&& ioas.flags & 1 == 1
                &&& ioas.flags & 2 == 2
                &&& ioas.flags & 4 == 4
            },
        },
{
    assert(3u32 & 1 == 1 && 3u32 & 2 == 2 && 7u32 & 1 == 1 && 7u32 & 2 == 2 && 7u32 & 4 == 4)
        by (bit_vector);
}

/// How memory for the device is to be obtained from the system.
#[derive(Debug, Clone, Copy, PartialEq, Eq, Structural)]
pub enum MapPlan {
    /// Map `len` bytes of anonymous, shared memory that is populated at
    /// once, in pages of `page`; `low` asks for an address below 4 GiB.
    Anonymous { len: usize, page: Pagesize, low: bool },
    /// Map `probe` bytes of ordinary pages below 4 GiB to find room, then
    /// cut the mapping down as [`Vfio::realign`] says and map `len` bytes of
    /// 2 MiB pages at the aligned address.
    Probe { len: usize, probe: usize },
}

/// How a probe mapping is cut down to its aligned part.
#[derive(Debug, Clone, Copy, PartialEq, Eq, Structural)]
pub struct Realign {
    /// First address in the probe mapping that is a multiple of 2 MiB
    pub aligned: usize,
    /// Number of bytes to unmap at the start of the probe mapping
    pub head: usize,
    /// Address of the bytes to unmap after the aligned part
    pub tail_addr: usize,
    /// Number of bytes to unmap after the aligned part
    pub tail: usize,
}

/// Whatever the plan, the memory it asks for is the size asked for in whole
/// pages: the length of the mapping is the size rounded up to the page size
/// of the device, a multiple of the page size, and a probe is one page of
/// 2 MiB longer.
pub proof fn lemma_plan_spans_whole_pages(vfio: VfioView, size: usize, iova_width: u8)
    ensures
        match vfio.plan(size, iova_width) {
            Some(MapPlan::Anonymous { len, page, low }) => {
                &&& len == round_up(size as int, vfio.page_size.spec_size())
                &&& len % vfio.page_size.spec_size() as usize == 0
                &&& size <= len
                &&& page == vfio.page_size
            },
            Some(MapPlan::Probe { len, probe }) => {
                &&& len == round_up(size as int, 0x20_0000)
                &&& len % 0x20_0000 == 0
                &&& size <= len
                &&& probe == len + 0x20_0000
                &&& vfio.page_size == Pagesize::Page2M
            },
            None => round_up(size as int, vfio.page_size.spec_size()) + (if vfio.page_size
                == Pagesize::Page2M && iova_width < 47 {
                0x20_0000int
            } else {
                0int
            }) > usize::MAX,
        },
{
    lemma_round_up(size as int, vfio.page_size.spec_size());
}

/// A device behind an IOMMU, opened through VFIO.
#[derive(Debug, Clone, PartialEq, Eq)]
pub struct Vfio {
    pci_addr: String,
    device_fd: i32,
    page_size: Pagesize,
    iommu: VfioBackend,
}

/// What a [`Vfio`] stands for.
pub struct VfioView {
    pub pci_addr: Seq<char>,
    pub device_fd: i32,
    pub page_size: Pagesize,
    pub iommu: VfioBackend,
}

impl View for Vfio {
    type V = VfioView;

    closed spec fn view(&self) -> VfioView {
        VfioView {
            pci_addr: self.pci_addr@,
            device_fd: self.device_fd,
            page_size: self.page_size,
            iommu: self.iommu,
        }
    }
}

impl VfioView {
    /// How `size` bytes are to be mapped when I/O addresses have
    /// `iova_width` bits, or `None` if so much memory cannot be addressed.
    ///
    /// The size is rounded up to whole pages. With I/O addresses narrower
    /// than the host's, memory has to lie below 4 GiB, and memory in 2 MiB
    /// pages is then found by probing.
    pub open spec fn plan(self, size: usize, iova_width: u8) -> Option<MapPlan> {
        let len = round_up(size as int, self.page_size.spec_size());
        if len > usize::MAX {
            None
        } else {
            match self.page_size {
                Pagesize::Page4K => Some(
                    MapPlan::Anonymous {
                        len: len as usize,
                        page: Pagesize::Page4K,
                        low: iova_width < 47,
                    },
                ),
                Pagesize::Page1G => Some(
                    MapPlan::Anonymous { len: len as usize, page: Pagesize::Page1G, low: false },
                ),
                Pagesize::Page2M => if iova_width >= 47 {
                    Some(
                        MapPlan::Anonymous {
                            len: len as usize,
                            page: Pagesize::Page2M,
                            low: false,
                        },
                    )
                } else if len + 0x20_0000 > usize::MAX {
                    None
                } else {
                    Some(MapPlan::Probe { len: len as usize, probe: (len + 0x20_0000) as usize })
                },
            }
        }
    }
}

impl Vfio {
    /// A device that was set up: `pci_addr` names it, `device_fd` is its
    /// open file, memory is mapped for it in pages of `page_size` through
    /// `iommu`.
    pub fn new(pci_addr: &str, device_fd: i32, page_size: Pagesize, iommu: VfioBackend) -> (vfio:
        Vfio)
        ensures
            vfio@ == (VfioView { pci_addr: pci_addr@, device_fd, page_size, iommu }),
    {
        Vfio { pci_addr: String::from_str(pci_addr), device_fd, page_size, iommu }
    }

    pub fn device_fd(&self) -> (fd: i32)
        ensures
            fd == self@.device_fd,
    {
        self.device_fd
    }

    pub fn page_size(&self) -> (page_size: Pagesize)
        ensures
            page_size == self@.page_size,
    {
        self.page_size
    }

    pub fn iommu(&self) -> (iommu: VfioBackend)
        ensures
            iommu == self@.iommu,
    {
        self.iommu
    }

    pub fn set_page_size(&mut self, page_size: Pagesize)
        ensures
            final(self)@ == (VfioView { page_size, ..old(self)@ }),
    {
        self.page_size = page_size;
    }

    /// The guest address width that the capability register of an Intel
    /// IOMMU gives.
    pub fn get_intel_iommu_gaw(cap: u64) -> (mgaw: u8)
        ensures
            mgaw == spec_gaw(cap),
    {
        ((cap / 0x1_0000) % 64 + 1) as u8
    }

    /// The width of the I/O addresses to use, given the capability register
    /// of the IOMMU if it is an Intel IOMMU.
    pub fn check_intel_iommu(cap: Option<u64>) -> (width: u8)
        ensures
            width == spec_iova_width(cap),
    {
        match cap {
            Some(cap) => {
                let mgaw = Self::get_intel_iommu_gaw(cap);
                if mgaw < X86_VA_WIDTH {
                    mgaw
                } else {
                    X86_VA_WIDTH
                }
            },
            None => X86_VA_WIDTH,
        }
    }

    /// How `size` bytes of memory for the device are to be obtained when
    /// I/O addresses have `iova_width` bits. Memory that cannot be addressed
    /// is a DMA error.
    pub fn allocate(&self, size: usize, iova_width: u8) -> (plan: Result<MapPlan, Error>)
        ensures
            match plan {
                Ok(p) => self@.plan(size, iova_width) == Some(p),
                Err(e) => self@.plan(size, iova_width) is None && e matches Error::Allocation(_),
            },
    {
        let len = match self.page_size.checked_shift_up(size) {
            Some(len) => len,
            None => {
                return Err(Error::allocation("the size does not fit the address space"));
            },
        };
        match self.page_size {
            Pagesize::Page4K => Ok(
                MapPlan::Anonymous { len, page: Pagesize::Page4K, low: iova_width < X86_VA_WIDTH },
            ),
            Pagesize::Page1G => Ok(MapPlan::Anonymous { len, page: Pagesize::Page1G, low: false }),
            Pagesize::Page2M => {
                if iova_width >= X86_VA_WIDTH {
                    Ok(MapPlan::Anonymous { len, page: Pagesize::Page2M, low: false })
                } else if len > usize::MAX - PAGESIZE_2MIB {
                    Err(Error::allocation("the size does not fit the address space"))
                } else {
                    Ok(MapPlan::Probe { len, probe: len + PAGESIZE_2MIB })
                }
            },
        }
    }

    /// How the probe mapping of `len` bytes plus 2 MiB at host address
    /// `addr` is cut down: the aligned part of `len` bytes starts at the
    /// first multiple of 2 MiB in the mapping, and what lies before and
    /// after it is unmapped. `None` if the mapping does not fit the address
    /// space.
    pub fn realign(addr: usize, len: usize) -> (cut: Option<Realign>)
        ensures
            match cut {
                Some(r) => {
                    &&& addr + len + 0x20_0000 <= usize::MAX
                    &&& r.aligned == round_up(addr as int, 0x20_0000)
                    &&& r.aligned % 0x20_0000 == 0
                    &&& addr <= r.aligned < addr + 0x20_0000
                    &&& r.head == r.aligned - addr
                    &&& r.tail_addr == r.aligned + len
                    &&& r.tail == 0x20_0000 - r.head
                    &&& r.tail_addr + r.tail == addr + len + 0x20_0000
                },
                None => addr + len + 0x20_0000 > usize::MAX,
            },
    {
        if len > usize::MAX - PAGESIZE_2MIB || addr > usize::MAX - PAGESIZE_2MIB - len {
            return None;
        }
        proof {
            lemma_round_up(addr as int, 0x20_0000);
        }
        let rest = addr % PAGESIZE_2MIB;
        let aligned: usize = if rest == 0 {
            addr
        } else {
            addr + (PAGESIZE_2MIB - rest)
        };
        let head: usize = aligned - addr;
        Some(Realign { aligned, head, tail_addr: aligned + len, tail: PAGESIZE_2MIB - head })
    }

    /// The request that maps `size` bytes at host address `ptr` for the
    /// device.
    pub fn map_dma(&self, ptr: usize, size: usize) -> (request: DmaMapRequest)
        ensures
            request == self@.iommu.spec_map_dma(ptr, size),
    {
        self.iommu.map_dma(ptr, size)
    }

    /// Describes the buffer that came of mapping `requested` bytes: the
    /// mapping starts at host address `ptr`, and the map request came back
    /// with I/O address `iova`. The device reaches the buffer at the address
    /// at which the host reaches it, and the buffer spans the requested size
    /// rounded up to whole pages from a page boundary on. A mapping of which
    /// that is not true is a DMA error.
    pub fn mapped(&self, requested: usize, ptr: usize, iova: u64) -> (buffer: Result<Dma, Error>)
        ensures
            match buffer {
                Ok(dma) => {
                    &&& iova == ptr
                    &&& dma@.virt == ptr
                    &&& dma@.phys == ptr
                    &&& dma@.size == round_up(requested as int, self@.page_size.spec_size())
                    &&& dma@.size % self@.page_size.spec_size() == 0
                    &&& dma@.phys % self@.page_size.spec_size() == 0
                    &&& dma@.fits()
                },
                Err(e) => {
                    &&& e matches Error::Allocation(_)
                    &&& iova != ptr || ptr as int % self@.page_size.spec_size() != 0 || !(DmaView {
                        virt: ptr as int,
                        phys: ptr as int,
                        size: round_up(requested as int, self@.page_size.spec_size()),
                    }).fits()
                },
            },
    {
        if iova != ptr as u64 {
            return Err(Error::allocation("the device does not see the memory where the host does"));
        }
        proof {
            lemma_round_up(requested as int, self@.page_size.spec_size());
        }
        match Dma::mapped(self.page_size, requested, ptr, ptr) {
            Some(dma) => Ok(dma),
            None => Err(Error::allocation("the mapping is not a whole number of aligned pages")),
        }
    }

    /// What gives the region `dma` back: the request that takes its mapping
    /// away from the device, and the number of bytes to unmap from the host
    /// afterwards, the size of the region in whole pages.
    pub fn deallocate(&self, dma: &Dma) -> (release: Result<(DmaUnmapRequest, usize), Error>)
        ensures
            match release {
                Ok((request, len)) => {
                    &&& request == self@.iommu.spec_unmap_dma(dma@)
                    &&& len == round_up(dma@.size, self@.page_size.spec_size())
                },
                Err(e) => {
                    &&& round_up(dma@.size, self@.page_size.spec_size()) > usize::MAX
                    &&& e matches Error::Mmap { len, errno } && len == dma@.size && errno == 0
                },
            },
    {
        let request = self.iommu.unmap_dma(dma);
        match self.page_size.checked_shift_up(dma.size()) {
            Some(len) => Ok((request, len)),
            None => Err(Error::Mmap { len: dma.size(), errno: 0 }),
        }
    }

    /// The argument of the request that tells where region `index` of the
    /// device lies.
    pub fn map_resource_index(index: u32) -> (argument: vfio_region_info)
        ensures
            argument == (vfio_region_info {
                argsz: 32,
                flags: 0,
                index,
                cap_offset: 0,
                size: 0,
                offset: 0,
            }),
    {
        vfio_region_info {
            argsz: crate::vfio_structs::VFIO_REGION_INFO_SIZE,
            flags: 0,
            index,
            cap_offset: 0,
            size: 0,
            offset: 0,
        }
    }

    /// The argument of the request that tells where the registers of the
    /// device lie: region 0.
    pub fn map_resource() -> (argument: vfio_region_info)
        ensures
            argument == (vfio_region_info {
                argsz: 32,
                flags: 0,
                index: 0,
                cap_offset: 0,
                size: 0,
                offset: 0,
            }),
    {
        Self::map_resource_index(crate::vfio_constants::VFIO_PCI_BAR0_REGION_INDEX)
    }

    /// Length and file offset with which the region that `info` describes
    /// is mapped into the host. A region without bytes, or one that cannot
    /// be addressed, is a backend error.
    pub fn resource_mapping(info: &vfio_region_info) -> (mapping: Result<(usize, i64), Error>)
        ensures
            match mapping {
                Ok((len, offset)) => {
                    &&& len == info.size
                    &&& offset == info.offset
                    &&& len > 0
                },
                Err(e) => {
                    &&& e matches Error::Vfio(_)
                    &&& info.size == 0 || info.size > usize::MAX || info.offset > i64::MAX
                },
            },
    {
        if info.size == 0 || info.size > usize::MAX as u64 || info.offset > i64::MAX as u64 {
            return Err(Error::vfio("the region of the device cannot be mapped"));
        }
        Ok((info.size as usize, info.offset as i64))
    }
}

} // verus!
