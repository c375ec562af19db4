//! The physical-address backend: memory on huge pages, which the device
//! reaches at its physical address, and registers mapped from sysfs.

use vstd::prelude::*;
use vstd::string::StringExecFns;
use crate::error::Error;
use crate::mapping::{describe, region_len, whole_pages, Mapping};
use crate::memory::{Dma, Pagesize, DEFAULT_PAGE_SIZE};

verus! {

/// Size in bytes of an entry of the page map of a process.
pub const PAGEMAP_ENTRY_SIZE: u64 = 8;

/// Number of low bits of a page map entry that hold the page frame number.
pub const PAGEMAP_FRAME_BITS: u64 = 55;

/// Offset in the page map of a process of the entry for host address `addr`,
/// with pages of `pagesize` bytes: the page number times eight.
pub open spec fn spec_pagemap_offset(addr: usize, pagesize: usize) -> int {
    (addr / pagesize) * 8
}

/// The physical address of host address `addr` when its page map entry is
/// `entry`: the page frame, which the low 55 bits of the entry number,
/// plus the offset of the address in its page.
pub open spec fn spec_physical_address(entry: u64, addr: usize, pagesize: usize) -> int {
    (entry % 0x80_0000_0000_0000) * pagesize + addr % pagesize
}

/// Offset of the page map entry for host address `addr`. `None` if the
/// offset does not fit 64 bits.
pub fn pagemap_offset(addr: usize, pagesize: usize) -> (offset: Option<u64>)
    requires
        pagesize > 0,
    ensures
        match offset {
            Some(o) => o == spec_pagemap_offset(addr, pagesize),
            None => spec_pagemap_offset(addr, pagesize) > u64::MAX,
        },
{
    let page: u64 = (addr / pagesize) as u64;
    if page > u64::MAX / PAGEMAP_ENTRY_SIZE {
        None
    } else {
        Some(page * PAGEMAP_ENTRY_SIZE)
    }
}

/// Translates the host address `addr` to its physical counterpart, given
/// its page map entry. `None` if the physical address does not fit the
/// address space.
pub fn virt_to_phys(entry: u64, addr: usize, pagesize: usize) -> (phys: Option<usize>)
    requires
        pagesize > 0,
    ensures
        match phys {
            Some(p) => p == spec_physical_address(entry, addr, pagesize),
            None => spec_physical_address(entry, addr, pagesize) > usize::MAX,
        },
{
    let frame: u64 = entry % 0x80_0000_0000_0000;
    let rest: usize = addr % pagesize;
    let limit: u64 = ((usize::MAX - rest) / pagesize) as u64;
    if frame > limit {
        assert(frame * pagesize + rest > usize::MAX) by (nonlinear_arith)
            requires
                frame > (usize::MAX - rest) / (pagesize as int),
                pagesize > 0,
                0 <= rest,
        ;
        return None;
    }
    assert(frame * pagesize + rest <= usize::MAX) by (nonlinear_arith)
        requires
            frame <= (usize::MAX - rest) / (pagesize as int),
            pagesize > 0,
            0 <= rest <= usize::MAX,
    ;
    Some(frame as usize * pagesize + rest)
}

/// A device that is driven with physical addresses on huge pages.
pub struct Physical {
    pci_addr: String,
    page_size: Pagesize,
}

/// What a [`Physical`] stands for.
pub struct PhysicalView {
    pub pci_addr: Seq<char>,
    pub page_size: Pagesize,
}

impl View for Physical {
    type V = PhysicalView;

    closed spec fn view(&self) -> PhysicalView {
        PhysicalView { pci_addr: self.pci_addr@, page_size: self.page_size }
    }
}

impl Physical {
    /// The device at PCI address `pci_addr`, with pages of 2 MiB.
    pub fn init(pci_addr: &str) -> (physical: Result<Physical, Error>)
        ensures
            physical matches Ok(p) && p@ == (PhysicalView {
                pci_addr: pci_addr@,
                page_size: Pagesize::Page2M,
            }),
    {
        Self::init_with_args(pci_addr, DEFAULT_PAGE_SIZE)
    }

    /// The device at PCI address `pci_addr`, with pages of `page_size`.
    /// Pages of 4 KiB are a backend error: below huge pages, memory is not
    /// contiguous for the device.
    pub fn init_with_args(pci_addr: &str, page_size: Pagesize) -> (physical: Result<
        Physical,
        Error,
    >)
        ensures
            match physical {
                Ok(p) => page_size != Pagesize::Page4K && p@ == (PhysicalView {
                    pci_addr: pci_addr@,
                    page_size,
                }),
                Err(e) => {
                    &&& page_size == Pagesize::Page4K
                    &&& e matches Error::Mmio(m) && m@ == "Pagesize 4K not supported for non-Vfio!"@
                },
            },
    {
        if page_size == Pagesize::Page4K {
            return Err(Error::mmio("Pagesize 4K not supported for non-Vfio!"));
        }
        Ok(Physical { pci_addr: String::from_str(pci_addr), page_size })
    }

    pub fn page_size(&self) -> (page_size: Pagesize)
        ensures
            page_size == self@.page_size,
    {
        self.page_size
    }

    /// Whether the device is bound to the stub driver: whether one of the
    /// links in the directory of that driver, whose names are `links`, is
    /// named like the device.
    pub fn is_bound_to_pci_stub(&self, links: &Vec<String>) -> (bound: bool)
        ensures
            bound == exists|i: int| 0 <= i < links@.len() && links@[i]@ == self@.pci_addr,
    {
        let mut i: usize = 0;
        while i < links.len()
            invariant
                i <= links@.len(),
                forall|k: int| 0 <= k < i ==> links@[k]@ != self@.pci_addr,
            decreases links@.len() - i,
        {
            if links[i] == self.pci_addr {
                return true;
            }
            i = i + 1;
        }
        false
    }

    /// Checks that the device is bound to the stub driver; a device that is
    /// not is a backend error.
    pub fn check_pci_stub(&self, links: &Vec<String>) -> (checked: Result<(), Error>)
        ensures
            match checked {
                Ok(()) => exists|i: int| 0 <= i < links@.len() && links@[i]@ == self@.pci_addr,
                Err(e) => {
                    &&& e matches Error::Mmio(m) && m@ == "The device is not bound to Pci-Stub!"@
                    &&& forall|i: int| 0 <= i < links@.len() ==> links@[i]@ != self@.pci_addr
                },
            },
    {
        if self.is_bound_to_pci_stub(links) {
            Ok(())
        } else {
            Err(Error::mmio("The device is not bound to Pci-Stub!"))
        }
    }

    /// Enables direct memory access for the device, whose configuration
    /// space is `space`.
    pub fn enable_dma(&self, space: &mut Vec<u8>) -> (done: Result<(), Error>)
        ensures
            match done {
                Ok(()) => {
                    &&& old(space)@.len() >= 6
                    &&& final(space)@ == crate::pci::patched(
                        old(space)@,
                        4,
                        crate::wire::le16(
                            crate::pci::with_bus_master(crate::pci::command_register(old(space)@)),
                        ),
                    )
                },
                Err(e) => old(space)@.len() < 6 && final(space)@ == old(space)@ && e matches Error::Io(
                    _,
                ),
            },
    {
        crate::pci::enable_dma(space)
    }

    /// Disables the legacy interrupts of the device, whose configuration
    /// space is `space`.
    pub fn disable_interrupts(&self, space: &mut Vec<u8>) -> (done: Result<(), Error>)
        ensures
            match done {
                Ok(()) => {
                    &&& old(space)@.len() >= 6
                    &&& final(space)@ == crate::pci::patched(
                        old(space)@,
                        4,
                        crate::wire::le16(
                            crate::pci::without_interrupts(crate::pci::command_register(old(space)@)),
                        ),
                    )
                },
                Err(e) => old(space)@.len() < 6 && final(space)@ == old(space)@ && e matches Error::Io(
                    _,
                ),
            },
    {
        crate::pci::disable_interrupts(space)
    }
}

impl Mapping for Physical {
    open spec fn spec_page_size(&self) -> Pagesize {
        self@.page_size
    }

    fn allocate(&self, size: usize, virt: usize, iova: usize) -> (buffer: Result<Dma, Error>) {
        describe(self.page_size, size, virt, iova)
    }

    fn deallocate(&self, dma: &Dma) -> (len: Result<usize, Error>) {
        whole_pages(self.page_size, dma)
    }

    fn map_resource(&self, len: u64) -> (mapped: Result<usize, Error>) {
        region_len(len)
    }
}

} // verus!
