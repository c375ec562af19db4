//! Memory-mapped access without a stub driver: huge pages at physical
//! addresses, registers mapped from sysfs.

use vstd::prelude::*;
use vstd::string::StringExecFns;
use crate::error::Error;
use crate::ioallocator::Allocating;
use crate::mapping::{describe, region_len, whole_pages};
use crate::memory::{Dma, Pagesize, DEFAULT_PAGE_SIZE};

verus! {

/// A device that is driven with physical addresses on huge pages.
pub struct Mmio {
    pci_addr: String,
    page_size: Pagesize,
}

/// What an [`Mmio`] stands for.
pub struct MmioView {
    pub pci_addr: Seq<char>,
    pub page_size: Pagesize,
}

impl View for Mmio {
    type V = MmioView;

    closed spec fn view(&self) -> MmioView {
        MmioView { pci_addr: self.pci_addr@, page_size: self.page_size }
    }
}

impl Mmio {
    /// The device at PCI address `pci_addr`, with pages of 2 MiB.
    pub fn init(pci_addr: &str) -> (mmio: Result<Mmio, Error>)
        ensures
            mmio matches Ok(m) && m@ == (MmioView {
                pci_addr: pci_addr@,
                page_size: Pagesize::Page2M,
            }),
    {
        Self::init_with_args(pci_addr, DEFAULT_PAGE_SIZE)
    }

    /// The device at PCI address `pci_addr`, with pages of `page_size`.
    /// Pages of 4 KiB are a backend error.
    pub fn init_with_args(pci_addr: &str, page_size: Pagesize) -> (mmio: Result<Mmio, Error>)
        ensures
            match mmio {
                Ok(m) => page_size != Pagesize::Page4K && m@ == (MmioView {
                    pci_addr: pci_addr@,
                    page_size,
                }),
                Err(e) => {
                    &&& page_size == Pagesize::Page4K
                    &&& e matches Error::Mmio(m) && m@ == "Pagesize 4K not supported for non-Vfio!"@
                },
            },
    {
        if page_size == Pagesize::Page4K {
            return Err(Error::mmio("Pagesize 4K not supported for non-Vfio!"));
        }
        Ok(Mmio { pci_addr: String::from_str(pci_addr), page_size })
    }

    pub fn page_size(&self) -> (page_size: Pagesize)
        ensures
            page_size == self@.page_size,
    {
        self.page_size
    }

    /// Enables direct memory access for the device, whose configuration
    /// space is `space`.
    pub fn enable_dma(&self, space: &mut Vec<u8>) -> (done: Result<(), Error>)
        ensures
            match done {
                Ok(()) => {
                    &&& old(space)@.len() >= 6
                    &&& final(space)@ == crate::pci::patched(
                        old(space)@,
                        4,
                        crate::wire::le16(
                            crate::pci::with_bus_master(crate::pci::command_register(old(space)@)),
                        ),
                    )
                },
                Err(e) => old(space)@.len() < 6 && final(space)@ == old(space)@ && e matches Error::Io(
                    _,
                ),
            },
    {
        crate::pci::enable_dma(space)
    }

    /// Disables the legacy interrupts of the device, whose configuration
    /// space is `space`.
    pub fn disable_interrupts(&self, space: &mut Vec<u8>) -> (done: Result<(), Error>)
        ensures
            match done {
                Ok(()) => {
                    &&& old(space)@.len() >= 6
                    &&& final(space)@ == crate::pci::patched(
                        old(space)@,
                        4,
                        crate::wire::le16(
                            crate::pci::without_interrupts(crate::pci::command_register(old(space)@)),
                        ),
                    )
                },
                Err(e) => old(space)@.len() < 6 && final(space)@ == old(space)@ && e matches Error::Io(
                    _,
                ),
            },
    {
        crate::pci::disable_interrupts(space)
    }
}

impl Allocating for Mmio {
    open spec fn spec_page_size(&self) -> Pagesize {
        self@.page_size
    }

    fn allocate(&self, size: usize, virt: usize, iova: usize) -> (buffer: Result<Dma, Error>) {
        describe(self.page_size, size, virt, iova)
    }

    fn deallocate(&self, dma: Dma) -> (len: Result<usize, Error>) {
        whole_pages(self.page_size, &dma)
    }

    fn map_resource(&self, len: u64) -> (mapped: Result<usize, Error>) {
        region_len(len)
    }
}

} // verus!
