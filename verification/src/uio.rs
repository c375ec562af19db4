//! Access through the generic user-space I/O driver.

use vstd::prelude::*;
use vstd::string::StringExecFns;
use crate::error::Error;
use crate::memory::{round_up, Dma, DmaView, Pagesize};

verus! {

/// A device that is driven through the generic user-space I/O driver.
pub struct Uio {
    pci_addr: String,
}

impl View for Uio {
    type V = Seq<char>;

    closed spec fn view(&self) -> Seq<char> {
        self.pci_addr@
    }
}

impl Uio {
    /// The device at PCI address `pci_addr`.
    pub fn init(pci_addr: &str) -> (uio: Result<Uio, Error>)
        ensures
            uio matches Ok(u) && u@ == pci_addr@,
    {
        Ok(Uio { pci_addr: String::from_str(pci_addr) })
    }

    /// What the error says when no buffer came of mapping and locking huge
    /// pages: that mapping failed, that locking failed, or that what was
    /// mapped makes no buffer.
    pub open spec fn allocation_error(ptr: Option<usize>, locked: bool) -> Seq<char> {
        if ptr is None {
            "failed to mmap huge page - are huge pages enabled and free?"@
        } else if !locked {
            "failed to memory lock huge page"@
        } else {
            "the huge pages do not make a buffer"@
        }
    }

    /// Describes the buffer that came of mapping and locking `size` bytes
    /// on huge pages of 2 MiB: the mapping starts at host address `ptr`, or
    /// has failed; `locked` tells whether locking succeeded, `phys` is the
    /// physical address of the mapping.
    ///
    /// The buffer spans the size rounded up to whole pages and starts on a
    /// page boundary. A mapping that failed, could not be locked or is no
    /// such buffer is a DMA error.
    pub fn allocate(size: usize, ptr: Option<usize>, locked: bool, phys: usize) -> (buffer: Result<
        Dma,
        Error,
    >)
        ensures
            match buffer {
                Ok(dma) => {
                    &&& locked
                    &&& ptr matches Some(virt) && dma@ == (DmaView {
                        virt: virt as int,
                        phys: phys as int,
                        size: round_up(size as int, 0x20_0000),
                    })
                    &&& dma@.size % 0x20_0000 == 0
                    &&& dma@.phys % 0x20_0000 == 0
                    &&& dma@.fits()
                },
                Err(e) => {
                    &&& e matches Error::Allocation(m) && m@ == Self::allocation_error(ptr, locked)
                    &&& match ptr {
                        Some(virt) => !locked || phys as int % 0x20_0000 != 0 || !(DmaView {
                            virt: virt as int,
                            phys: phys as int,
                            size: round_up(size as int, 0x20_0000),
                        }).fits(),
                        None => true,
                    }
                },
            },
    {
        let virt = match ptr {
            Some(virt) => virt,
            None => {
                return Err(
                    Error::allocation(
                        "failed to mmap huge page - are huge pages enabled and free?",
                    ),
                );
            },
        };
        if !locked {
            return Err(Error::allocation("failed to memory lock huge page"));
        }
        match Dma::mapped(Pagesize::Page2M, size, virt, phys) {
            Some(dma) => Ok(dma),
            None => Err(Error::allocation("the huge pages do not make a buffer")),
        }
    }

    /// Checks the mapping of the register region: `len` bytes at host
    /// address `ptr`. A mapping at address zero or without bytes is a
    /// backend error.
    pub fn map_resource(ptr: usize, len: usize) -> (mapped: Result<(usize, usize), Error>)
        ensures
            match mapped {
                Ok(m) => m == (ptr, len) && ptr != 0 && len != 0,
                Err(e) => {
                    &&& ptr == 0 || len == 0
                    &&& e matches Error::Mmio(m) && m@ == "pci mapping failed"@
                },
            },
    {
        if ptr == 0 || len == 0 {
            Err(Error::mmio("pci mapping failed"))
        } else {
            Ok((ptr, len))
        }
    }

    /// Enables direct memory access for the device, whose configuration
    /// space is `space`.
    pub fn enable_dma(&self, space: &mut Vec<u8>) -> (done: Result<(), Error>)
        ensures
            match done {
                Ok(()) => {
                    &&& old(space)@.len() >= 6
                    &&& final(space)@ == crate::pci::patched(
                        old(space)@,
                        4,
                        crate::wire::le16(
                            crate::pci::with_bus_master(crate::pci::command_register(old(space)@)),
                        ),
                    )
                },
                Err(e) => old(space)@.len() < 6 && final(space)@ == old(space)@ && e matches Error::Io(
                    _,
                ),
            },
    {
        crate::pci::enable_dma(space)
    }

    /// Disables the legacy interrupts of the device, whose configuration
    /// space is `space`.
    pub fn disable_interrupts(&self, space: &mut Vec<u8>) -> (done: Result<(), Error>)
        ensures
            match done {
                Ok(()) => {
                    &&& old(space)@.len() >= 6
                    &&& final(space)@ == crate::pci::patched(
                        old(space)@,
                        4,
                        crate::wire::le16(
                            crate::pci::without_interrupts(crate::pci::command_register(old(space)@)),
                        ),
                    )
                },
                Err(e) => old(space)@.len() < 6 && final(space)@ == old(space)@ && e matches Error::Io(
                    _,
                ),
            },
    {
        crate::pci::disable_interrupts(space)
    }
}

} // verus!
