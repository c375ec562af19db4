//! DMA buffers as the driver sees them: an address pair and a length.

use vstd::prelude::*;
use std::ops::Range;

verus! {

/// Binary logarithm of [`PAGESIZE_4KIB`].
pub const SHIFT_4KIB: u32 = 12;

/// Size in bytes of an ordinary page.
pub const PAGESIZE_4KIB: usize = 0x1000;

/// Binary logarithm of [`PAGESIZE_2MIB`].
pub const SHIFT_2MIB: u32 = 21;

/// Size in bytes of a huge page.
pub const PAGESIZE_2MIB: usize = 0x20_0000;

/// Binary logarithm of [`PAGESIZE_1GIB`].
pub const SHIFT_1GIB: u32 = 30;

/// Size in bytes of a gigantic page.
pub const PAGESIZE_1GIB: usize = 0x4000_0000;

/// The page size that is used where none is asked for.
pub const DEFAULT_PAGE_SIZE: Pagesize = Pagesize::Page2M;

/// Granularity at which DMA memory is mapped.
#[derive(Debug, Clone, Copy, PartialEq, Eq, Structural)]
pub enum Pagesize {
    Page4K,
    Page2M,
    Page1G,
}

/// `size` rounded up to the next multiple of `page`.
pub open spec fn round_up(size: int, page: int) -> int {
    ((size + page - 1) / page) * page
}

/// Whether `m` is a whole number of pages.
pub open spec fn page_multiple(m: int, page: int) -> bool {
    m % page == 0
}

/// Rounding up yields the least multiple of the page size that is not below
/// the requested size.
pub proof fn lemma_round_up(size: int, page: int)
    requires
        0 <= size,
        0 < page,
    ensures
        round_up(size, page) % page == 0,
        size <= round_up(size, page) < size + page,
        size % page == 0 ==> round_up(size, page) == size,
        forall|m: int| #[trigger] page_multiple(m, page) && size <= m ==> round_up(size, page) <= m,
{
    let q = (size + page - 1) / page;
    assert(round_up(size, page) % page == 0 && size <= q * page < size + page && (size % page == 0
        ==> q * page == size)) by (nonlinear_arith)
        requires
            0 <= size,
            0 < page,
            q == (size + page - 1) / page,
            round_up(size, page) == q * page,
    ;
    assert forall|m: int| #[trigger] page_multiple(m, page) && size <= m implies round_up(
        size,
        page,
    ) <= m by {
        assert(q * page <= m) by (nonlinear_arith)
            requires
                0 < page,
                m % page == 0,
                size <= m,
                q * page < size + page,
                (q * page) % page == 0,
        ;
    }
}

/// A buffer of pages holds what was asked for and wastes less than a page:
/// the size asked for, rounded up, is the number of pages that the size
/// takes up times the size of a page, a whole number of pages, not less than
/// what was asked for, and less than a page more.
pub proof fn lemma_whole_pages(requested: usize, page_size: Pagesize)
    ensures
        round_up(requested as int, page_size.spec_size()) == ((requested + page_size.spec_size()
            - 1) / page_size.spec_size()) * page_size.spec_size(),
        round_up(requested as int, page_size.spec_size()) % page_size.spec_size() == 0,
        requested <= round_up(requested as int, page_size.spec_size()) < requested
            + page_size.spec_size(),
        requested as int % page_size.spec_size() == 0 ==> round_up(
            requested as int,
            page_size.spec_size(),
        ) == requested,
{
    lemma_round_up(requested as int, page_size.spec_size());
}

impl Pagesize {
    /// Number of bytes in one page.
    pub open spec fn spec_size(self) -> int {
        match self {
            Pagesize::Page4K => 0x1000,
            Pagesize::Page2M => 0x20_0000,
            Pagesize::Page1G => 0x4000_0000,
        }
    }

    /// Binary logarithm of the page size.
    pub open spec fn spec_shift(self) -> int {
        match self {
            Pagesize::Page4K => 12,
            Pagesize::Page2M => 21,
            Pagesize::Page1G => 30,
        }
    }

    #[must_use]
    pub fn size(&self) -> (bytes: usize)
        ensures
            bytes == self.spec_size(),
    {
        match self {
            Pagesize::Page4K => PAGESIZE_4KIB,
            Pagesize::Page2M => PAGESIZE_2MIB,
            Pagesize::Page1G => PAGESIZE_1GIB,
        }
    }

    #[must_use]
    pub fn shift(&self) -> (bits: u32)
        ensures
            bits == self.spec_shift(),
    {
        match self {
            Pagesize::Page4K => SHIFT_4KIB,
            Pagesize::Page2M => SHIFT_2MIB,
            Pagesize::Page1G => SHIFT_1GIB,
        }
    }

    /// Rounds `size` up to a whole number of pages.
    #[must_use]
    pub fn shift_up(&self, size: usize) -> (rounded: usize)
        requires
            round_up(size as int, self.spec_size()) <= usize::MAX,
        ensures
            rounded == round_up(size as int, self.spec_size()),
    {
        let page = self.size();
        proof {
            lemma_round_up(size as int, page as int);
        }
        if size % page == 0 {
            return size;
        }
        let pages: usize = size / page;
        assert((pages + 1) * page == round_up(size as int, page as int)) by (nonlinear_arith)
            requires
                0 < page,
                size % page != 0,
                pages == size / page,
        ;
        (pages + 1) * page
    }

    /// Rounds `size` up to a whole number of pages, or reports that the
    /// result does not fit the address space.
    #[must_use]
    pub fn checked_shift_up(&self, size: usize) -> (rounded: Option<usize>)
        ensures
            match rounded {
                Some(r) => r == round_up(size as int, self.spec_size()),
                None => round_up(size as int, self.spec_size()) > usize::MAX,
            },
    {
        let page = self.size();
        proof {
            lemma_round_up(size as int, page as int);
        }
        let rest: usize = size % page;
        if rest == 0 {
            Some(size)
        } else if size > usize::MAX - (page - rest) {
            assert(round_up(size as int, page as int) == size + (page - rest)) by (nonlinear_arith)
                requires
                    0 < page,
                    rest == size % page,
                    rest != 0,
            ;
            None
        } else {
            assert(round_up(size as int, page as int) == size + (page - rest)) by (nonlinear_arith)
                requires
                    0 < page,
                    rest == size % page,
                    rest != 0,
            ;
            Some(size + (page - rest))
        }
    }

    /// The page size as it is written: `4KiB`, `2MiB` or `1GiB`.
    pub fn name(&self) -> (name: &'static str)
        ensures
            name@ == (match self {
                Pagesize::Page4K => "4KiB"@,
                Pagesize::Page2M => "2MiB"@,
                Pagesize::Page1G => "1GiB"@,
            }),
    {
        match self {
            Pagesize::Page4K => "4KiB",
            Pagesize::Page2M => "2MiB",
            Pagesize::Page1G => "1GiB",
        }
    }

    /// The page size of exactly `size` bytes; any other value selects the
    /// default of 2 MiB.
    #[must_use]
    pub fn from(size: usize) -> (page: Pagesize)
        ensures
            page == (if size == 0x1000 {
                Pagesize::Page4K
            } else if size == 0x4000_0000 {
                Pagesize::Page1G
            } else {
                Pagesize::Page2M
            }),
    {
        if size == PAGESIZE_4KIB {
            Pagesize::Page4K
        } else if size == PAGESIZE_1GIB {
            Pagesize::Page1G
        } else {
            Pagesize::Page2M
        }
    }
}

/// What a [`Dma`] stands for: a run of `size` bytes that the host reaches at
/// `virt` and the device at `phys`.
pub struct DmaView {
    pub virt: int,
    pub phys: int,
    pub size: int,
}

impl DmaView {
    /// Both address ranges end inside the address space.
    pub open spec fn fits(self) -> bool {
        &&& 0 <= self.virt
        &&& 0 <= self.phys
        &&& 0 <= self.size
        &&& self.virt + self.size <= usize::MAX
        &&& self.phys + self.size <= usize::MAX
    }

    /// The part of the region that starts `start` bytes in and ends `end`
    /// bytes in.
    pub open spec fn sub(self, start: int, end: int) -> DmaView {
        DmaView { virt: self.virt + start, phys: self.phys + start, size: end - start }
    }
}

/// A contiguous region of memory shared with the device, or a part of one.
///
/// The host addresses it at `virt`, the device at `phys` (a physical address
/// or an address assigned by the IOMMU). Neither range wraps around the end
/// of the address space.
#[derive(Debug, Clone, Copy, PartialEq, Eq)]
pub struct Dma {
    virt: usize,
    phys: usize,
    size: usize,
}

impl View for Dma {
    type V = DmaView;

    closed spec fn view(&self) -> DmaView {
        DmaView { virt: self.virt as int, phys: self.phys as int, size: self.size as int }
    }
}

impl Dma {
    #[verifier::type_invariant]
    spec fn inv(self) -> bool {
        self.virt + self.size <= usize::MAX && self.phys + self.size <= usize::MAX
    }

    /// Describes the region of `size` bytes at host address `virt` and I/O
    /// address `phys`, unless one of the two ranges would wrap.
    pub fn new(virt: usize, phys: usize, size: usize) -> (dma: Option<Dma>)
        ensures
            match dma {
                Some(d) => d@ == (DmaView { virt: virt as int, phys: phys as int, size: size as int })
                    && d@.fits(),
                None => !(DmaView { virt: virt as int, phys: phys as int, size: size as int }).fits(),
            },
    {
        if size > usize::MAX - virt || size > usize::MAX - phys {
            None
        } else {
            Some(Dma { virt, phys, size })
        }
    }

    /// Describes a freshly mapped buffer: `requested` bytes were asked for
    /// with pages of `page_size`, the mapping starts at host address `virt`
    /// and the device was given I/O address `iova` for it.
    ///
    /// The buffer spans the requested size rounded up to whole pages and
    /// starts on a page boundary of the I/O address space; a mapping that
    /// cannot be described so is refused.
    pub fn mapped(page_size: Pagesize, requested: usize, virt: usize, iova: usize) -> (dma: Option<
        Dma,
    >)
        ensures
            match dma {
                Some(d) => {
                    &&& d@.virt == virt
                    &&& d@.phys == iova
                    &&& d@.size == round_up(requested as int, page_size.spec_size())
                    &&& d@.size % page_size.spec_size() == 0
                    &&& requested <= d@.size < requested + page_size.spec_size()
                    &&& d@.phys % page_size.spec_size() == 0
                    &&& d@.fits()
                },
                None => {
                    ||| iova as int % page_size.spec_size() != 0
                    ||| !(DmaView {
                        virt: virt as int,
                        phys: iova as int,
                        size: round_up(requested as int, page_size.spec_size()),
                    }).fits()
                },
            },
    {
        let page = page_size.size();
        proof {
            lemma_round_up(requested as int, page as int);
        }
        if iova % page != 0 {
            return None;
        }
        match page_size.checked_shift_up(requested) {
            Some(size) => Dma::new(virt, iova, size),
            None => None,
        }
    }

    /// Host address of the first byte.
    pub fn virt(&self) -> (addr: usize)
        ensures
            addr == self@.virt,
            self@.fits(),
    {
        proof {
            use_type_invariant(self);
        }
        self.virt
    }

    /// I/O address of the first byte.
    pub fn phys(&self) -> (addr: usize)
        ensures
            addr == self@.phys,
            self@.fits(),
    {
        proof {
            use_type_invariant(self);
        }
        self.phys
    }

    /// Length in bytes.
    pub fn size(&self) -> (bytes: usize)
        ensures
            bytes == self@.size,
            self@.fits(),
    {
        proof {
            use_type_invariant(self);
        }
        self.size
    }
}

/// One piece of a region handed out while walking it chunk by chunk.
#[derive(Debug, Clone, Copy, PartialEq, Eq, Structural)]
pub struct DmaChunk {
    /// I/O address of the first byte of the piece
    pub phys_addr: usize,
    /// Host address of the first byte of the piece
    pub virt_addr: usize,
    /// Length of the piece in bytes
    pub len: usize,
}

/// What a [`DmaChunks`] stands for: the region it walks, how far it has
/// come, and the length of a full chunk.
pub struct DmaChunksView {
    pub dma: DmaView,
    pub offset: int,
    pub chunk_size: int,
}

impl DmaChunksView {
    /// The walk is inside its region, and the length of a chunk is one that
    /// a length can be.
    pub open spec fn wf(self) -> bool {
        &&& self.dma.fits()
        &&& 0 <= self.offset <= self.dma.size
        &&& 0 <= self.chunk_size <= usize::MAX
    }

    /// Length of the next chunk: a full chunk, or what is left of the region.
    pub open spec fn next_len(self) -> int {
        if self.chunk_size <= self.dma.size - self.offset {
            self.chunk_size
        } else {
            self.dma.size - self.offset
        }
    }

    /// Whether the walk has reached the end of the region.
    pub open spec fn done(self) -> bool {
        self.offset >= self.dma.size
    }

    /// The next chunk to be handed out.
    pub open spec fn next_chunk(self) -> DmaChunk {
        DmaChunk {
            phys_addr: (self.dma.phys + self.offset) as usize,
            virt_addr: (self.dma.virt + self.offset) as usize,
            len: self.next_len() as usize,
        }
    }

    /// The walk after the next chunk has been handed out.
    pub open spec fn advance(self) -> DmaChunksView {
        DmaChunksView { offset: self.offset + self.next_len(), ..self }
    }

    /// How many chunks are still to come.
    pub open spec fn remaining(self) -> int {
        if self.done() || self.chunk_size <= 0 {
            0
        } else {
            (self.dma.size - self.offset + self.chunk_size - 1) / self.chunk_size
        }
    }
}

/// Walks a region in pieces of a fixed number of bytes; the last piece may
/// be shorter.
pub struct DmaChunks {
    current_offset: usize,
    chunk_size: usize,
    dma: Dma,
}

impl View for DmaChunks {
    type V = DmaChunksView;

    closed spec fn view(&self) -> DmaChunksView {
        DmaChunksView {
            dma: self.dma@,
            offset: self.current_offset as int,
            chunk_size: self.chunk_size as int,
        }
    }
}

impl DmaChunks {
    #[verifier::type_invariant]
    spec fn inv(self) -> bool {
        self.current_offset <= self.dma.size && self.dma.inv()
    }

    /// The piece that [`Self::next`] would hand out, without moving on.
    pub fn peek(&self) -> (chunk: Option<DmaChunk>)
        ensures
            self@.wf(),
            match chunk {
                Some(c) => {
                    &&& !self@.done()
                    &&& c == self@.next_chunk()
                    &&& c.phys_addr + c.len <= usize::MAX
                    &&& c.virt_addr + c.len <= usize::MAX
                    &&& c.len == self@.next_len()
                    &&& c.len <= self@.dma.size - self@.offset
                    &&& self@.dma.phys <= c.phys_addr
                    &&& c.phys_addr + c.len <= self@.dma.phys + self@.dma.size
                },
                None => self@.done(),
            },
    {
        proof {
            use_type_invariant(self);
        }
        if self.current_offset >= self.dma.size {
            None
        } else {
            let left: usize = self.dma.size - self.current_offset;
            let len: usize = if self.chunk_size <= left {
                self.chunk_size
            } else {
                left
            };
            Some(
                DmaChunk {
                    phys_addr: self.dma.phys + self.current_offset,
                    virt_addr: self.dma.virt + self.current_offset,
                    len,
                },
            )
        }
    }

    /// Hands out the next piece, or `None` once the region is used up.
    pub fn next(&mut self) -> (chunk: Option<DmaChunk>)
        ensures
            old(self)@.wf(),
            final(self)@.wf(),
            match chunk {
                Some(c) => {
                    &&& !old(self)@.done()
                    &&& c == old(self)@.next_chunk()
                    &&& c.len == old(self)@.next_len()
                    &&& c.phys_addr + c.len <= usize::MAX
                    &&& old(self)@.dma.phys <= c.phys_addr
                    &&& c.phys_addr + c.len <= old(self)@.dma.phys + old(self)@.dma.size
                    &&& final(self)@ == old(self)@.advance()
                },
                None => old(self)@.done() && final(self)@ == old(self)@,
            },
    {
        proof {
            use_type_invariant(&*self);
        }
        if self.current_offset >= self.dma.size {
            None
        } else {
            let left: usize = self.dma.size - self.current_offset;
            let len: usize = if self.chunk_size <= left {
                self.chunk_size
            } else {
                left
            };
            let chunk = DmaChunk {
                phys_addr: self.dma.phys + self.current_offset,
                virt_addr: self.dma.virt + self.current_offset,
                len,
            };
            self.current_offset = self.current_offset + len;
            Some(chunk)
        }
    }
}

/// Regions that can be cut into pieces.
pub trait DmaSlice {
    type Item;

    /// The region that is cut.
    spec fn region(&self) -> DmaView;

    /// Starts a walk over the region in pieces of `bytes` bytes.
    fn chunks(&self, bytes: usize) -> (chunks: DmaChunks)
        ensures
            chunks@ == (DmaChunksView { dma: self.region(), offset: 0, chunk_size: bytes as int }),
            chunks@.wf(),
            self.region().fits(),
    ;

    /// The part of the region from byte `range.start` up to, not including,
    /// byte `range.end`.
    fn slice(&self, range: Range<usize>) -> (part: Self::Item)
        requires
            range.start <= range.end <= self.region().size,
    ;
}

impl DmaSlice for Dma {
    type Item = Dma;

    open spec fn region(&self) -> DmaView {
        self@
    }

    fn chunks(&self, bytes: usize) -> (chunks: DmaChunks) {
        proof {
            use_type_invariant(self);
        }
        DmaChunks { current_offset: 0, chunk_size: bytes, dma: *self }
    }

    fn slice(&self, range: Range<usize>) -> (part: Dma)
        ensures
            part@ == self@.sub(range.start as int, range.end as int),
            part@.fits(),
            self@.phys <= part@.phys,
            part@.phys + part@.size <= self@.phys + self@.size,
            self@.virt <= part@.virt,
            part@.virt + part@.size <= self@.virt + self@.size,
    {
        proof {
            use_type_invariant(self);
        }
        Dma {
            virt: self.virt + range.start,
            phys: self.phys + range.start,
            size: range.end - range.start,
        }
    }
}

} // verus!
