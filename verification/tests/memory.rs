use vroom::memory::{Dma, DmaChunk, DmaSlice, Pagesize};
use vroom::{DEFAULT_PAGE_SIZE, PAGESIZE_1GIB, PAGESIZE_2MIB, PAGESIZE_4KIB};

#[test]
fn page_sizes_and_shifts() {
    assert_eq!(PAGESIZE_4KIB, 4096);
    assert_eq!(PAGESIZE_2MIB, 2 * 1024 * 1024);
    assert_eq!(PAGESIZE_1GIB, 1024 * 1024 * 1024);
    assert_eq!(Pagesize::Page4K.size(), 4096);
    assert_eq!(Pagesize::Page2M.size(), 2097152);
    assert_eq!(Pagesize::Page1G.size(), 1073741824);
    assert_eq!(Pagesize::Page4K.shift(), 12);
    assert_eq!(Pagesize::Page2M.shift(), 21);
    assert_eq!(Pagesize::Page1G.shift(), 30);
    assert_eq!(DEFAULT_PAGE_SIZE, Pagesize::Page2M);
}

#[test]
fn page_sizes_have_names() {
    assert_eq!(Pagesize::Page4K.name(), "4KiB");
    assert_eq!(Pagesize::Page2M.name(), "2MiB");
    assert_eq!(Pagesize::Page1G.name(), "1GiB");
}

#[test]
fn shift_up_rounds_to_whole_pages() {
    assert_eq!(Pagesize::Page4K.shift_up(0), 0);
    assert_eq!(Pagesize::Page4K.shift_up(1), 4096);
    assert_eq!(Pagesize::Page4K.shift_up(4096), 4096);
    assert_eq!(Pagesize::Page4K.shift_up(4097), 8192);
    assert_eq!(Pagesize::Page2M.shift_up(29), 2097152);
    assert_eq!(Pagesize::Page2M.shift_up(2097153), 4194304);
    assert_eq!(Pagesize::Page1G.shift_up(1), 1073741824);
}

#[test]
fn checked_shift_up_reports_overflow() {
    assert_eq!(Pagesize::Page4K.checked_shift_up(4097), Some(8192));
    assert_eq!(Pagesize::Page4K.checked_shift_up(usize::MAX), None);
    assert_eq!(Pagesize::Page4K.checked_shift_up(usize::MAX - 4094), None);
    assert_eq!(
        Pagesize::Page4K.checked_shift_up(usize::MAX - 4095),
        Some(usize::MAX - 4095)
    );
    assert_eq!(
        Pagesize::Page4K.checked_shift_up(usize::MAX - 4096),
        Some(usize::MAX - 4095)
    );
}

#[test]
fn page_size_from_bytes_defaults_to_2mib() {
    assert_eq!(Pagesize::from(4096), Pagesize::Page4K);
    assert_eq!(Pagesize::from(2097152), Pagesize::Page2M);
    assert_eq!(Pagesize::from(1073741824), Pagesize::Page1G);
    assert_eq!(Pagesize::from(12345), Pagesize::Page2M);
    assert_eq!(Pagesize::from(0), Pagesize::Page2M);
}

#[test]
fn dma_refuses_ranges_that_wrap() {
    assert!(Dma::new(usize::MAX - 10, 0, 11).is_none());
    assert!(Dma::new(0, usize::MAX - 10, 11).is_none());
    let dma = Dma::new(usize::MAX - 10, usize::MAX - 10, 10).unwrap();
    assert_eq!(dma.virt(), usize::MAX - 10);
    assert_eq!(dma.phys(), usize::MAX - 10);
    assert_eq!(dma.size(), 10);
}

#[test]
fn mapped_buffer_is_whole_aligned_pages() {
    let dma = Dma::mapped(Pagesize::Page2M, 29, 0x7f00_0020_0000, 0x4000_0000).unwrap();
    assert_eq!(dma.size(), 2097152);
    assert_eq!(dma.phys() % 2097152, 0);
    assert_eq!(dma.virt(), 0x7f00_0020_0000);
    let dma = Dma::mapped(Pagesize::Page4K, 4097, 0x1000, 0x3000).unwrap();
    assert_eq!(dma.size(), 8192);
    assert_eq!(dma.phys(), 0x3000);
    assert!(Dma::mapped(Pagesize::Page4K, 4096, 0x1000, 0x3001).is_none());
    assert!(Dma::mapped(Pagesize::Page2M, 4096, 0x1000, 0x1000).is_none());
    assert!(Dma::mapped(Pagesize::Page4K, usize::MAX, 0x1000, 0x1000).is_none());
}

#[test]
fn chunks_walk_the_region() {
    let dma = Dma::new(0x1000, 0x9000, 20000).unwrap();
    let mut chunks = dma.chunks(8192);
    assert_eq!(
        chunks.peek(),
        Some(DmaChunk { phys_addr: 0x9000, virt_addr: 0x1000, len: 8192 })
    );
    assert_eq!(
        chunks.next(),
        Some(DmaChunk { phys_addr: 0x9000, virt_addr: 0x1000, len: 8192 })
    );
    assert_eq!(
        chunks.next(),
        Some(DmaChunk { phys_addr: 0x9000 + 8192, virt_addr: 0x1000 + 8192, len: 8192 })
    );
    assert_eq!(
        chunks.next(),
        Some(DmaChunk { phys_addr: 0x9000 + 16384, virt_addr: 0x1000 + 16384, len: 3616 })
    );
    assert_eq!(chunks.next(), None);
    assert_eq!(chunks.peek(), None);
    assert_eq!(chunks.next(), None);
}

#[test]
fn chunks_of_an_empty_region() {
    let dma = Dma::new(0x1000, 0x9000, 0).unwrap();
    let mut chunks = dma.chunks(512);
    assert_eq!(chunks.next(), None);
}

#[test]
fn slice_is_a_part_of_the_region() {
    let dma = Dma::new(0x1000, 0x9000, 0x4000).unwrap();
    let part = dma.slice(0x200..0x1200);
    assert_eq!(part.virt(), 0x1200);
    assert_eq!(part.phys(), 0x9200);
    assert_eq!(part.size(), 0x1000);
    let empty = dma.slice(0x4000..0x4000);
    assert_eq!(empty.size(), 0);
    assert_eq!(empty.phys(), 0xd000);
}
