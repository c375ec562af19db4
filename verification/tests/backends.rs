use vroom::ioallocator::{Allocating, IOAllocator};
use vroom::ioctl_op::{IoctlFlag, IoctlOp};
use vroom::mapping::{BackendKind, Mapping, MemoryAccess};
use vroom::memory::{Dma, Pagesize};
use vroom::mmio::Mmio;
use vroom::physical::{pagemap_offset, virt_to_phys, Physical};
use vroom::uio::Uio;
use vroom::vfio::{Vfio, VfioBackend};
use vroom::vfio_constants;
use vroom::Error;

#[test]
fn request_numbers() {
    assert_eq!(IoctlOp::VFIO_GET_API_VERSION.op(), 15204);
    assert_eq!(IoctlOp::VFIO_CHECK_EXTENSION.op(), 15205);
    assert_eq!(IoctlOp::VFIO_SET_IOMMU.op(), 15206);
    assert_eq!(IoctlOp::VFIO_GROUP_GET_STATUS.op(), 15207);
    assert_eq!(IoctlOp::VFIO_GROUP_SET_CONTAINER.op(), 15208);
    assert_eq!(IoctlOp::VFIO_GROUP_GET_DEVICE_FD.op(), 15210);
    assert_eq!(IoctlOp::VFIO_DEVICE_GET_REGION_INFO.op(), 15212);
    assert_eq!(IoctlOp::VFIO_DEVICE_GET_IRQ_INFO.op(), 15213);
    assert_eq!(IoctlOp::VFIO_DEVICE_SET_IRQS.op(), 15214);
    assert_eq!(IoctlOp::VFIO_IOMMU_GET_INFO.op(), 15216);
    assert_eq!(IoctlOp::VFIO_IOMMU_MAP_DMA.op(), 15217);
    assert_eq!(IoctlOp::VFIO_IOMMU_UNMAP_DMA.op(), 15218);
    assert_eq!(IoctlOp::VFIO_DEVICE_BIND_IOMMUFD.op(), 15222);
    assert_eq!(IoctlOp::VFIO_DEVICE_ATTACH_IOMMUFD_PT.op(), 15223);
    assert_eq!(IoctlOp::IOMMU_IOAS_ALLOC.op(), 0x3B81);
    assert_eq!(IoctlOp::IOMMU_IOAS_MAP.op(), 0x3B85);
    assert_eq!(IoctlOp::IOMMU_IOAS_UNMAP.op(), 0x3B86);
}

#[test]
fn request_numbers_are_built_from_type_and_sequence() {
    assert_eq!(IoctlOp::_IO(b';' as u64, 100), 15204);
    assert_eq!(IoctlOp::_IO(0, 0), 0);
    assert_eq!(IoctlOp::_IO(1, 1), 257);
    assert_eq!(vfio_constants::_IO(b';' as u64, 113), vfio_constants::VFIO_IOMMU_MAP_DMA);
    assert_eq!(vfio_constants::VFIO_GET_API_VERSION, IoctlOp::VFIO_GET_API_VERSION.op());
    assert_eq!(vfio_constants::VFIO_GROUP_GET_DEVICE_FD, IoctlOp::VFIO_GROUP_GET_DEVICE_FD.op());
    assert_eq!(vfio_constants::IOMMU_IOAS_MAP, IoctlOp::IOMMU_IOAS_MAP.op());
    assert_eq!(vfio_constants::VTD_CAP_MGAW_MASK, 0x3f << vfio_constants::VTD_CAP_MGAW_SHIFT);
}

#[test]
fn request_names_and_flags() {
    assert_eq!(IoctlOp::VFIO_IOMMU_MAP_DMA.name(), "VFIO_IOMMU_MAP_DMA");
    assert_eq!(IoctlOp::IOMMU_IOAS_ALLOC.name(), "IOMMU_IOAS_ALLOC");
    assert_eq!(IoctlFlag::VFIO_GROUP_FLAGS_VIABLE.bits(), 1 << 0);
    assert_eq!(IoctlFlag::VFIO_DMA_MAP_FLAG_READ.bits(), 1 << 0);
    assert_eq!(IoctlFlag::VFIO_DMA_MAP_FLAG_WRITE.bits(), 1 << 1);
    assert_eq!(IoctlFlag::VFIO_IRQ_SET_DATA_NONE.bits(), 1 << 0);
    assert_eq!(IoctlFlag::VFIO_IRQ_SET_DATA_EVENTFD.bits(), 1 << 2);
    assert_eq!(IoctlFlag::VFIO_IRQ_SET_ACTION_TRIGGER.bits(), 1 << 5);
    assert_eq!(IoctlFlag::IOMMU_IOAS_MAP_FIXED_IOVA.bits(), 1 << 0);
    assert_eq!(IoctlFlag::IOMMU_IOAS_MAP_WRITEABLE.bits(), 1 << 1);
    assert_eq!(IoctlFlag::IOMMU_IOAS_MAP_READABLE.bits(), 1 << 2);
}

#[test]
fn physical_backend_refuses_small_pages() {
    assert!(matches!(
        Physical::init_with_args("0000:01:00.0", Pagesize::Page4K),
        Err(Error::Mmio(_))
    ));
    let physical = Physical::init_with_args("0000:01:00.0", Pagesize::Page1G).unwrap();
    assert_eq!(physical.page_size(), Pagesize::Page1G);
    assert_eq!(Physical::init("0000:01:00.0").unwrap().page_size(), Pagesize::Page2M);
    assert!(matches!(
        Mmio::init_with_args("0000:01:00.0", Pagesize::Page4K),
        Err(Error::Mmio(_))
    ));
    assert_eq!(Mmio::init("0000:01:00.0").unwrap().page_size(), Pagesize::Page2M);
    assert!(Uio::init("0000:01:00.0").is_ok());
}

#[test]
fn stub_binding_is_found_by_name() {
    let physical = Physical::init("0000:01:00.0").unwrap();
    let links = vec![
        "0000:00:1f.0".to_string(),
        "0000:01:00.0".to_string(),
        "bind".to_string(),
    ];
    assert!(physical.is_bound_to_pci_stub(&links));
    assert_eq!(physical.check_pci_stub(&links), Ok(()));
    let links = vec!["0000:01:00.1".to_string(), "0000:01:00".to_string()];
    assert!(!physical.is_bound_to_pci_stub(&links));
    assert!(matches!(physical.check_pci_stub(&links), Err(Error::Mmio(_))));
    assert!(!physical.is_bound_to_pci_stub(&Vec::new()));
}

#[test]
fn page_map_translation() {
    assert_eq!(pagemap_offset(0x7f12_3456_7abc, 4096), Some(0x7f12_3456_7 * 8));
    assert_eq!(pagemap_offset(0, 4096), Some(0));
    assert_eq!(pagemap_offset(4095, 4096), Some(0));
    assert_eq!(pagemap_offset(4096, 4096), Some(8));
    assert_eq!(pagemap_offset(usize::MAX, 1), None);
    let entry = 0x8180_0000_0012_3456u64;
    assert_eq!(virt_to_phys(entry, 0x7f12_3456_7abc, 4096), Some(0x12_3456_abc));
    assert_eq!(virt_to_phys(0x007F_FFFF_FFFF_FFFF, 0, 4096), None);
    assert_eq!(virt_to_phys(0xFF80_0000_0000_0000, 0x1234, 4096), Some(0x234));
}

#[test]
fn backends_describe_buffers_in_whole_pages() {
    let physical = Physical::init("0000:01:00.0").unwrap();
    let dma = physical.allocate(29, 0x7f00_0000_0000, 0x1_4000_0000).unwrap();
    assert_eq!(dma.size(), 2 * 1024 * 1024);
    assert_eq!(dma.phys() % (2 * 1024 * 1024), 0);
    assert_eq!(dma.virt(), 0x7f00_0000_0000);
    assert!(matches!(
        physical.allocate(29, 0x7f00_0000_0000, 0x1_4000_1000),
        Err(Error::Allocation(_))
    ));
    assert_eq!(physical.deallocate(&dma), Ok(2 * 1024 * 1024));
    assert_eq!(physical.map_resource(0x4000), Ok(0x4000));
    assert!(physical.map_resource(0).is_err());

    let vfio = Vfio::new("0000:01:00.0", 7, Pagesize::Page4K, VfioBackend::Legacy { container_fd: 3 });
    let dma = Mapping::allocate(&vfio, 5000, 0x10_0000, 0x10_0000).unwrap();
    assert_eq!(dma.size(), 8192);
    let small = Dma::new(0x10_0000, 0x10_0000, 5000).unwrap();
    assert_eq!(Mapping::deallocate(&vfio, &small), Ok(8192));

    let mut access = MemoryAccess::Vfio(vfio);
    assert_eq!(access.allocate(1, 0x2000, 0x3000).unwrap().size(), 4096);
    access.set_page_size(Pagesize::Page2M);
    assert!(access.allocate(1, 0x2000, 0x3000).is_err());
    assert_eq!(access.allocate(1, 0x2000, 0x20_0000).unwrap().size(), 0x20_0000);
    let mut access = MemoryAccess::Physical(physical);
    access.set_page_size(Pagesize::Page1G);
    assert_eq!(access.allocate(1, 0x2000, 0x20_0000).unwrap().size(), 0x20_0000);
    assert_eq!(access.map_resource(16), Ok(16));
}

#[test]
fn allocators_describe_buffers_in_whole_pages() {
    let mmio = Mmio::init("0000:01:00.0").unwrap();
    let dma = mmio.allocate(3 * 1024 * 1024, 0x4000_0000, 0x8000_0000).unwrap();
    assert_eq!(dma.size(), 4 * 1024 * 1024);
    assert_eq!(mmio.deallocate(dma), Ok(4 * 1024 * 1024));
    let vfio = Vfio::new("0000:01:00.0", 7, Pagesize::Page1G, VfioBackend::Legacy { container_fd: 3 });
    let mut allocator = IOAllocator::VfioAllocator(vfio);
    assert!(allocator.allocate(1, 0x4000_0000, 0x2000_0000).is_err());
    allocator.set_page_size(Pagesize::Page4K);
    assert_eq!(allocator.allocate(1, 0x4000_0000, 0x2000_0000).unwrap().size(), 4096);
    let mut allocator = IOAllocator::MmioAllocator(mmio);
    allocator.set_page_size(Pagesize::Page4K);
    assert_eq!(allocator.allocate(1, 0x4000_0000, 0x2000_0000).unwrap().size(), 0x20_0000);
    assert_eq!(allocator.map_resource(0x2000), Ok(0x2000));
    assert!(allocator.map_resource(0).is_err());
}

#[test]
fn backend_is_chosen_by_the_iommu_group() {
    assert_eq!(MemoryAccess::init(true), BackendKind::Vfio);
    assert_eq!(MemoryAccess::init(false), BackendKind::Physical);
    assert_eq!(
        MemoryAccess::init_with_page_size(true, Pagesize::Page4K),
        Ok((BackendKind::Vfio, Pagesize::Page4K))
    );
    assert_eq!(
        MemoryAccess::init_with_page_size(false, Pagesize::Page2M),
        Ok((BackendKind::Physical, Pagesize::Page2M))
    );
    assert!(matches!(
        MemoryAccess::init_with_page_size(false, Pagesize::Page4K),
        Err(Error::Mmio(_))
    ));
}

#[test]
fn uio_checks_what_was_mapped() {
    let dma = Uio::allocate(0x20_0000, Some(0x7000_0000), true, 0x1_0000_0000).unwrap();
    assert_eq!((dma.virt(), dma.phys(), dma.size()), (0x7000_0000, 0x1_0000_0000, 0x20_0000));
    let dma = Uio::allocate(0x20_0001, Some(0x7000_0000), true, 0x1_0000_0000).unwrap();
    assert_eq!(dma.size(), 0x40_0000);
    assert!(matches!(
        Uio::allocate(0x20_0000, Some(0x7000_0000), true, 0x1_0000_1000),
        Err(Error::Allocation(_))
    ));
    assert!(matches!(
        Uio::allocate(0x20_0000, None, true, 0),
        Err(Error::Allocation(_))
    ));
    assert!(matches!(
        Uio::allocate(0x20_0000, Some(0x7000_0000), false, 0),
        Err(Error::Allocation(_))
    ));
    assert_eq!(Uio::map_resource(0x7000_0000, 0x4000), Ok((0x7000_0000, 0x4000)));
    assert!(matches!(Uio::map_resource(0, 0x4000), Err(Error::Mmio(_))));
    assert!(matches!(Uio::map_resource(0x7000_0000, 0), Err(Error::Mmio(_))));
}

#[test]
fn region_beyond_the_address_space_cannot_be_unmapped() {
    let vfio = Vfio::new("0000:01:00.0", 7, Pagesize::Page4K, VfioBackend::Legacy { container_fd: 3 });
    let dma = Dma::new(0, 0, usize::MAX - 10).unwrap();
    assert_eq!(
        Mapping::deallocate(&vfio, &dma),
        Err(Error::Mmap { len: usize::MAX - 10, errno: 0 })
    );
    assert!(matches!(vfio.deallocate(&dma), Err(Error::Mmap { .. })));
}

#[test]
fn errors_carry_their_messages() {
    let small = "Pagesize 4K not supported for non-Vfio!".to_string();
    assert_eq!(
        Physical::init_with_args("0000:01:00.0", Pagesize::Page4K).err(),
        Some(Error::Mmio(small.clone()))
    );
    assert_eq!(
        Mmio::init_with_args("0000:01:00.0", Pagesize::Page4K).err(),
        Some(Error::Mmio(small.clone()))
    );
    assert_eq!(
        MemoryAccess::init_with_page_size(false, Pagesize::Page4K),
        Err(Error::Mmio(small))
    );
    let physical = Physical::init("0000:01:00.0").unwrap();
    assert_eq!(
        physical.check_pci_stub(&Vec::new()),
        Err(Error::Mmio("The device is not bound to Pci-Stub!".to_string()))
    );
    assert_eq!(
        physical.map_resource(0),
        Err(Error::Vroom("Resource0 len is 0".to_string()))
    );
    assert_eq!(
        Uio::allocate(0x20_0000, None, true, 0).err(),
        Some(Error::Allocation(
            "failed to mmap huge page - are huge pages enabled and free?".to_string()
        ))
    );
    assert_eq!(
        Uio::allocate(0x20_0000, Some(0x7000_0000), false, 0).err(),
        Some(Error::Allocation("failed to memory lock huge page".to_string()))
    );
    assert_eq!(
        Uio::map_resource(0, 0x4000),
        Err(Error::Mmio("pci mapping failed".to_string()))
    );
}
