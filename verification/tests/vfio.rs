use vroom::ioctl_op::IoctlOp;
use vroom::memory::{Dma, Pagesize};
use vroom::vfio::{DmaMapRequest, DmaUnmapRequest, IoctlArg, MapPlan, Progress, Realign};
use vroom::vfio::{SetupFailure, SetupReply, SetupRequest, Vfio, VfioBackend, VfioSetup};
use vroom::vfio_structs::{iommu_ioas_alloc, iommu_ioas_map, iommu_ioas_unmap};
use vroom::vfio_structs::{vfio_device_attach_iommufd_pt, vfio_device_bind_iommufd};
use vroom::vfio_structs::{vfio_group_status, vfio_iommu_type1_dma_map};
use vroom::vfio_structs::{vfio_iommu_type1_dma_unmap, vfio_iommu_type1_info, vfio_region_info};
use vroom::Error;

fn legacy(page_size: Pagesize) -> Vfio {
    Vfio::new("0000:01:00.0", 9, page_size, VfioBackend::Legacy { container_fd: 3 })
}

fn ask(progress: Progress) -> (VfioSetup, SetupRequest) {
    match progress {
        Progress::Ask(setup, request) => (setup, request),
        other => panic!("expected a request, got {:?}", other),
    }
}

fn region(size: u64, offset: u64) -> vfio_region_info {
    vfio_region_info { argsz: 32, flags: 0, index: 7, cap_offset: 0, size, offset }
}

#[test]
fn guest_address_width() {
    assert_eq!(Vfio::get_intel_iommu_gaw(0x0026_0000), 39);
    assert_eq!(Vfio::get_intel_iommu_gaw(0xFFFF_FFFF_FFC0_FFFF), 1);
    assert_eq!(Vfio::get_intel_iommu_gaw(0x003F_0000), 64);
    assert_eq!(Vfio::get_intel_iommu_gaw(0x00d2_0080_0c66_0462), 39);
    assert_eq!(Vfio::check_intel_iommu(Some(0x0026_0000)), 39);
    assert_eq!(Vfio::check_intel_iommu(Some(0x002F_0000)), 47);
    assert_eq!(Vfio::check_intel_iommu(Some(0x002E_0000)), 47);
    assert_eq!(Vfio::check_intel_iommu(Some(0x002D_0000)), 46);
    assert_eq!(Vfio::check_intel_iommu(None), 47);
}

#[test]
fn allocation_plans() {
    assert_eq!(
        legacy(Pagesize::Page4K).allocate(5000, 47),
        Ok(MapPlan::Anonymous { len: 8192, page: Pagesize::Page4K, low: false })
    );
    assert_eq!(
        legacy(Pagesize::Page4K).allocate(5000, 39),
        Ok(MapPlan::Anonymous { len: 8192, page: Pagesize::Page4K, low: true })
    );
    assert_eq!(
        legacy(Pagesize::Page2M).allocate(1, 48),
        Ok(MapPlan::Anonymous { len: 0x20_0000, page: Pagesize::Page2M, low: false })
    );
    assert_eq!(
        legacy(Pagesize::Page2M).allocate(0x20_0001, 39),
        Ok(MapPlan::Probe { len: 0x40_0000, probe: 0x60_0000 })
    );
    assert_eq!(
        legacy(Pagesize::Page1G).allocate(1, 39),
        Ok(MapPlan::Anonymous { len: 0x4000_0000, page: Pagesize::Page1G, low: false })
    );
    assert!(matches!(
        legacy(Pagesize::Page4K).allocate(usize::MAX, 47),
        Err(Error::Allocation(_))
    ));
    assert!(matches!(
        legacy(Pagesize::Page2M).allocate(usize::MAX - 0x20_0000, 39),
        Err(Error::Allocation(_))
    ));
}

#[test]
fn probe_mapping_is_cut_to_its_aligned_part() {
    assert_eq!(
        Vfio::realign(0x4012_3000, 0x40_0000),
        Some(Realign {
            aligned: 0x4020_0000,
            head: 0xD_D000,
            tail_addr: 0x4060_0000,
            tail: 0x12_3000,
        })
    );
    assert_eq!(
        Vfio::realign(0x4020_0000, 0x20_0000),
        Some(Realign { aligned: 0x4020_0000, head: 0, tail_addr: 0x4040_0000, tail: 0x20_0000 })
    );
    assert_eq!(Vfio::realign(usize::MAX - 0x20_0000, 1), None);
}

#[test]
fn mapping_requests() {
    let vfio = legacy(Pagesize::Page2M);
    assert_eq!(
        vfio.map_dma(0x7f00_0020_0000, 0x20_0000),
        DmaMapRequest::Legacy {
            fd: 3,
            argument: vfio_iommu_type1_dma_map {
                argsz: 32,
                flags: 3,
                vaddr: 0x7f00_0020_0000,
                iova: 0x7f00_0020_0000,
                size: 0x20_0000,
            },
        }
    );
    let dma = vfio.mapped(29, 0x7f00_0020_0000, 0x7f00_0020_0000).unwrap();
    assert_eq!(dma.size(), 0x20_0000);
    assert_eq!(dma.phys(), dma.virt());
    assert_eq!(dma.phys() % 0x20_0000, 0);
    assert!(matches!(vfio.mapped(29, 0x7f00_0020_0000, 0x1000), Err(Error::Allocation(_))));
    assert!(matches!(
        vfio.mapped(29, 0x7f00_0020_0000, 0x7f00_0040_0000),
        Err(Error::Allocation(_))
    ));
    assert!(matches!(
        vfio.mapped(29, 0x7f00_0020_1000, 0x7f00_0020_1000),
        Err(Error::Allocation(_))
    ));
    assert_eq!(
        vfio.deallocate(&dma),
        Ok((
            DmaUnmapRequest::Legacy {
                fd: 3,
                argument: vfio_iommu_type1_dma_unmap {
                    argsz: 32,
                    flags: 0,
                    iova: 0x7f00_0020_0000,
                    size: 0x20_0000,
                    data: 0,
                },
            },
            0x20_0000
        ))
    );

    let backend = VfioBackend::IOMMUFD { ioas_id: 5, iommufd: 4 };
    assert_eq!(
        backend.map_dma(0x1000, 0x2000),
        DmaMapRequest::Iommufd {
            fd: 4,
            ioas: iommu_ioas_map {
                size: 40,
                flags: 7,
                ioas_id: 5,
                __reserved: 0,
                user_va: 0x1000,
                length: 0x2000,
                iova: 0x1000,
            },
        }
    );
    let dma = Dma::new(0x1000, 0x8000, 0x2000).unwrap();
    assert_eq!(
        backend.unmap_dma(&dma),
        DmaUnmapRequest::Iommufd {
            fd: 4,
            ioas: iommu_ioas_unmap { size: 24, ioas_id: 5, iova: 0x8000, length: 0x2000 },
        }
    );
}

#[test]
fn register_region_mapping() {
    assert_eq!(
        Vfio::map_resource(),
        vfio_region_info { argsz: 32, flags: 0, index: 0, cap_offset: 0, size: 0, offset: 0 }
    );
    assert_eq!(Vfio::map_resource_index(7), region(0, 0));
    assert_eq!(Vfio::map_resource(), Vfio::map_resource_index(0));
    assert_eq!(Vfio::map_resource_index(7).index, 7);
    assert_eq!(Vfio::resource_mapping(&region(0x4000, 0x100_0000_0000)), Ok((0x4000, 0x100_0000_0000)));
    assert!(matches!(Vfio::resource_mapping(&region(0, 0)), Err(Error::Vfio(_))));
    assert!(matches!(Vfio::resource_mapping(&region(1, u64::MAX)), Err(Error::Vfio(_))));
}

#[test]
fn page_size_can_be_changed() {
    let mut vfio = legacy(Pagesize::Page2M);
    assert_eq!(vfio.page_size(), Pagesize::Page2M);
    vfio.set_page_size(Pagesize::Page4K);
    assert_eq!(vfio.page_size(), Pagesize::Page4K);
    assert_eq!(vfio.device_fd(), 9);
    assert_eq!(vfio.iommu(), VfioBackend::Legacy { container_fd: 3 });
}

#[test]
fn setup_through_a_container() {
    let (setup, request) = Vfio::init();
    assert_eq!(request, SetupRequest::OpenContainer);
    let (setup, request) = ask(setup.next(SetupReply::Returned(3)));
    assert_eq!(
        request,
        SetupRequest::Ioctl { fd: 3, op: IoctlOp::VFIO_GET_API_VERSION, arg: IoctlArg::Nothing }
    );
    let (setup, request) = ask(setup.next(SetupReply::Returned(0)));
    assert_eq!(
        request,
        SetupRequest::Ioctl { fd: 3, op: IoctlOp::VFIO_CHECK_EXTENSION, arg: IoctlArg::Number(1) }
    );
    let (setup, request) = ask(setup.next(SetupReply::Returned(1)));
    assert_eq!(request, SetupRequest::FindGroup);
    let (setup, request) = ask(setup.next(SetupReply::Group { group: 42 }));
    assert_eq!(request, SetupRequest::OpenGroup { group: 42 });
    let (setup, request) = ask(setup.next(SetupReply::Returned(4)));
    assert_eq!(
        request,
        SetupRequest::Ioctl {
            fd: 4,
            op: IoctlOp::VFIO_GROUP_GET_STATUS,
            arg: IoctlArg::GroupStatus(vfio_group_status { argsz: 8, flags: 0 }),
        }
    );
    let status = IoctlArg::GroupStatus(vfio_group_status { argsz: 8, flags: 3 });
    let (setup, request) = ask(setup.next(SetupReply::Filled(status)));
    assert_eq!(
        request,
        SetupRequest::Ioctl { fd: 4, op: IoctlOp::VFIO_GROUP_SET_CONTAINER, arg: IoctlArg::Fd(3) }
    );
    let (setup, request) = ask(setup.next(SetupReply::Returned(0)));
    assert_eq!(request, SetupRequest::RememberGroup { group: 42, fd: 4 });
    let (setup, request) = ask(setup.next(SetupReply::Returned(0)));
    assert_eq!(
        request,
        SetupRequest::Ioctl { fd: 3, op: IoctlOp::VFIO_SET_IOMMU, arg: IoctlArg::Number(1) }
    );
    let (setup, request) = ask(setup.next(SetupReply::Returned(0)));
    assert_eq!(
        request,
        SetupRequest::Ioctl { fd: 4, op: IoctlOp::VFIO_GROUP_GET_DEVICE_FD, arg: IoctlArg::PciAddr }
    );
    let (setup, request) = ask(setup.next(SetupReply::Returned(5)));
    let info = vfio_iommu_type1_info { argsz: 24, flags: 0, iova_pgsizes: 0, cap_offset: 0, pad: 0 };
    assert_eq!(
        request,
        SetupRequest::Ioctl {
            fd: 3,
            op: IoctlOp::VFIO_IOMMU_GET_INFO,
            arg: IoctlArg::IommuInfo(info),
        }
    );
    let (setup, request) = ask(setup.next(SetupReply::Filled(IoctlArg::IommuInfo(info))));
    assert_eq!(
        request,
        SetupRequest::Ioctl {
            fd: 5,
            op: IoctlOp::VFIO_DEVICE_GET_REGION_INFO,
            arg: IoctlArg::RegionInfo(region(0, 0)),
        }
    );
    let filled = IoctlArg::RegionInfo(region(256, 0x700_0000_0000));
    let (setup, request) = ask(setup.next(SetupReply::Filled(filled)));
    assert_eq!(request, SetupRequest::ReadCommand { fd: 5, offset: 0x700_0000_0004 });
    let (setup, request) = ask(setup.next(SetupReply::Command(0x0403)));
    assert_eq!(
        request,
        SetupRequest::WriteCommand { fd: 5, offset: 0x700_0000_0004, command: 0x0407 }
    );
    assert_eq!(
        setup.next(SetupReply::Returned(2)),
        Progress::Done { device_fd: 5, backend: VfioBackend::Legacy { container_fd: 3 } }
    );
}

#[test]
fn setup_with_a_group_that_is_open_already() {
    let (setup, request) = Vfio::init_with_args(false);
    assert_eq!(request, SetupRequest::OpenContainer);
    let (setup, _) = ask(setup.next(SetupReply::Returned(3)));
    let (setup, _) = ask(setup.next(SetupReply::Returned(0)));
    let (setup, request) = ask(setup.next(SetupReply::Returned(1)));
    assert_eq!(request, SetupRequest::FindGroup);
    let (setup, request) = ask(setup.next(SetupReply::KnownGroup { group: 42, fd: 11 }));
    assert_eq!(
        request,
        SetupRequest::Ioctl { fd: 3, op: IoctlOp::VFIO_SET_IOMMU, arg: IoctlArg::Number(1) }
    );
    let (_, request) = ask(setup.next(SetupReply::Returned(0)));
    assert_eq!(
        request,
        SetupRequest::Ioctl { fd: 11, op: IoctlOp::VFIO_GROUP_GET_DEVICE_FD, arg: IoctlArg::PciAddr }
    );
}

#[test]
fn setup_through_iommufd() {
    let (setup, request) = Vfio::init_with_args(true);
    assert_eq!(request, SetupRequest::OpenIommu);
    let (setup, request) = ask(setup.next(SetupReply::Returned(6)));
    assert_eq!(request, SetupRequest::OpenDevice);
    let (setup, request) = ask(setup.next(SetupReply::Returned(7)));
    let bind = vfio_device_bind_iommufd { argsz: 16, flags: 0, iommufd: 6, out_devid: 0 };
    assert_eq!(
        request,
        SetupRequest::Ioctl {
            fd: 7,
            op: IoctlOp::VFIO_DEVICE_BIND_IOMMUFD,
            arg: IoctlArg::Bind(bind),
        }
    );
    let (setup, request) = ask(setup.next(SetupReply::Filled(IoctlArg::Bind(bind))));
    assert_eq!(
        request,
        SetupRequest::Ioctl {
            fd: 6,
            op: IoctlOp::IOMMU_IOAS_ALLOC,
            arg: IoctlArg::IoasAlloc(iommu_ioas_alloc { size: 12, flags: 0, out_ioas_id: 0 }),
        }
    );
    let alloc = IoctlArg::IoasAlloc(iommu_ioas_alloc { size: 12, flags: 0, out_ioas_id: 17 });
    let (setup, request) = ask(setup.next(SetupReply::Filled(alloc)));
    let attach = vfio_device_attach_iommufd_pt { argsz: 12, flags: 0, pt_id: 17 };
    assert_eq!(
        request,
        SetupRequest::Ioctl {
            fd: 7,
            op: IoctlOp::VFIO_DEVICE_ATTACH_IOMMUFD_PT,
            arg: IoctlArg::AttachPt(attach),
        }
    );
    let (setup, request) = ask(setup.next(SetupReply::Filled(IoctlArg::AttachPt(attach))));
    assert_eq!(
        request,
        SetupRequest::Ioctl {
            fd: 7,
            op: IoctlOp::VFIO_DEVICE_GET_REGION_INFO,
            arg: IoctlArg::RegionInfo(region(0, 0)),
        }
    );
    let (setup, _) = ask(setup.next(SetupReply::Filled(IoctlArg::RegionInfo(region(256, 0)))));
    let (setup, request) = ask(setup.next(SetupReply::Command(0)));
    assert_eq!(request, SetupRequest::WriteCommand { fd: 7, offset: 4, command: 4 });
    assert_eq!(
        setup.next(SetupReply::Returned(2)),
        Progress::Done { device_fd: 7, backend: VfioBackend::IOMMUFD { ioas_id: 17, iommufd: 6 } }
    );
}

#[test]
fn setup_failures() {
    let (start, _) = Vfio::init();
    assert_eq!(
        start.next(SetupReply::Failed(13)),
        Progress::Failed(SetupFailure::Io { errno: 13 })
    );
    let (setup, _) = ask(start.next(SetupReply::Returned(3)));
    assert_eq!(
        setup.next(SetupReply::Returned(1)),
        Progress::Failed(SetupFailure::ApiVersion)
    );
    assert_eq!(
        setup.next(SetupReply::Failed(22)),
        Progress::Failed(SetupFailure::Ioctl { op: IoctlOp::VFIO_GET_API_VERSION, errno: 22 })
    );
    assert_eq!(
        setup.next(SetupReply::Command(1)),
        Progress::Failed(SetupFailure::Reply)
    );
    let (setup, _) = ask(setup.next(SetupReply::Returned(0)));
    assert_eq!(
        setup.next(SetupReply::Failed(25)),
        Progress::Failed(SetupFailure::NoType1 { errno: 25 })
    );
    let (setup, request) = ask(setup.next(SetupReply::Returned(1)));
    assert_eq!(request, SetupRequest::FindGroup);
    assert_eq!(
        setup.next(SetupReply::Failed(2)),
        Progress::Failed(SetupFailure::Io { errno: 2 })
    );
    assert_eq!(
        setup.next(SetupReply::Returned(42)),
        Progress::Failed(SetupFailure::Reply)
    );
    let (setup, _) = ask(setup.next(SetupReply::Group { group: 42 }));
    assert_eq!(
        setup.next(SetupReply::Failed(2)),
        Progress::Failed(SetupFailure::GroupOpen { group: 42, errno: 2 })
    );
    let (setup, _) = ask(setup.next(SetupReply::Returned(4)));
    let status = IoctlArg::GroupStatus(vfio_group_status { argsz: 8, flags: 2 });
    assert_eq!(
        setup.next(SetupReply::Filled(status)),
        Progress::Failed(SetupFailure::NotViable)
    );
    let (iommufd, _) = Vfio::init_with_args(true);
    assert_eq!(
        iommufd.next(SetupReply::Failed(2)),
        Progress::Failed(SetupFailure::IommufdOpen { errno: 2 })
    );
}

#[test]
fn setup_failures_as_errors() {
    assert!(matches!(SetupFailure::ApiVersion.error(), Error::Vfio(_)));
    assert!(matches!(SetupFailure::NotViable.error(), Error::Vroom(_)));
    assert!(matches!(SetupFailure::Io { errno: 5 }.error(), Error::Io(_)));
    assert!(matches!(SetupFailure::NoType1 { errno: 5 }.error(), Error::Vfio(_)));
    assert!(matches!(SetupFailure::GroupOpen { group: 1, errno: 5 }.error(), Error::Vfio(_)));
    assert!(matches!(SetupFailure::IommufdOpen { errno: 5 }.error(), Error::Vfio(_)));
    assert!(matches!(SetupFailure::Reply.error(), Error::Vfio(_)));
    assert_eq!(
        SetupFailure::Ioctl { op: IoctlOp::VFIO_SET_IOMMU, errno: 16 }.error(),
        Error::Ioctl { op: IoctlOp::VFIO_SET_IOMMU, errno: 16 }
    );
    assert_eq!(SetupFailure::ApiVersion.error(), Error::Vfio("Unknown VFIO API Version".to_string()));
}
