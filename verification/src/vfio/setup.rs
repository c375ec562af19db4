//! Setting a device up behind its IOMMU: a conversation with the kernel in
//! which the library names each request and takes each reply.
#![allow(non_camel_case_types)]

use vstd::prelude::*;
use crate::error::Error;
use crate::ioctl_op::{IoctlFlag, IoctlOp};
use crate::vfio_structs::{iommu_ioas_alloc, vfio_device_attach_iommufd_pt};
use crate::vfio_structs::{vfio_device_bind_iommufd, vfio_group_status};
use crate::vfio_structs::{vfio_iommu_type1_info, vfio_region_info};
use super::{Vfio, VfioBackend, NO_FD};

verus! {

/// What travels with a request to the kernel.
#[derive(Debug, Clone, Copy, PartialEq, Eq, Structural)]
pub enum IoctlArg {
    /// Nothing
    Nothing,
    /// A number, passed by value
    Number(u64),
    /// A file descriptor, passed by reference
    Fd(i32),
    /// The PCI address of the device, as text
    PciAddr,
    GroupStatus(vfio_group_status),
    IommuInfo(vfio_iommu_type1_info),
    RegionInfo(vfio_region_info),
    Bind(vfio_device_bind_iommufd),
    IoasAlloc(iommu_ioas_alloc),
    AttachPt(vfio_device_attach_iommufd_pt),
}

/// What setting a device up asks its caller to do next.
#[derive(Debug, Clone, Copy, PartialEq, Eq, Structural)]
pub enum SetupRequest {
    /// Open `/dev/vfio/vfio`.
    OpenContainer,
    /// Find the IOMMU group of the device, and the open file of the group
    /// if an earlier device has left it.
    FindGroup,
    /// Open `/dev/vfio/<group>`.
    OpenGroup { group: i32 },
    /// Open `/dev/iommu`.
    OpenIommu,
    /// Open `/dev/vfio/devices/vfio0`.
    OpenDevice,
    /// Make the request `op` on the file `fd` with the argument `arg`.
    Ioctl { fd: i32, op: IoctlOp, arg: IoctlArg },
    /// Keep the open file `fd` of group `group` for the devices that are
    /// set up later.
    RememberGroup { group: i32, fd: i32 },
    /// Read the two bytes of the command register at `offset` of the file
    /// `fd`.
    ReadCommand { fd: i32, offset: u64 },
    /// Write `command` to the two bytes of the command register at `offset`
    /// of the file `fd`.
    WriteCommand { fd: i32, offset: u64, command: u16 },
}

/// How a request ended.
#[derive(Debug, Clone, Copy, PartialEq, Eq, Structural)]
pub enum SetupReply {
    /// It succeeded and returned this number: the new file descriptor of an
    /// open, the result of an ioctl.
    Returned(i32),
    /// It succeeded, and the kernel filled in the argument.
    Filled(IoctlArg),
    /// It succeeded and read this value of the command register.
    Command(u16),
    /// The device belongs to this IOMMU group, whose file is not open yet.
    Group { group: i32 },
    /// The device belongs to this IOMMU group, whose file an earlier device
    /// has left open as `fd`.
    KnownGroup { group: i32, fd: i32 },
    /// It failed with this error number.
    Failed(i32),
}

/// Why setting a device up has failed.
#[derive(Debug, Clone, Copy, PartialEq, Eq, Structural)]
pub enum SetupFailure {
    /// A file could not be opened, read or written.
    Io { errno: i32 },
    /// The kernel speaks another version of VFIO.
    ApiVersion,
    /// The container does not support the type 1 IOMMU.
    NoType1 { errno: i32 },
    /// The file of the group could not be opened.
    GroupOpen { group: i32, errno: i32 },
    /// Not all devices of the group are bound to VFIO.
    NotViable,
    /// `/dev/iommu` or the file of the device could not be opened.
    IommufdOpen { errno: i32 },
    /// A request failed.
    Ioctl { op: IoctlOp, errno: i32 },
    /// The reply does not answer the request, or cannot be used.
    Reply,
}

impl SetupFailure {
    /// The error that stands for the failure towards the users of the
    /// driver.
    pub fn error(&self) -> (error: Error)
        ensures
            match *self {
                SetupFailure::Io { errno } => error matches Error::Io(m) && m@
                    == "a file of the device could not be accessed"@,
                SetupFailure::ApiVersion => error matches Error::Vfio(m) && m@
                    == "Unknown VFIO API Version"@,
                SetupFailure::NoType1 { errno } => error matches Error::Vfio(m) && m@
                    == "Container doesn't support Type1 IOMMU"@,
                SetupFailure::GroupOpen { group, errno } => error matches Error::Vfio(m) && m@
                    == "Failed to open the group of the device, is Vfio set up correctly?"@,
                SetupFailure::NotViable => error matches Error::Vroom(m) && m@
                    == "group is not viable (ie, not all devices in this group are bound to vfio)"@,
                SetupFailure::IommufdOpen { errno } => error matches Error::Vfio(m) && m@
                    == "Failed to open the IOMMU or the device, is IOMMUFD set up correctly?"@,
                SetupFailure::Ioctl { op, errno } => error == (Error::Ioctl { op, errno }),
                SetupFailure::Reply => error matches Error::Vfio(m) && m@
                    == "the kernel gave a reply that cannot be used"@,
            },
    {
        match self {
            SetupFailure::Io { errno } => Error::io("a file of the device could not be accessed"),
            SetupFailure::ApiVersion => Error::vfio("Unknown VFIO API Version"),
            SetupFailure::NoType1 { errno } => Error::vfio(
                "Container doesn't support Type1 IOMMU",
            ),
            SetupFailure::GroupOpen { group, errno } => Error::vfio(
                "Failed to open the group of the device, is Vfio set up correctly?",
            ),
            SetupFailure::NotViable => Error::config(
                "group is not viable (ie, not all devices in this group are bound to vfio)",
            ),
            SetupFailure::IommufdOpen { errno } => Error::vfio(
                "Failed to open the IOMMU or the device, is IOMMUFD set up correctly?",
            ),
            SetupFailure::Ioctl { op, errno } => Error::Ioctl { op: *op, errno: *errno },
            SetupFailure::Reply => Error::vfio("the kernel gave a reply that cannot be used"),
        }
    }
}

/// The reply that setting a device up is waiting for.
#[derive(Debug, Clone, Copy, PartialEq, Eq, Structural)]
pub enum Stage {
    Container,
    ApiVersion,
    Extension,
    FindGroup,
    Group,
    Status,
    SetContainer,
    Remember,
    SetIommu,
    DeviceFd,
    Info,
    Iommu,
    Device,
    Bind,
    Alloc,
    Attach,
    Region,
    ReadCommand,
    WriteCommand,
}

impl Stage {
    /// Position of the stage in the course of setting a device up.
    pub open spec fn rank(self) -> int {
        match self {
            Stage::Container => 0,
            Stage::ApiVersion => 1,
            Stage::Extension => 2,
            Stage::FindGroup => 3,
            Stage::Group => 4,
            Stage::Status => 5,
            Stage::SetContainer => 6,
            Stage::Remember => 7,
            Stage::SetIommu => 8,
            Stage::DeviceFd => 9,
            Stage::Info => 10,
            Stage::Iommu => 11,
            Stage::Device => 12,
            Stage::Bind => 13,
            Stage::Alloc => 14,
            Stage::Attach => 15,
            Stage::Region => 16,
            Stage::ReadCommand => 17,
            Stage::WriteCommand => 18,
        }
    }
}

/// How far setting a device up has come, and what it has learnt so far.
#[derive(Debug, Clone, Copy, PartialEq, Eq, Structural)]
pub struct VfioSetup {
    /// The reply that is waited for
    pub stage: Stage,
    /// IOMMU group of the device
    pub group: i32,
    /// Whether an earlier device has left the file of the group open
    pub group_known: bool,
    /// The container, or the IOMMUFD
    pub container_fd: i32,
    pub group_fd: i32,
    pub device_fd: i32,
    pub ioas_id: u32,
    /// Whether IOMMUFD is used in place of a container
    pub iommufd: bool,
    /// Offset of the command register in the file of the device
    pub command_offset: u64,
}

/// What the next turn of setting a device up is.
#[derive(Debug, Clone, Copy, PartialEq, Eq, Structural)]
pub enum Progress {
    /// Make the request and come back with its reply.
    Ask(VfioSetup, SetupRequest),
    /// The device is set up.
    Done { device_fd: i32, backend: VfioBackend },
    /// The device cannot be set up.
    Failed(SetupFailure),
}

impl VfioSetup {
    /// The setup at another stage.
    pub open spec fn at(self, stage: Stage) -> VfioSetup {
        VfioSetup { stage, ..self }
    }

    /// The interface through which memory will be mapped.
    pub open spec fn backend(self) -> VfioBackend {
        if self.iommufd {
            VfioBackend::IOMMUFD { ioas_id: self.ioas_id, iommufd: self.container_fd }
        } else {
            VfioBackend::Legacy { container_fd: self.container_fd }
        }
    }

    /// The request that sets the IOMMU model of the container.
    pub open spec fn ask_set_iommu(self) -> Progress {
        Progress::Ask(
            self.at(Stage::SetIommu),
            SetupRequest::Ioctl {
                fd: self.container_fd,
                op: IoctlOp::VFIO_SET_IOMMU,
                arg: IoctlArg::Number(1),
            },
        )
    }

    /// The request that starts switching bus mastering on: where is the
    /// configuration space of the device?
    pub open spec fn ask_region(self) -> Progress {
        Progress::Ask(
            self.at(Stage::Region),
            SetupRequest::Ioctl {
                fd: self.device_fd,
                op: IoctlOp::VFIO_DEVICE_GET_REGION_INFO,
                arg: IoctlArg::RegionInfo(
                    vfio_region_info {
                        argsz: 32,
                        flags: 0,
                        index: 7,
                        cap_offset: 0,
                        size: 0,
                        offset: 0,
                    },
                ),
            },
        )
    }

    /// What a failed request means at each stage.
    pub open spec fn failure(self, errno: i32) -> SetupFailure {
        match self.stage {
            Stage::Container | Stage::FindGroup | Stage::ReadCommand | Stage::WriteCommand
            | Stage::Remember => SetupFailure::Io { errno },
            Stage::ApiVersion => SetupFailure::Ioctl { op: IoctlOp::VFIO_GET_API_VERSION, errno },
            Stage::Extension => SetupFailure::NoType1 { errno },
            Stage::Group => SetupFailure::GroupOpen { group: self.group, errno },
            Stage::Status => SetupFailure::Ioctl { op: IoctlOp::VFIO_GROUP_GET_STATUS, errno },
            Stage::SetContainer => SetupFailure::Ioctl {
                op: IoctlOp::VFIO_GROUP_SET_CONTAINER,
                errno,
            },
            Stage::SetIommu => SetupFailure::Ioctl { op: IoctlOp::VFIO_SET_IOMMU, errno },
            Stage::DeviceFd => SetupFailure::Ioctl { op: IoctlOp::VFIO_GROUP_GET_DEVICE_FD, errno },
            Stage::Info => SetupFailure::Ioctl { op: IoctlOp::VFIO_IOMMU_GET_INFO, errno },
            Stage::Iommu | Stage::Device => SetupFailure::IommufdOpen { errno },
            Stage::Bind => SetupFailure::Ioctl { op: IoctlOp::VFIO_DEVICE_BIND_IOMMUFD, errno },
            Stage::Alloc => SetupFailure::Ioctl { op: IoctlOp::IOMMU_IOAS_ALLOC, errno },
            Stage::Attach => SetupFailure::Ioctl {
                op: IoctlOp::VFIO_DEVICE_ATTACH_IOMMUFD_PT,
                errno,
            },
            Stage::Region => SetupFailure::Ioctl {
                op: IoctlOp::VFIO_DEVICE_GET_REGION_INFO,
                errno,
            },
        }
    }

    /// What follows when a request has succeeded with the reply `reply`.
    ///
    /// Through a container: open it, check that it speaks version 0 of the
    /// interface and supports the type 1 IOMMU; find the group of the
    /// device; unless the file of the group is open already, open it, check
    /// that the group is viable, put it into the container and keep its
    /// file; set the IOMMU model, get the file of
    /// the device, ask the IOMMU about itself. Through IOMMUFD: open it and
    /// the device, bind the device to it, allocate an I/O address space and
    /// attach the device to it. Either way bus mastering is switched on at
    /// the end: find the configuration space, read the command register and
    /// write it back with bit 2 set.
    pub open spec fn succeeded(self, reply: SetupReply) -> Progress {
        match (self.stage, reply) {
            (Stage::Container, SetupReply::Returned(fd)) => Progress::Ask(
                VfioSetup { container_fd: fd, ..self }.at(Stage::ApiVersion),
                SetupRequest::Ioctl {
                    fd,
                    op: IoctlOp::VFIO_GET_API_VERSION,
                    arg: IoctlArg::Nothing,
                },
            ),
            (Stage::ApiVersion, SetupReply::Returned(version)) => if version != 0 {
                Progress::Failed(SetupFailure::ApiVersion)
            } else {
                Progress::Ask(
                    self.at(Stage::Extension),
                    SetupRequest::Ioctl {
                        fd: self.container_fd,
                        op: IoctlOp::VFIO_CHECK_EXTENSION,
                        arg: IoctlArg::Number(1),
                    },
                )
            },
            (Stage::Extension, SetupReply::Returned(_)) => Progress::Ask(
                self.at(Stage::FindGroup),
                SetupRequest::FindGroup,
            ),
            (Stage::FindGroup, SetupReply::Group { group }) => Progress::Ask(
                VfioSetup { group, ..self }.at(Stage::Group),
                SetupRequest::OpenGroup { group },
            ),
            (Stage::FindGroup, SetupReply::KnownGroup { group, fd }) => VfioSetup {
                group,
                group_known: true,
                group_fd: fd,
                ..self
            }.ask_set_iommu(),
            (Stage::Group, SetupReply::Returned(fd)) => Progress::Ask(
                VfioSetup { group_fd: fd, ..self }.at(Stage::Status),
                SetupRequest::Ioctl {
                    fd,
                    op: IoctlOp::VFIO_GROUP_GET_STATUS,
                    arg: IoctlArg::GroupStatus(vfio_group_status { argsz: 8, flags: 0 }),
                },
            ),
            (Stage::Status, SetupReply::Filled(IoctlArg::GroupStatus(status))) => if status.flags
                % 2 != 1 {
                Progress::Failed(SetupFailure::NotViable)
            } else {
                Progress::Ask(
                    self.at(Stage::SetContainer),
                    SetupRequest::Ioctl {
                        fd: self.group_fd,
                        op: IoctlOp::VFIO_GROUP_SET_CONTAINER,
                        arg: IoctlArg::Fd(self.container_fd),
                    },
                )
            },
            (Stage::SetContainer, SetupReply::Returned(_)) => Progress::Ask(
                self.at(Stage::Remember),
                SetupRequest::RememberGroup { group: self.group, fd: self.group_fd },
            ),
            (Stage::Remember, SetupReply::Returned(_)) => self.ask_set_iommu(),
            (Stage::SetIommu, SetupReply::Returned(_)) => Progress::Ask(
                self.at(Stage::DeviceFd),
                SetupRequest::Ioctl {
                    fd: self.group_fd,
                    op: IoctlOp::VFIO_GROUP_GET_DEVICE_FD,
                    arg: IoctlArg::PciAddr,
                },
            ),
            (Stage::DeviceFd, SetupReply::Returned(fd)) => Progress::Ask(
                VfioSetup { device_fd: fd, ..self }.at(Stage::Info),
                SetupRequest::Ioctl {
                    fd: self.container_fd,
                    op: IoctlOp::VFIO_IOMMU_GET_INFO,
                    arg: IoctlArg::IommuInfo(
                        vfio_iommu_type1_info {
                            argsz: 24,
                            flags: 0,
                            iova_pgsizes: 0,
                            cap_offset: 0,
                            pad: 0,
                        },
                    ),
                },
            ),
            (Stage::Info, SetupReply::Filled(IoctlArg::IommuInfo(_))) => self.ask_region(),
            (Stage::Iommu, SetupReply::Returned(fd)) => Progress::Ask(
                VfioSetup { container_fd: fd, ..self }.at(Stage::Device),
                SetupRequest::OpenDevice,
            ),
            (Stage::Device, SetupReply::Returned(fd)) => Progress::Ask(
                VfioSetup { device_fd: fd, ..self }.at(Stage::Bind),
                SetupRequest::Ioctl {
                    fd,
                    op: IoctlOp::VFIO_DEVICE_BIND_IOMMUFD,
                    arg: IoctlArg::Bind(
                        vfio_device_bind_iommufd {
                            argsz: 16,
                            flags: 0,
                            iommufd: self.container_fd,
                            out_devid: 0,
                        },
                    ),
                },
            ),
            (Stage::Bind, SetupReply::Filled(IoctlArg::Bind(_))) => Progress::Ask(
                self.at(Stage::Alloc),
                SetupRequest::Ioctl {
                    fd: self.container_fd,
                    op: IoctlOp::IOMMU_IOAS_ALLOC,
                    arg: IoctlArg::IoasAlloc(
                        iommu_ioas_alloc { size: 12, flags: 0, out_ioas_id: 0 },
                    ),
                },
            ),
            (Stage::Alloc, SetupReply::Filled(IoctlArg::IoasAlloc(alloc))) => Progress::Ask(
                VfioSetup { ioas_id: alloc.out_ioas_id, ..self }.at(Stage::Attach),
                SetupRequest::Ioctl {
                    fd: self.device_fd,
                    op: IoctlOp::VFIO_DEVICE_ATTACH_IOMMUFD_PT,
                    arg: IoctlArg::AttachPt(
                        vfio_device_attach_iommufd_pt {
                            argsz: 12,
                            flags: 0,
                            pt_id: alloc.out_ioas_id,
                        },
                    ),
                },
            ),
            (Stage::Attach, SetupReply::Filled(IoctlArg::AttachPt(_))) => VfioSetup {
                ioas_id: self.ioas_id,
                ..self
            }.ask_region(),
            (Stage::Region, SetupReply::Filled(IoctlArg::RegionInfo(info))) => if info.offset + 4
                > i64::MAX {
                Progress::Failed(SetupFailure::Reply)
            } else {
                Progress::Ask(
                    VfioSetup { command_offset: (info.offset + 4) as u64, ..self }.at(
                        Stage::ReadCommand,
                    ),
                    SetupRequest::ReadCommand {
                        fd: self.device_fd,
                        offset: (info.offset + 4) as u64,
                    },
                )
            },
            (Stage::ReadCommand, SetupReply::Command(command)) => Progress::Ask(
                self.at(Stage::WriteCommand),
                SetupRequest::WriteCommand {
                    fd: self.device_fd,
                    offset: self.command_offset,
                    command: crate::pci::with_bus_master(command),
                },
            ),
            (Stage::WriteCommand, SetupReply::Returned(_)) => Progress::Done {
                device_fd: self.device_fd,
                backend: self.backend(),
            },
            _ => Progress::Failed(SetupFailure::Reply),
        }
    }

    /// What follows the reply `reply`.
    pub open spec fn spec_next(self, reply: SetupReply) -> Progress {
        match reply {
            SetupReply::Failed(errno) => Progress::Failed(self.failure(errno)),
            _ => self.succeeded(reply),
        }
    }

    fn set_iommu(self) -> (progress: Progress)
        ensures
            progress == self.ask_set_iommu(),
    {
        let mut next = self;
        next.stage = Stage::SetIommu;
        Progress::Ask(
            next,
            SetupRequest::Ioctl {
                fd: self.container_fd,
                op: IoctlOp::VFIO_SET_IOMMU,
                arg: IoctlArg::Number(crate::vfio_constants::VFIO_TYPE1_IOMMU),
            },
        )
    }

    fn region(self) -> (progress: Progress)
        ensures
            progress == self.ask_region(),
    {
        let mut next = self;
        next.stage = Stage::Region;
        Progress::Ask(
            next,
            SetupRequest::Ioctl {
                fd: self.device_fd,
                op: IoctlOp::VFIO_DEVICE_GET_REGION_INFO,
                arg: IoctlArg::RegionInfo(
                    Vfio::map_resource_index(crate::vfio_constants::VFIO_PCI_CONFIG_REGION_INDEX),
                ),
            },
        )
    }

    fn fail(self, errno: i32) -> (failure: SetupFailure)
        ensures
            failure == self.failure(errno),
    {
        match self.stage {
            Stage::Container | Stage::FindGroup | Stage::ReadCommand | Stage::WriteCommand
            | Stage::Remember => SetupFailure::Io { errno },
            Stage::ApiVersion => SetupFailure::Ioctl { op: IoctlOp::VFIO_GET_API_VERSION, errno },
            Stage::Extension => SetupFailure::NoType1 { errno },
            Stage::Group => SetupFailure::GroupOpen { group: self.group, errno },
            Stage::Status => SetupFailure::Ioctl { op: IoctlOp::VFIO_GROUP_GET_STATUS, errno },
            Stage::SetContainer => SetupFailure::Ioctl {
                op: IoctlOp::VFIO_GROUP_SET_CONTAINER,
                errno,
            },
            Stage::SetIommu => SetupFailure::Ioctl { op: IoctlOp::VFIO_SET_IOMMU, errno },
            Stage::DeviceFd => SetupFailure::Ioctl { op: IoctlOp::VFIO_GROUP_GET_DEVICE_FD, errno },
            Stage::Info => SetupFailure::Ioctl { op: IoctlOp::VFIO_IOMMU_GET_INFO, errno },
            Stage::Iommu | Stage::Device => SetupFailure::IommufdOpen { errno },
            Stage::Bind => SetupFailure::Ioctl { op: IoctlOp::VFIO_DEVICE_BIND_IOMMUFD, errno },
            Stage::Alloc => SetupFailure::Ioctl { op: IoctlOp::IOMMU_IOAS_ALLOC, errno },
            Stage::Attach => SetupFailure::Ioctl {
                op: IoctlOp::VFIO_DEVICE_ATTACH_IOMMUFD_PT,
                errno,
            },
            Stage::Region => SetupFailure::Ioctl {
                op: IoctlOp::VFIO_DEVICE_GET_REGION_INFO,
                errno,
            },
        }
    }

    /// Takes the reply to the request that was asked last and says what
    /// follows: the next request, the end, or the failure.
    pub fn next(self, reply: SetupReply) -> (progress: Progress)
        ensures
            progress == self.spec_next(reply),
    {
        let mut next = self;
        match (self.stage, reply) {
            (_, SetupReply::Failed(errno)) => Progress::Failed(self.fail(errno)),
            (Stage::Container, SetupReply::Returned(fd)) => {
                next.container_fd = fd;
                next.stage = Stage::ApiVersion;
                Progress::Ask(
                    next,
                    SetupRequest::Ioctl {
                        fd,
                        op: IoctlOp::VFIO_GET_API_VERSION,
                        arg: IoctlArg::Nothing,
                    },
                )
            },
            (Stage::ApiVersion, SetupReply::Returned(version)) => {
                if version != crate::vfio_constants::VFIO_API_VERSION {
                    return Progress::Failed(SetupFailure::ApiVersion);
                }
                next.stage = Stage::Extension;
                Progress::Ask(
                    next,
                    SetupRequest::Ioctl {
                        fd: self.container_fd,
                        op: IoctlOp::VFIO_CHECK_EXTENSION,
                        arg: IoctlArg::Number(crate::vfio_constants::VFIO_TYPE1_IOMMU),
                    },
                )
            },
            (Stage::Extension, SetupReply::Returned(_)) => {
                next.stage = Stage::FindGroup;
                Progress::Ask(next, SetupRequest::FindGroup)
            },
            (Stage::FindGroup, SetupReply::Group { group }) => {
                next.group = group;
                next.stage = Stage::Group;
                Progress::Ask(next, SetupRequest::OpenGroup { group })
            },
            (Stage::FindGroup, SetupReply::KnownGroup { group, fd }) => {
                next.group = group;
                next.group_known = true;
                next.group_fd = fd;
                next.set_iommu()
            },
            (Stage::Group, SetupReply::Returned(fd)) => {
                next.group_fd = fd;
                next.stage = Stage::Status;
                Progress::Ask(
                    next,
                    SetupRequest::Ioctl {
                        fd,
                        op: IoctlOp::VFIO_GROUP_GET_STATUS,
                        arg: IoctlArg::GroupStatus(
                            vfio_group_status {
                                argsz: crate::vfio_structs::VFIO_GROUP_STATUS_SIZE,
                                flags: 0,
                            },
                        ),
                    },
                )
            },
            (Stage::Status, SetupReply::Filled(IoctlArg::GroupStatus(status))) => {
                let viable = IoctlFlag::VFIO_GROUP_FLAGS_VIABLE.bits();
                let flags = status.flags;
                assert(flags & 1 == flags % 2) by (bit_vector);
                if (flags & viable) != 1 {
                    return Progress::Failed(SetupFailure::NotViable);
                }
                next.stage = Stage::SetContainer;
                Progress::Ask(
                    next,
                    SetupRequest::Ioctl {
                        fd: self.group_fd,
                        op: IoctlOp::VFIO_GROUP_SET_CONTAINER,
                        arg: IoctlArg::Fd(self.container_fd),
                    },
                )
            },
            (Stage::SetContainer, SetupReply::Returned(_)) => {
                next.stage = Stage::Remember;
                Progress::Ask(
                    next,
                    SetupRequest::RememberGroup { group: self.group, fd: self.group_fd },
                )
            },
            (Stage::Remember, SetupReply::Returned(_)) => self.set_iommu(),
            (Stage::SetIommu, SetupReply::Returned(_)) => {
                next.stage = Stage::DeviceFd;
                Progress::Ask(
                    next,
                    SetupRequest::Ioctl {
                        fd: self.group_fd,
                        op: IoctlOp::VFIO_GROUP_GET_DEVICE_FD,
                        arg: IoctlArg::PciAddr,
                    },
                )
            },
            (Stage::DeviceFd, SetupReply::Returned(fd)) => {
                next.device_fd = fd;
                next.stage = Stage::Info;
                Progress::Ask(
                    next,
                    SetupRequest::Ioctl {
                        fd: self.container_fd,
                        op: IoctlOp::VFIO_IOMMU_GET_INFO,
                        arg: IoctlArg::IommuInfo(
                            vfio_iommu_type1_info {
                                argsz: crate::vfio_structs::VFIO_IOMMU_TYPE1_INFO_SIZE,
                                flags: 0,
                                iova_pgsizes: 0,
                                cap_offset: 0,
                                pad: 0,
                            },
                        ),
                    },
                )
            },
            (Stage::Info, SetupReply::Filled(IoctlArg::IommuInfo(_))) => self.region(),
            (Stage::Iommu, SetupReply::Returned(fd)) => {
                next.container_fd = fd;
                next.stage = Stage::Device;
                Progress::Ask(next, SetupRequest::OpenDevice)
            },
            (Stage::Device, SetupReply::Returned(fd)) => {
                next.device_fd = fd;
                next.stage = Stage::Bind;
                Progress::Ask(
                    next,
                    SetupRequest::Ioctl {
                        fd,
                        op: IoctlOp::VFIO_DEVICE_BIND_IOMMUFD,
                        arg: IoctlArg::Bind(
                            vfio_device_bind_iommufd {
                                argsz: crate::vfio_structs::VFIO_DEVICE_BIND_IOMMUFD_SIZE,
                                flags: 0,
                                iommufd: self.container_fd,
                                out_devid: 0,
                            },
                        ),
                    },
                )
            },
            (Stage::Bind, SetupReply::Filled(IoctlArg::Bind(_))) => {
                next.stage = Stage::Alloc;
                Progress::Ask(
                    next,
                    SetupRequest::Ioctl {
                        fd: self.container_fd,
                        op: IoctlOp::IOMMU_IOAS_ALLOC,
                        arg: IoctlArg::IoasAlloc(
                            iommu_ioas_alloc {
                                size: crate::vfio_structs::IOMMU_IOAS_ALLOC_SIZE,
                                flags: 0,
                                out_ioas_id: 0,
                            },
                        ),
                    },
                )
            },
            (Stage::Alloc, SetupReply::Filled(IoctlArg::IoasAlloc(alloc))) => {
                next.ioas_id = alloc.out_ioas_id;
                next.stage = Stage::Attach;
                Progress::Ask(
                    next,
                    SetupRequest::Ioctl {
                        fd: self.device_fd,
                        op: IoctlOp::VFIO_DEVICE_ATTACH_IOMMUFD_PT,
                        arg: IoctlArg::AttachPt(
                            vfio_device_attach_iommufd_pt {
                                argsz: crate::vfio_structs::VFIO_DEVICE_ATTACH_IOMMUFD_PT_SIZE,
                                flags: 0,
                                pt_id: alloc.out_ioas_id,
                            },
                        ),
                    },
                )
            },
            (Stage::Attach, SetupReply::Filled(IoctlArg::AttachPt(_))) => self.region(),
            (Stage::Region, SetupReply::Filled(IoctlArg::RegionInfo(info))) => {
                if info.offset > i64::MAX as u64 - crate::pci::COMMAND_REGISTER_OFFSET {
                    return Progress::Failed(SetupFailure::Reply);
                }
                let offset = info.offset + crate::pci::COMMAND_REGISTER_OFFSET;
                next.command_offset = offset;
                next.stage = Stage::ReadCommand;
                Progress::Ask(next, SetupRequest::ReadCommand { fd: self.device_fd, offset })
            },
            (Stage::ReadCommand, SetupReply::Command(command)) => {
                next.stage = Stage::WriteCommand;
                Progress::Ask(
                    next,
                    SetupRequest::WriteCommand {
                        fd: self.device_fd,
                        offset: self.command_offset,
                        command: command | 4,
                    },
                )
            },
            (Stage::WriteCommand, SetupReply::Returned(_)) => {
                let backend = if self.iommufd {
                    VfioBackend::IOMMUFD { ioas_id: self.ioas_id, iommufd: self.container_fd }
                } else {
                    VfioBackend::Legacy { container_fd: self.container_fd }
                };
                Progress::Done { device_fd: self.device_fd, backend }
            },
            _ => Progress::Failed(SetupFailure::Reply),
        }
    }
}

impl Vfio {
    /// Starts setting a device up through a VFIO container.
    pub fn init() -> (start: (VfioSetup, SetupRequest))
        ensures
            start == Self::spec_init(false),
    {
        Self::init_with_args(false)
    }

    /// Where setting a device up starts: at the container, or at IOMMUFD.
    /// Nothing is known of the device yet.
    pub open spec fn spec_init(use_iommufd: bool) -> (VfioSetup, SetupRequest) {
        let setup = VfioSetup {
            stage: if use_iommufd {
                Stage::Iommu
            } else {
                Stage::Container
            },
            group: 0,
            group_known: false,
            container_fd: NO_FD,
            group_fd: NO_FD,
            device_fd: NO_FD,
            ioas_id: 0,
            iommufd: use_iommufd,
            command_offset: 0,
        };
        (
            setup,
            if use_iommufd {
                SetupRequest::OpenIommu
            } else {
                SetupRequest::OpenContainer
            },
        )
    }

    /// Starts setting a device up, through IOMMUFD if `use_iommufd` says so
    /// and through a VFIO container else.
    ///
    /// Returns the state of the setup and the first request. The reply to
    /// each request goes to [`VfioSetup::next`].
    pub fn init_with_args(use_iommufd: bool) -> (start: (VfioSetup, SetupRequest))
        ensures
            start == Self::spec_init(use_iommufd),
    {
        if use_iommufd {
            return Self::init_iommufd();
        }
        let setup = VfioSetup {
            stage: Stage::Container,
            group: 0,
            group_known: false,
            container_fd: NO_FD,
            group_fd: NO_FD,
            device_fd: NO_FD,
            ioas_id: 0,
            iommufd: false,
            command_offset: 0,
        };
        (setup, SetupRequest::OpenContainer)
    }

    fn init_iommufd() -> (start: (VfioSetup, SetupRequest))
        ensures
            start == Self::spec_init(true),
    {
        let setup = VfioSetup {
            stage: Stage::Iommu,
            group: 0,
            group_known: false,
            container_fd: NO_FD,
            group_fd: NO_FD,
            device_fd: NO_FD,
            ioas_id: 0,
            iommufd: true,
            command_offset: 0,
        };
        (setup, SetupRequest::OpenIommu)
    }
}

/// Setting a device up always moves on: each request belongs to a later
/// stage than the one before, so that no more than nineteen requests are
/// made. The group of the device is looked for only when the container has
/// been opened and checked, the IOMMU model is set only with the group in
/// the container, and the device counts as set up only when the command
/// register was written.
pub proof fn lemma_setup_moves_on(setup: VfioSetup, reply: SetupReply)
    ensures
        match setup.spec_next(reply) {
            Progress::Ask(next, request) => {
                &&& setup.stage.rank() < next.stage.rank() <= 18
                &&& next.iommufd == setup.iommufd
                &&& request == SetupRequest::FindGroup ==> setup.stage == Stage::Extension
                &&& setup.stage != Stage::FindGroup ==> next.group == setup.group
                &&& next.stage == Stage::SetIommu ==> setup.stage == Stage::Remember || (setup.stage
                    == Stage::FindGroup && next.group_known)
            },
            Progress::Done { device_fd, backend } => {
                &&& setup.stage == Stage::WriteCommand
                &&& device_fd == setup.device_fd
                &&& backend == setup.backend()
            },
            Progress::Failed(_) => true,
        },
{
}

} // verus!
