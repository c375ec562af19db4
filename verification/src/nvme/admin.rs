//! What the driver asks of the controller through the admin queue.

use vstd::prelude::*;
use crate::cmd::NvmeCommand;

verus! {

/// What the driver asks of the controller through the admin queue.
#[derive(Copy, Clone, Debug, PartialEq, Eq, Structural)]
pub enum AdminRequest {
    /// Create completion queue `q_id` with `size + 1` entries at I/O
    /// address `addr`.
    CreateIoCompletionQueue { q_id: u16, addr: usize, size: u16 },
    /// Create submission queue `q_id` with `size + 1` entries at I/O address
    /// `addr`, answered by completion queue `cq_id`.
    CreateIoSubmissionQueue { q_id: u16, addr: usize, size: u16, cq_id: u16 },
    DeleteIoSubmissionQueue { q_id: u16 },
    DeleteIoCompletionQueue { q_id: u16 },
    /// Describe the controller.
    IdentifyController,
    /// List the namespaces with an identifier above `base`.
    IdentifyNamespaceList { base: u32 },
    /// Describe namespace `id`.
    IdentifyNamespace { id: u32 },
    /// Format namespace `ns_id`; `0xFFFF_FFFF` stands for all namespaces.
    FormatNvm { ns_id: u32 },
}

impl AdminRequest {
    /// The command that carries the request, with identifier `c_id`; data
    /// the controller returns goes to I/O address `buffer`.
    pub open spec fn spec_command(self, c_id: u16, buffer: usize) -> NvmeCommand {
        match self {
            AdminRequest::CreateIoCompletionQueue { q_id, addr, size } =>
                NvmeCommand::spec_create_io_completion_queue(c_id, q_id, addr, size),
            AdminRequest::CreateIoSubmissionQueue { q_id, addr, size, cq_id } =>
                NvmeCommand::spec_create_io_submission_queue(c_id, q_id, addr, size, cq_id),
            AdminRequest::DeleteIoSubmissionQueue { q_id } => NvmeCommand {
                cdw10: q_id as u32,
                ..NvmeCommand::blank(crate::cmd::ADMIN_DELETE_IO_SQ, c_id, 0)
            },
            AdminRequest::DeleteIoCompletionQueue { q_id } => NvmeCommand {
                cdw10: q_id as u32,
                ..NvmeCommand::blank(crate::cmd::ADMIN_DELETE_IO_CQ, c_id, 0)
            },
            AdminRequest::IdentifyController => NvmeCommand::spec_identify(c_id, buffer, 0, 1),
            AdminRequest::IdentifyNamespaceList { base } => NvmeCommand::spec_identify(
                c_id,
                buffer,
                base,
                2,
            ),
            AdminRequest::IdentifyNamespace { id } => NvmeCommand::spec_identify(
                c_id,
                buffer,
                id,
                0,
            ),
            AdminRequest::FormatNvm { ns_id } => NvmeCommand::spec_format_nvm(c_id, ns_id),
        }
    }

    /// The command that carries the request.
    pub fn command(&self, c_id: u16, buffer: usize) -> (cmd: NvmeCommand)
        ensures
            cmd == self.spec_command(c_id, buffer),
    {
        match self {
            AdminRequest::CreateIoCompletionQueue { q_id, addr, size } =>
                NvmeCommand::create_io_completion_queue(c_id, *q_id, *addr, *size),
            AdminRequest::CreateIoSubmissionQueue { q_id, addr, size, cq_id } =>
                NvmeCommand::create_io_submission_queue(c_id, *q_id, *addr, *size, *cq_id),
            AdminRequest::DeleteIoSubmissionQueue { q_id } =>
                NvmeCommand::delete_io_submission_queue(c_id, *q_id),
            AdminRequest::DeleteIoCompletionQueue { q_id } =>
                NvmeCommand::delete_io_completion_queue(c_id, *q_id),
            AdminRequest::IdentifyController => NvmeCommand::identify_controller(c_id, buffer),
            AdminRequest::IdentifyNamespaceList { base } => NvmeCommand::identify_namespace_list(
                c_id,
                buffer,
                *base,
            ),
            AdminRequest::IdentifyNamespace { id } => NvmeCommand::identify_namespace(
                c_id,
                buffer,
                *id,
            ),
            AdminRequest::FormatNvm { ns_id } => NvmeCommand::format_nvm(c_id, *ns_id),
        }
    }
}

} // verus!
