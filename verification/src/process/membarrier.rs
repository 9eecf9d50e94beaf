//! Commands for `membarrier`.
use vstd::prelude::*;

verus! {

/// A command for use with `membarrier` and `membarrier_cpu`.
#[derive(Debug, Clone, Copy, Eq, PartialEq, Structural)]
pub enum MembarrierCommand {
    /// `MEMBARRIER_CMD_GLOBAL`
    Global,
    /// `MEMBARRIER_CMD_GLOBAL_EXPEDITED`
    GlobalExpedited,
    /// `MEMBARRIER_CMD_REGISTER_GLOBAL_EXPEDITED`
    RegisterGlobalExpedited,
    /// `MEMBARRIER_CMD_PRIVATE_EXPEDITED`
    PrivateExpedited,
    /// `MEMBARRIER_CMD_REGISTER_PRIVATE_EXPEDITED`
    RegisterPrivateExpedited,
    /// `MEMBARRIER_CMD_PRIVATE_EXPEDITED_SYNC_CORE`
    PrivateExpeditedSyncCore,
    /// `MEMBARRIER_CMD_REGISTER_PRIVATE_EXPEDITED_SYNC_CORE`
    RegisterPrivateExpeditedSyncCore,
    /// `MEMBARRIER_CMD_PRIVATE_EXPEDITED_RSEQ`
    PrivateExpeditedRseq,
    /// `MEMBARRIER_CMD_REGISTER_PRIVATE_EXPEDITED_RSEQ`
    RegisterPrivateExpeditedRseq,
}

/// The `MEMBARRIER_CMD_*` number of a command.
pub open spec fn membarrier_number(a: MembarrierCommand) -> u32 {
    match a {
        MembarrierCommand::Global => 1,
        MembarrierCommand::GlobalExpedited => 2,
        MembarrierCommand::RegisterGlobalExpedited => 4,
        MembarrierCommand::PrivateExpedited => 8,
        MembarrierCommand::RegisterPrivateExpedited => 16,
        MembarrierCommand::PrivateExpeditedSyncCore => 32,
        MembarrierCommand::RegisterPrivateExpeditedSyncCore => 64,
        MembarrierCommand::PrivateExpeditedRseq => 128,
        MembarrierCommand::RegisterPrivateExpeditedRseq => 256,
    }
}

impl MembarrierCommand {
    /// The raw `MEMBARRIER_CMD_*` value.
    pub fn as_raw(self) -> (r: u32)
        ensures
            r == membarrier_number(self),
    {
        match self {
            MembarrierCommand::Global => 1,
            MembarrierCommand::GlobalExpedited => 2,
            MembarrierCommand::RegisterGlobalExpedited => 4,
            MembarrierCommand::PrivateExpedited => 8,
            MembarrierCommand::RegisterPrivateExpedited => 16,
            MembarrierCommand::PrivateExpeditedSyncCore => 32,
            MembarrierCommand::RegisterPrivateExpeditedSyncCore => 64,
            MembarrierCommand::PrivateExpeditedRseq => 128,
            MembarrierCommand::RegisterPrivateExpeditedRseq => 256,
        }
    }
}

} // verus!
