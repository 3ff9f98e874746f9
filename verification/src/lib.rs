//! Verified core of Rust wrappers over NCCL's device communicator API.

mod device_comm;
mod requirements;
mod team;

pub use device_comm::{
    CopyLayout, CreationCompletion, CreationError, DeviceCommunicator,
};
pub use requirements::{
    DeviceCommRequirements, GinConnectionType, NcclHeaders, RequirementSettings,
    RequirementsRecord,
};
pub use team::{rank_to_lsa, rank_to_world, Team};
