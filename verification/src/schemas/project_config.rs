//! The configuration file of a MAF project, in the first version of the schemas.

use vstd::prelude::*;
use crate::schemas::apps::RoomCreationStrategy;

verus! {

/// The configuration file for a MAF project.
#[derive(Debug, Clone)]
pub struct ProjectConfigFile {
    pub name: String,
    /// Defaults to [`default_room_creation_strategy`] where the file does not set it.
    pub rooms: RoomCreationStrategy,
    pub typed: Option<TypedConfig>,
    pub debug: TargetConfig,
    pub release: TargetConfig,
}

/// Where the app's type definitions are generated.
#[derive(Debug, Clone)]
pub struct TypedConfig {
    /// The output path.
    pub out: String,
}

/// How a build target is produced.
#[derive(Debug, Clone)]
pub struct TargetConfig {
    pub command: String,
    pub output: String,
}

/// The room creation strategy of a configuration that does not set one.
pub fn default_room_creation_strategy() -> (strategy: RoomCreationStrategy)
    ensures
        strategy == RoomCreationStrategy::AuthenticatedApiRequest,
{
    RoomCreationStrategy::AuthenticatedApiRequest
}

} // verus!
