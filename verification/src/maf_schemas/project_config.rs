//! The configuration file of a MAF project, `maf-project.toml`.

use vstd::prelude::*;
use crate::maf_schemas::apps::RoomCreationStrategy;
use crate::text::to_owned_string;

verus! {

/// The configuration file for a MAF project, stored at `maf-project.toml` in the root of the
/// project directory.
#[derive(Debug, Clone)]
pub struct ProjectConfigFile {
    pub name: String,
    /// Defaults to [`default_room_creation_strategy`] where the file does not set it.
    pub rooms: RoomCreationStrategy,
    pub typed: Option<TypedConfig>,
    pub debug: Option<TargetConfig>,
    pub release: Option<TargetConfig>,
    pub auth: Option<AuthConfig>,
}

/// Whether a configuration is consistent: `auth` is not set for apps whose rooms are
/// auto-created.
pub open spec fn config_valid(config: ProjectConfigFile) -> bool {
    !(config.rooms == RoomCreationStrategy::AutoCreate && config.auth is Some)
}

impl ProjectConfigFile {
    /// Checks that the configuration is consistent (see [`config_valid`]), and says why not
    /// otherwise.
    pub fn validate(&self) -> (result: Result<(), String>)
        ensures
            result is Ok <==> config_valid(*self),
            result matches Err(message) ==> message@
                == "'auth' cannot be set when 'rooms' is 'AutoCreate'"@,
    {
        if self.rooms == RoomCreationStrategy::AutoCreate && self.auth.is_some() {
            return Err(to_owned_string("'auth' cannot be set when 'rooms' is 'AutoCreate'"));
        }
        Ok(())
    }

    /// Creates a default ProjectConfigFile with the given name and default values for other fields.
    pub fn default_for(name: &str) -> (config: ProjectConfigFile)
        ensures
            config.name@ == name@,
            config.rooms == RoomCreationStrategy::AuthenticatedApiRequest,
            config.typed is None,
            config.debug is None,
            config.release is None,
            config.auth is None,
    {
        ProjectConfigFile {
            name: to_owned_string(name),
            rooms: RoomCreationStrategy::AuthenticatedApiRequest,
            typed: None,
            debug: None,
            release: None,
            auth: None,
        }
    }
}

impl ProjectConfigFile {
    /// A copy of this configuration.
    pub fn duplicate(&self) -> (copy: Self)
        ensures
            copy == *self,
    {
        ProjectConfigFile {
            name: self.name.clone(),
            rooms: self.rooms,
            typed: match &self.typed {
                Some(t) => Some(t.duplicate()),
                None => None,
            },
            debug: match &self.debug {
                Some(t) => Some(t.duplicate()),
                None => None,
            },
            release: match &self.release {
                Some(t) => Some(t.duplicate()),
                None => None,
            },
            auth: match &self.auth {
                Some(a) => Some(AuthConfig { mode: a.mode }),
                None => None,
            },
        }
    }
}

impl TypedConfig {
    /// A copy of this configuration.
    pub fn duplicate(&self) -> (copy: Self)
        ensures
            copy == *self,
    {
        let language = match self.language {
            Language::TypeScript => Language::TypeScript,
        };
        TypedConfig { language, out: self.out.clone() }
    }
}

impl TargetConfig {
    /// A copy of this configuration.
    pub fn duplicate(&self) -> (copy: Self)
        ensures
            copy == *self,
    {
        TargetConfig { command: self.command.clone(), output: self.output.clone() }
    }
}

/// The default configuration of an app is consistent.
pub proof fn lemma_default_config_valid(config: ProjectConfigFile)
    requires
        config.rooms == RoomCreationStrategy::AuthenticatedApiRequest,
        config.auth is None,
    ensures
        config_valid(config),
{
}

/// How users connecting to the rooms of an app authenticate.
#[derive(Debug, Clone)]
pub struct AuthConfig {
    pub mode: AuthMode,
}

#[derive(Debug, Copy, Clone, PartialEq, Eq, Structural)]
pub enum AuthMode {
    Jwt,
}

impl AuthMode {
    /// The name of the mode and what it asks of the app's server.
    pub fn format_with_description(&self) -> (text: String)
        ensures
            text@ == "Jwt (Your server needs to create and sign a JWT)"@,
    {
        match self {
            AuthMode::Jwt => to_owned_string("Jwt (Your server needs to create and sign a JWT)"),
        }
    }
}

#[derive(Debug, Clone)]
pub enum Language {
    TypeScript,
}

/// Where and in which language the app's type definitions are generated.
#[derive(Debug, Clone)]
pub struct TypedConfig {
    pub language: Language,
    /// The output path.
    pub out: String,
}

/// How a build target is produced.
#[derive(Debug, Clone)]
pub struct TargetConfig {
    pub command: String,
    pub output: String,
}

/// The room creation strategy of a configuration that does not set one.
pub fn default_room_creation_strategy() -> (strategy: RoomCreationStrategy)
    ensures
        strategy == RoomCreationStrategy::AuthenticatedApiRequest,
{
    RoomCreationStrategy::AuthenticatedApiRequest
}

} // verus!
