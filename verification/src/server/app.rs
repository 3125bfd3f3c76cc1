//! Information about an app: its name, its organization and its parsed configuration.

use vstd::prelude::*;
use crate::maf_schemas::apps::{AppNameAndOrgSlug, RoomKey, RoomKeyHash};
use crate::maf_schemas::error::{ErrorResponse, ErrorStatus};
use crate::maf_schemas::project_config::ProjectConfigFile;
use crate::text::to_owned_string;

verus! {

/// Information about an application, a bundled set of code and resources that can be used to create
/// MAF rooms.
#[derive(Debug, Clone)]
pub struct App {
    name: String,
    org: String,
    config: ProjectConfigFile,
}

impl App {
    /// The app's name.
    pub closed spec fn spec_name(&self) -> Seq<char> {
        self.name@
    }

    /// The slug of the app's organization.
    pub closed spec fn spec_org(&self) -> Seq<char> {
        self.org@
    }

    /// The app's configuration.
    pub closed spec fn spec_config(&self) -> ProjectConfigFile {
        self.config
    }

    /// Creates an [`App`] from the name, the organization slug and the configuration parsed from
    /// the app's serialized `config` field, using a default config (see
    /// [`ProjectConfigFile::default_for`]) where the app has none.
    pub fn from_serialized(name: &str, org: &str, config: Option<ProjectConfigFile>) -> (app: Self)
        ensures
            app.spec_name() == name@,
            app.spec_org() == org@,
            config matches Some(c) ==> app.spec_config() == c,
            config is None ==> {
                let c = app.spec_config();
                &&& c.name@ == name@
                &&& c.rooms == crate::maf_schemas::apps::RoomCreationStrategy::AuthenticatedApiRequest
                &&& c.typed is None && c.debug is None && c.release is None && c.auth is None
            },
    {
        let config = match config {
            Some(c) => c,
            None => ProjectConfigFile::default_for(name),
        };
        App { name: to_owned_string(name), org: to_owned_string(org), config }
    }

    /// A copy of this app.
    pub fn duplicate(&self) -> (copy: Self)
        ensures
            copy == *self,
    {
        App { name: self.name.clone(), org: self.org.clone(), config: self.config.duplicate() }
    }

    /// Getter for the app's config.
    pub fn config(&self) -> (config: &ProjectConfigFile)
        ensures
            *config == self.spec_config(),
    {
        &self.config
    }

    /// Getter for the app's name.
    pub fn name(&self) -> (name: &str)
        ensures
            name@ == self.spec_name(),
    {
        self.name.as_str()
    }

    /// Getter for the app's organization.
    pub fn org(&self) -> (org: &str)
        ensures
            org@ == self.spec_org(),
    {
        self.org.as_str()
    }

    /// The identifier of this app: its name and organization slug.
    pub fn app_name_and_org_slug(&self) -> (id: AppNameAndOrgSlug)
        ensures
            id.app@ == self.spec_name(),
            id.org@ == self.spec_org(),
    {
        AppNameAndOrgSlug { app: self.name.clone(), org: self.org.clone() }
    }

    /// The lookup key of the room of this app with key `room_key`.
    pub fn room_key_hash(&self, room_key: RoomKey) -> (hash: RoomKeyHash)
        ensures
            hash.app.app@ == self.spec_name(),
            hash.app.org@ == self.spec_org(),
            hash.key == room_key,
    {
        RoomKeyHash { app: self.app_name_and_org_slug(), key: room_key }
    }

    /// Parses a room key given by a client for this app's room creation strategy: every key
    /// names the single room of an auto-creating app, and "default" is refused for other apps.
    pub fn parse_room_key(&self, room_key: &str) -> (key: Result<RoomKey, ErrorResponse>)
        ensures
            self.spec_config().rooms
                == crate::maf_schemas::apps::RoomCreationStrategy::AutoCreate ==> key
                == Ok::<RoomKey, ErrorResponse>(RoomKey::Default),
            self.spec_config().rooms
                == crate::maf_schemas::apps::RoomCreationStrategy::AuthenticatedApiRequest ==> {
                if room_key@ == "default"@ {
                    key matches Err(e) && e.is(
                        ErrorStatus::BadRequest,
                        "invalid room key for the app's room creation strategy"@,
                    )
                } else {
                    key matches Ok(RoomKey::Custom(k)) && k@ == room_key@
                }
            },
    {
        match RoomKey::new(room_key, self.config.rooms) {
            Some(key) => Ok(key),
            None => Err(
                ErrorResponse::bad_request(
                    Some("invalid room key for the app's room creation strategy"),
                ),
            ),
        }
    }
}

} // verus!
