//! Descriptions of user apps and their rooms, in the first version of the schemas.

use vstd::prelude::*;
use crate::maf_schemas::apps as current;
use crate::maf_schemas::apps::{is_ascii_alphanumeric, strategy_description, strategy_name, dimmed_display};

verus! {

/// The number of characters in a room secret.
pub const ROOM_SECRET_LENGTH: usize = 64;

/// Generates a random string of ASCII letters and digits to use as a room secret.
pub fn generate_room_secret() -> (secret: String)
    ensures
        secret@.len() == ROOM_SECRET_LENGTH,
        forall|i: int| 0 <= i < secret@.len() ==> is_ascii_alphanumeric(#[trigger] secret@[i]),
{
    current::random_alphanumeric_string(ROOM_SECRET_LENGTH)
}

/// The configuration of a user app.
#[derive(Debug, Clone)]
pub struct UserAppConfig {
    pub rooms: RoomCreationStrategy,
}

/// A request to create an app.
#[derive(Debug)]
pub struct CreateUserAppRequest {
    pub name: String,
    pub config: Option<String>,
}

/// How the rooms of an app come into existence.
#[derive(Debug, Clone, Copy, PartialEq, Eq, Structural)]
pub enum RoomCreationStrategy {
    /// Auto-create a room and put everyone in it
    AutoCreate,
    /// Rooms are created by an authenticated API request
    AuthenticatedApiRequest,
}

/// The same strategy in the current schemas.
pub open spec fn as_current(strategy: RoomCreationStrategy) -> current::RoomCreationStrategy {
    match strategy {
        RoomCreationStrategy::AutoCreate => current::RoomCreationStrategy::AutoCreate,
        RoomCreationStrategy::AuthenticatedApiRequest =>
            current::RoomCreationStrategy::AuthenticatedApiRequest,
    }
}

impl RoomCreationStrategy {
    fn to_current(&self) -> (strategy: current::RoomCreationStrategy)
        ensures
            strategy == as_current(*self),
    {
        match self {
            RoomCreationStrategy::AutoCreate => current::RoomCreationStrategy::AutoCreate,
            RoomCreationStrategy::AuthenticatedApiRequest =>
                current::RoomCreationStrategy::AuthenticatedApiRequest,
        }
    }

    /// The name of the strategy as shown to users.
    pub fn format(&self) -> (text: String)
        ensures
            text@ == strategy_name(as_current(*self)),
    {
        self.to_current().format()
    }

    /// The name of the strategy, a space, and a dimmed description of it.
    pub fn format_with_description(&self) -> (text: String)
        ensures
            exists|shown: Seq<char>|
                dimmed_display(strategy_description(as_current(*self)), shown) && text@
                    == strategy_name(as_current(*self)) + " "@ + shown,
    {
        self.to_current().format_with_description()
    }
}

/// An app, identified by its name and the slug of the organization that owns it.
#[derive(Debug, Clone, PartialEq, Eq, Hash)]
pub struct AppNameAndOrgSlug {
    pub app: String,
    pub org: String,
}

/// A room key together with the app it belongs to.
#[derive(Debug, Clone, PartialEq, Eq, Hash)]
pub struct RoomKeyHash {
    pub app: AppNameAndOrgSlug,
    pub key: String,
}

} // verus!
