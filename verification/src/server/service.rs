//! Validation of the requests that service accounts make to create rooms.

use vstd::prelude::*;
use std::collections::HashMap;
use crate::maf_schemas::apps::{JsonMetaEntry, RoomCreationStrategy, MAX_ROOM_KEY_LENGTH};
use crate::maf_schemas::error::{ErrorResponse, ErrorStatus};
use crate::server::app::App;
use crate::text::{byte_len, str_eq, utf8_len};

verus! {

/// Whether `uuid::Uuid::parse_str` accepts `text` (a simple, hyphenated, braced or URN UUID).
pub uninterp spec fn parses_as_uuid(text: Seq<char>) -> bool;

/// Whether `uuid::Uuid::parse_str` accepts `text`; what it accepts is named by
/// [`parses_as_uuid`] and depends on the text alone.
#[verifier::external_body]
pub(crate) fn is_uuid(text: &str) -> (parsed: bool)
    ensures
        parsed == parses_as_uuid(text@),
{
    uuid::Uuid::parse_str(text).is_ok()
}

/// A request to create a room.
pub struct ServiceCreateRoomOptions {
    /// An additional key used to identify the room. A default key being the room's ID will always
    /// be created for the room, but this allows for a custom key to be specified as well.
    pub key: Option<String>,
    /// Initial meta entries for the room.
    pub meta: Option<HashMap<String, JsonMetaEntry>>,
}

/// The error a room creation request is refused with, if any: rooms of auto-creating apps cannot
/// be created through the service API, and a custom key cannot be "default", empty, longer than
/// [`MAX_ROOM_KEY_LENGTH`] bytes, or a valid UUID (`key_is_uuid`).
pub open spec fn create_room_error(
    strategy: RoomCreationStrategy,
    key: Option<Seq<char>>,
    key_is_uuid: bool,
) -> Option<Seq<char>> {
    if strategy != RoomCreationStrategy::AuthenticatedApiRequest {
        Some("Autocreated rooms cannot be created through the service API."@)
    } else {
        match key {
            None => None,
            Some(k) => if k == "default"@ {
                Some("Room key cannot be 'default'."@)
            } else if k.len() == 0 {
                Some("Room key cannot be empty."@)
            } else if utf8_len(k) > MAX_ROOM_KEY_LENGTH {
                Some("Room key cannot be longer than MAX_ROOM_KEY_LENGTH characters."@)
            } else if key_is_uuid {
                Some("Room key cannot be a valid UUID."@)
            } else {
                None
            },
        }
    }
}

/// Decides a room creation request for an app with room creation strategy `strategy`, given
/// whether its key parses as a UUID; see [`create_room_error`]. Every refusal is a bad request.
pub fn check_create_room_request(
    strategy: RoomCreationStrategy,
    key: Option<&str>,
    key_is_uuid: bool,
) -> (result: Result<(), ErrorResponse>)
    ensures
        match create_room_error(
            strategy,
            match key {
                Some(k) => Some(k@),
                None => None,
            },
            key_is_uuid,
        ) {
            None => result is Ok,
            Some(text) => result matches Err(e) && e.is(ErrorStatus::BadRequest, text),
        },
{
    if strategy != RoomCreationStrategy::AuthenticatedApiRequest {
        return Err(
            ErrorResponse::bad_request(
                Some("Autocreated rooms cannot be created through the service API."),
            ),
        );
    }
    if let Some(key) = key {
        if str_eq(key, "default") {
            return Err(ErrorResponse::bad_request(Some("Room key cannot be 'default'.")));
        }
        if key.is_empty() {
            return Err(ErrorResponse::bad_request(Some("Room key cannot be empty.")));
        }
        if byte_len(key) > MAX_ROOM_KEY_LENGTH {
            return Err(
                ErrorResponse::bad_request(
                    Some("Room key cannot be longer than MAX_ROOM_KEY_LENGTH characters."),
                ),
            );
        }
        if key_is_uuid {
            return Err(ErrorResponse::bad_request(Some("Room key cannot be a valid UUID.")));
        }
    }
    Ok(())
}

impl ServiceCreateRoomOptions {
    /// Checks the request against the app it is made for; see [`create_room_error`].
    pub fn validate(&self, app: &App) -> (result: Result<(), ErrorResponse>)
        ensures
            match self.key {
                Some(k) => match create_room_error(
                    app.spec_config().rooms,
                    Some(k@),
                    parses_as_uuid(k@),
                ) {
                    None => result is Ok,
                    Some(text) => result matches Err(e) && e.is(ErrorStatus::BadRequest, text),
                },
                None => match create_room_error(app.spec_config().rooms, None, false) {
                    None => result is Ok,
                    Some(text) => result matches Err(e) && e.is(ErrorStatus::BadRequest, text),
                },
            },
    {
        let strategy = app.config().rooms;
        match &self.key {
            Some(k) => {
                let key_is_uuid = is_uuid(k.as_str());
                check_create_room_request(strategy, Some(k.as_str()), key_is_uuid)
            },
            None => check_create_room_request(strategy, None, false),
        }
    }
}

} // verus!
