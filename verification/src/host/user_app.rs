//! Validation of the requests that users make to create and update their apps, and that service
//! accounts make to list rooms.

use vstd::prelude::*;
use crate::maf_schemas::apps::{AppNameAndOrgSlug, CreateUserAppRequest, RoomId, RoomKey};
use crate::server::room_storage::{
    live_rooms_of_app, spec_get, spec_get_by_key, spec_get_for_app, spec_rooms_for_app, RoomMaps,
};
use crate::maf_schemas::error::{ErrorResponse, ErrorStatus};
use crate::maf_schemas::project_config::{config_valid, ProjectConfigFile};
use crate::host::repos::DbErrorExt;
use crate::server::service::{is_uuid, parses_as_uuid};
use crate::maf_schemas::apps::RoomCreationStrategy;
use crate::text::{byte_len, str_eq, utf8_len};
use vstd::string::{StrSliceExecFns, StringExecFns};
use crate::text::to_owned_string;

verus! {

/// The longest app name, in bytes.
pub const MAX_APP_NAME_LENGTH: usize = 100;

/// The longest app configuration, in bytes.
pub const MAX_CONFIG_LENGTH: usize = 2000;

/// Whether `c` may appear in an app name: a lowercase ASCII letter, an ASCII digit or '-'.
pub open spec fn is_app_name_char(c: char) -> bool {
    ('a' <= c && c <= 'z') || ('0' <= c && c <= '9') || c == '-'
}

/// The message a request to create an app is refused with, if any.
pub open spec fn new_app_error(name: Seq<char>, config: Option<Seq<char>>) -> Option<Seq<char>> {
    if name.len() == 0 {
        Some("Name cannot be empty."@)
    } else if utf8_len(name) > MAX_APP_NAME_LENGTH {
        Some("Name cannot be longer than 100 characters."@)
    } else if !(forall|i: int| 0 <= i < name.len() ==> is_app_name_char(#[trigger] name[i])) {
        Some("Name can only contain lowercase alphanumeric characters, and hyphens."@)
    } else if config matches Some(c) && utf8_len(c) > MAX_CONFIG_LENGTH {
        Some("Config cannot be longer than 2000 characters."@)
    } else {
        None
    }
}

/// An app name is accepted only if it is made of lowercase ASCII letters, ASCII digits and
/// hyphens: a name that passes the emptiness and length checks but holds any other character (an
/// uppercase letter among them) is refused with the character-set message, and a name that is
/// accepted holds no other character.
pub proof fn lemma_app_names_are_lowercase_alphanumeric(
    name: Seq<char>,
    config: Option<Seq<char>>,
    i: int,
)
    requires
        0 <= i < name.len(),
    ensures
        utf8_len(name) <= MAX_APP_NAME_LENGTH && !(('a' <= name[i] && name[i] <= 'z') || ('0'
            <= name[i] && name[i] <= '9') || name[i] == '-') ==> new_app_error(name, config)
            == Some("Name can only contain lowercase alphanumeric characters, and hyphens."@),
        'A' <= name[i] && name[i] <= 'Z' ==> new_app_error(name, config) is Some,
        new_app_error(name, config) is None ==> (('a' <= name[i] && name[i] <= 'z') || ('0'
            <= name[i] && name[i] <= '9') || name[i] == '-'),
{
}

/// Whether every character of `name` may appear in an app name.
fn all_app_name_chars(name: &str) -> (ok: bool)
    ensures
        ok == (forall|i: int| 0 <= i < name@.len() ==> is_app_name_char(#[trigger] name@[i])),
{
    let n = name.unicode_len();
    let mut i: usize = 0;
    while i < n
        invariant
            n == name@.len(),
            0 <= i <= n,
            forall|j: int| 0 <= j < i ==> is_app_name_char(#[trigger] name@[j]),
        decreases n - i,
    {
        let c = name.get_char(i);
        if !(('a' <= c && c <= 'z') || ('0' <= c && c <= '9') || c == '-') {
            return false;
        }
        i = i + 1;
    }
    true
}

/// Checks a request to create an app; every refusal is a bad request (see [`new_app_error`]).
pub fn validate_create_user_app(request: &CreateUserAppRequest) -> (result: Result<(), ErrorResponse>)
    ensures
        match new_app_error(
            request.name@,
            match request.config {
                Some(c) => Some(c@),
                None => None,
            },
        ) {
            None => result is Ok,
            Some(text) => result matches Err(e) && e.is(ErrorStatus::BadRequest, text),
        },
{
    let name = request.name.as_str();
    if name.is_empty() {
        return Err(ErrorResponse::bad_request(Some("Name cannot be empty.")));
    }
    if byte_len(name) > MAX_APP_NAME_LENGTH {
        return Err(ErrorResponse::bad_request(Some("Name cannot be longer than 100 characters.")));
    }
    if !all_app_name_chars(name) {
        return Err(
            ErrorResponse::bad_request(
                Some("Name can only contain lowercase alphanumeric characters, and hyphens."),
            ),
        );
    }
    let config_too_long = match &request.config {
        Some(c) => byte_len(c.as_str()) > MAX_CONFIG_LENGTH,
        None => false,
    };
    if config_too_long {
        return Err(ErrorResponse::bad_request(Some("Config cannot be longer than 2000 characters.")));
    }
    Ok(())
}

/// The message a new configuration for an app is refused with, if any: it is too long, it does
/// not parse (`parsed` is `None`), or the parsed configuration is inconsistent.
pub open spec fn config_update_error(config: Seq<char>, parsed: Option<ProjectConfigFile>) -> Option<
    Seq<char>,
> {
    if utf8_len(config) > MAX_CONFIG_LENGTH {
        Some("Config cannot be longer than 2000 characters."@)
    } else if parsed is None {
        Some("Invalid project config"@)
    } else if !config_valid(parsed->0) {
        Some(
            "Failed to validate project config: "@
                + "'auth' cannot be set when 'rooms' is 'AutoCreate'"@,
        )
    } else {
        None
    }
}

/// Checks a new configuration `config` for an app, given what parsing it as TOML gave (`None`
/// where it did not parse); every refusal is a bad request (see [`config_update_error`]).
pub fn check_config_update(config: &str, parsed: Option<ProjectConfigFile>) -> (result: Result<
    (),
    ErrorResponse,
>)
    ensures
        match config_update_error(config@, parsed) {
            None => result is Ok,
            Some(text) => result matches Err(e) && e.is(ErrorStatus::BadRequest, text),
        },
{
    if byte_len(config) > MAX_CONFIG_LENGTH {
        return Err(ErrorResponse::bad_request(Some("Config cannot be longer than 2000 characters.")));
    }
    let parsed = match parsed {
        Some(p) => p,
        None => return Err(ErrorResponse::bad_request(Some("Invalid project config"))),
    };
    match parsed.validate() {
        Ok(()) => Ok(()),
        Err(e) => {
            let mut message = to_owned_string("Failed to validate project config: ");
            message.append(e.as_str());
            Err(ErrorResponse::bad_request(Some(message.as_str())))
        },
    }
}

/// Checks the filters of a request to list rooms: filtering by both identifier and key is a bad
/// request.
pub fn check_room_list_filters(by_id: bool, by_key: bool) -> (result: Result<(), ErrorResponse>)
    ensures
        by_id && by_key ==> (result matches Err(e) && e.is(
            ErrorStatus::BadRequest,
            "Cannot filter by both ID and key simultaneously."@,
        )),
        !(by_id && by_key) ==> result is Ok,
{
    if by_id && by_key {
        return Err(ErrorResponse::bad_request(Some("Cannot filter by both ID and key simultaneously.")));
    }
    Ok(())
}

/// The rooms that answer a service account's room query.
pub enum RoomQueryAnswer<'a, V> {
    /// The one room that a filter by identifier or by key found.
    Single(&'a V),
    /// All rooms of the app, where no filter was given.
    Multiple(Vec<&'a V>),
}

/// Answers a service account's query for the rooms of `app`, filtered by identifier or by key, or
/// not at all: a filtered query gives the one room it finds (a room found by identifier must
/// belong to `app`) or a 404, an unfiltered one all rooms of `app` that are present.
pub fn find_rooms<'a, V>(
    rooms: &'a RoomMaps<V>,
    app: &AppNameAndOrgSlug,
    by_id: Option<RoomId>,
    by_key: Option<RoomKey>,
) -> (answer: Result<RoomQueryAnswer<'a, V>, ErrorResponse>)
    requires
        rooms.wf(),
    ensures
        by_id is Some && by_key is Some ==> (answer matches Err(e) && e.is(
            ErrorStatus::BadRequest,
            "Cannot filter by both ID and key simultaneously."@,
        )),
        by_key is None ==> (by_id matches Some(id) ==> match spec_get_for_app(rooms@, id, app@) {
            Some(room) => answer matches Ok(RoomQueryAnswer::Single(r)) && *r == room,
            None => answer matches Err(e) && e.is(
                ErrorStatus::NotFound,
                "No room found with the specified ID."@,
            ),
        }),
        by_id is None ==> (by_key matches Some(key) ==> match spec_get_by_key(
            rooms@,
            app@,
            key@,
        ) {
            Some(room) => answer matches Ok(RoomQueryAnswer::Single(r)) && *r == room,
            None => answer matches Err(e) && e.is(
                ErrorStatus::NotFound,
                "No room found with the specified key."@,
            ),
        }),
        by_id is None && by_key is None ==> (answer matches Ok(RoomQueryAnswer::Multiple(list))
            && exists|ids: Seq<RoomId>|
            {
                &&& ids.no_duplicates()
                &&& ids.to_set() == spec_rooms_for_app(rooms@, app@)
                &&& ids.to_set() == live_rooms_of_app(rooms@, app@)
                &&& ids.len() == list@.len()
                &&& forall|i: int|
                    0 <= i < ids.len() ==> Some(*list@[i]) == spec_get(rooms@, #[trigger] ids[i])
            }),
{
    if let Err(e) = check_room_list_filters(by_id.is_some(), by_key.is_some()) {
        return Err(e);
    }
    if let Some(id) = by_id {
        return match rooms.get_for_app(id, app) {
            Some(room) => Ok(RoomQueryAnswer::Single(room)),
            None => Err(ErrorResponse::not_found(Some("No room found with the specified ID."))),
        };
    }
    if let Some(key) = by_key {
        return match rooms.get_by_key(app, key) {
            Some(room) => Ok(RoomQueryAnswer::Single(room)),
            None => Err(ErrorResponse::not_found(Some("No room found with the specified key."))),
        };
    }
    Ok(RoomQueryAnswer::Multiple(rooms.get_rooms_for_app(app)))
}

/// Why a service account's request to create a room is refused, if it is: a key that is
/// "default" or a UUID, a key longer than 128 bytes, a key that the app already uses, or an app
/// whose rooms are not created through the API.
pub open spec fn service_create_room_error(
    key: Option<Seq<char>>,
    key_is_uuid: bool,
    key_taken: bool,
    strategy: RoomCreationStrategy,
) -> Option<(ErrorStatus, Seq<char>)> {
    if key is Some && (key->0 == "default"@ || key_is_uuid) {
        Some((ErrorStatus::BadRequest, "Key cannot be 'default' or a valid UUID."@))
    } else if key is Some && utf8_len(key->0) > 128 {
        Some((ErrorStatus::BadRequest, "Key cannot be longer than 128 characters."@))
    } else if key is Some && key_taken {
        Some((ErrorStatus::Conflict, "Room key already exists."@))
    } else if strategy != RoomCreationStrategy::AuthenticatedApiRequest {
        Some((ErrorStatus::Forbidden, "Authenticated API request is not supported for this app."@))
    } else {
        None
    }
}

/// A service account can create a room only for an app whose rooms are created through the API:
/// for any other strategy the request is refused whatever the key, with a 403 wherever the key
/// itself is acceptable (absent, or neither "default" nor a UUID, at most 128 bytes and not taken).
/// For an API app it is accepted exactly when the key is acceptable.
pub proof fn lemma_service_rooms_need_api_strategy(
    key: Option<Seq<char>>,
    key_is_uuid: bool,
    key_taken: bool,
    strategy: RoomCreationStrategy,
)
    ensures
        strategy != RoomCreationStrategy::AuthenticatedApiRequest ==> service_create_room_error(
            key,
            key_is_uuid,
            key_taken,
            strategy,
        ) is Some,
        ({
            let key_ok = match key {
                None => true,
                Some(k) => k != "default"@ && !key_is_uuid && utf8_len(k) <= 128 && !key_taken,
            };
            &&& (strategy != RoomCreationStrategy::AuthenticatedApiRequest && key_ok)
                ==> service_create_room_error(key, key_is_uuid, key_taken, strategy) == Some(
                (
                    ErrorStatus::Forbidden,
                    "Authenticated API request is not supported for this app."@,
                ),
            )
            &&& (service_create_room_error(key, key_is_uuid, key_taken, strategy) is None <==> (
            strategy == RoomCreationStrategy::AuthenticatedApiRequest && key_ok))
        }),
{
}

/// Checks a service account's request to create a room with the optional `key` for the app `app`
/// whose rooms are created with `strategy`: the key must be neither "default" nor a UUID, at most
/// 128 bytes long, and not a key of a room of the app in `rooms`.
pub fn check_service_create_room<V>(
    rooms: &RoomMaps<V>,
    app: &AppNameAndOrgSlug,
    key: Option<&str>,
    strategy: RoomCreationStrategy,
) -> (result: Result<(), ErrorResponse>)
    requires
        rooms.wf(),
    ensures
        match service_create_room_error(
            match key {
                Some(k) => Some(k@),
                None => None,
            },
            key matches Some(k) && parses_as_uuid(k@),
            key matches Some(k) && rooms@.keys.contains_key((app@, Some(k@))),
            strategy,
        ) {
            None => result is Ok,
            Some((status, text)) => result matches Err(e) && e.is(status, text),
        },
{
    proof {
        rooms.lemma_wf_consistent();
    }
    if let Some(k) = key {
        if str_eq(k, "default") || is_uuid(k) {
            return Err(ErrorResponse::bad_request(Some("Key cannot be 'default' or a valid UUID.")));
        }
        if byte_len(k) > 128 {
            return Err(ErrorResponse::bad_request(Some("Key cannot be longer than 128 characters.")));
        }
        let taken = rooms.get_by_key(app, RoomKey::Custom(to_owned_string(k))).is_some();
        if taken {
            return Err(ErrorResponse::conflict(Some("Room key already exists.")));
        }
    }
    if strategy != RoomCreationStrategy::AuthenticatedApiRequest {
        return Err(
            ErrorResponse::forbidden(Some("Authenticated API request is not supported for this app.")),
        );
    }
    Ok(())
}

/// The answer to a failed insert of a new app: a 409 "App name already exists." where the database
/// refused a duplicate, a 500 otherwise.
pub fn app_insert_error<E: DbErrorExt>(error: &E) -> (response: ErrorResponse)
    ensures
        error.spec_unique_violation() ==> response.is(
            ErrorStatus::Conflict,
            "App name already exists."@,
        ),
        !error.spec_unique_violation() ==> response.is(
            ErrorStatus::InternalServerError,
            "Internal Server Error"@,
        ),
{
    if error.is_unique_violation() {
        ErrorResponse::conflict(Some("App name already exists."))
    } else {
        ErrorResponse::internal_server_error(None)
    }
}

/// The configuration an app has after an update: the requested one, or the one it had where the
/// update gives none. Nothing else of an app changes in an update.
pub fn updated_config(current: Option<String>, requested: Option<String>) -> (config: Option<
    String,
>)
    ensures
        config == if requested is Some {
            requested
        } else {
            current
        },
{
    match requested {
        Some(c) => Some(c),
        None => current,
    }
}

} // verus!
