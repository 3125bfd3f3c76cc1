//! Checks made on a client's connection request before a room is created or joined.

use vstd::prelude::*;
use crate::maf_schemas::apps::ConnectQueryParams;
use crate::maf_schemas::error::{ErrorResponse, ErrorStatus};
use crate::maf_schemas::project_config::AuthMode;
use crate::host::state::{base64_decode, base64_decoded};
use crate::maf_schemas::apps::{RoomCreationStrategy, RoomId};
use crate::server::token::{decode_room_token, room_token_outcome};
use crate::text::{byte_len, to_owned_string, utf8_len};
use vstd::string::StringExecFns;

verus! {

/// The longest token a connection request may carry, in bytes.
pub const MAX_TOKEN_LENGTH: usize = 8192;

/// What the pre-connection check answers: an error for a room that requires a JWT when no token
/// is given, or for a token longer than [`MAX_TOKEN_LENGTH`] bytes; nothing otherwise.
pub open spec fn auth_check_error(token: Option<Seq<char>>, auth_mode: Option<AuthMode>) -> Option<
    (ErrorStatus, Seq<char>),
> {
    if auth_mode == Some(AuthMode::Jwt) && token is None {
        Some((ErrorStatus::Unauthorized, "This room requires a JWT token for authentication."@))
    } else if token matches Some(t) && utf8_len(t) > MAX_TOKEN_LENGTH {
        Some((ErrorStatus::BadRequest, "Token length exceeds maximum allowed size."@))
    } else {
        None
    }
}

/// No token longer than [`MAX_TOKEN_LENGTH`] bytes gets through, whatever the room's auth mode:
/// it is refused as a bad request. A request passes the check exactly when its token, if any, is
/// short enough and a room that requires a JWT is given one.
pub proof fn lemma_long_tokens_are_refused(token: Option<Seq<char>>, auth_mode: Option<AuthMode>)
    ensures
        token matches Some(t) && utf8_len(t) > 8192 ==> auth_check_error(token, auth_mode) == Some(
            (ErrorStatus::BadRequest, "Token length exceeds maximum allowed size."@),
        ),
        auth_check_error(token, auth_mode) is None <==> ((token matches Some(t) ==> utf8_len(t)
            <= 8192) && (auth_mode == Some(AuthMode::Jwt) ==> token is Some)),
{
}

/// The view of an optional token.
pub open spec fn token_view(token: Option<String>) -> Option<Seq<char>> {
    match token {
        Some(t) => Some(t@),
        None => None,
    }
}

/// Checks that a connection request may go on to connect to (or create) a room: see
/// [`auth_check_error`].
pub fn pre_create_room_auth_check(
    query_params: &ConnectQueryParams,
    auth_mode: Option<&AuthMode>,
) -> (result: Result<(), ErrorResponse>)
    ensures
        match auth_check_error(
            token_view(query_params.token),
            match auth_mode {
                Some(m) => Some(*m),
                None => None,
            },
        ) {
            None => result is Ok,
            Some((status, text)) => result matches Err(e) && e.is(status, text),
        },
{
    let jwt_required = match auth_mode {
        Some(AuthMode::Jwt) => true,
        None => false,
    };
    if jwt_required && query_params.token.is_none() {
        return Err(
            ErrorResponse::unauthorized(Some("This room requires a JWT token for authentication.")),
        );
    }
    let too_long = match &query_params.token {
        Some(t) => byte_len(t.as_str()) > MAX_TOKEN_LENGTH,
        None => false,
    };
    if too_long {
        return Err(ErrorResponse::bad_request(Some("Token length exceeds maximum allowed size.")));
    }
    Ok(())
}

/// The JSON value that `serde_json` parses from `bytes`, or `None` where they are not JSON.
pub uninterp spec fn json_parsed(bytes: Seq<u8>) -> Option<serde_json::Value>;

/// `serde_json::from_slice` into a JSON value, with a parse error written as its display text;
/// whether it parses, and the value, are named by [`json_parsed`] and depend on the bytes alone.
/// The error text is not stated.
#[verifier::external_body]
fn json_from_bytes(bytes: &[u8]) -> (value: Result<serde_json::Value, String>)
    ensures
        match value {
            Ok(v) => json_parsed(bytes@) == Some(v),
            Err(_) => json_parsed(bytes@) is None,
        },
{
    match serde_json::from_slice::<serde_json::Value>(bytes) {
        Ok(value) => Ok(value),
        Err(error) => Err(error.to_string()),
    }
}

/// `prefix` followed by `detail`, as a bad-request response.
fn bad_request_with(prefix: &str, detail: &str) -> (response: ErrorResponse)
    ensures
        response.is(ErrorStatus::BadRequest, prefix@ + detail@),
{
    let mut message = to_owned_string(prefix);
    message.append(detail);
    ErrorResponse::bad_request(Some(message.as_str()))
}

/// Decodes an authentication token that is not a JWT from standard Base64 (with padding); a token
/// that is not Base64 is a 400 whose message starts with "failed to decode token: ".
pub fn decode_auth_token(token: &str) -> (decoded: Result<Vec<u8>, ErrorResponse>)
    ensures
        match base64_decoded(token@) {
            Some(b) => decoded matches Ok(v) && v@ == b,
            None => decoded matches Err(e) && e.status() == ErrorStatus::BadRequest && exists|
                detail: Seq<char>,
            | e.text() == "failed to decode token: "@ + detail,
        },
{
    match base64_decode(token) {
        Ok(bytes) => Ok(bytes),
        Err(detail) => Err(bad_request_with("failed to decode token: ", detail.as_str())),
    }
}

/// The authentication data of a connection request to the room with identifier `room_id` and
/// secret `secret`: none without a token; in JWT mode, the claims of the token, which must be
/// addressed to the room (a refusal is a 401 "invalid token: " and its reason); otherwise the JSON
/// value the token holds in Base64 (a token that is not Base64, or does not hold JSON, is a 400).
pub fn get_auth_data(
    query_params: &ConnectQueryParams,
    auth_mode: Option<&AuthMode>,
    room_id: RoomId,
    secret: &str,
) -> (data: Result<Option<serde_json::Value>, ErrorResponse>)
    ensures
        match query_params.token {
            None => data == Ok::<Option<serde_json::Value>, ErrorResponse>(None),
            Some(t) => if auth_mode matches Some(AuthMode::Jwt) {
                match room_token_outcome(room_id, secret@, t@) {
                    Ok(v) => data == Ok::<Option<serde_json::Value>, ErrorResponse>(Some(v)),
                    Err(reason) => data matches Err(e) && e.is(
                        ErrorStatus::Unauthorized,
                        "invalid token: "@ + reason,
                    ),
                }
            } else {
                match base64_decoded(t@) {
                    None => data matches Err(e) && e.status() == ErrorStatus::BadRequest && exists|
                        detail: Seq<char>,
                    | e.text() == "failed to decode token: "@ + detail,
                    Some(bytes) => match json_parsed(bytes) {
                        Some(v) => data == Ok::<Option<serde_json::Value>, ErrorResponse>(Some(v)),
                        None => data matches Err(e) && e.status() == ErrorStatus::BadRequest
                            && exists|detail: Seq<char>|
                            e.text() == "failed to parse token: "@ + detail,
                    },
                }
            },
        },
{
    let token = match &query_params.token {
        Some(t) => t,
        None => return Ok(None),
    };
    let jwt = match auth_mode {
        Some(AuthMode::Jwt) => true,
        None => false,
    };
    if jwt {
        return match decode_room_token(room_id, secret, token.as_str()) {
            Ok(claims) => Ok(Some(claims)),
            Err(e) => {
                let mut message = to_owned_string("invalid token: ");
                message.append(e.text());
                Err(ErrorResponse::unauthorized(Some(message.as_str())))
            },
        };
    }
    let bytes = match decode_auth_token(token.as_str()) {
        Ok(b) => b,
        Err(e) => return Err(e),
    };
    match json_from_bytes(bytes.as_slice()) {
        Ok(value) => Ok(Some(value)),
        Err(detail) => Err(bad_request_with("failed to parse token: ", detail.as_str())),
    }
}

/// What a connection request does once its room has been looked up.
#[derive(Debug, Clone, Copy, PartialEq, Eq, Structural)]
pub enum ConnectDecision {
    /// Connect to the room that was found.
    Join,
    /// Create the room (with the auto-create strategy), then connect to it.
    Create,
}

/// Decides a connection request to an app whose rooms are created with `strategy`, where the room
/// with the requested key was `found` or not: a found room is joined, a missing one is created for
/// auto-created apps and is a 404 otherwise.
pub fn decide_connect(strategy: RoomCreationStrategy, found: bool) -> (decision: Result<
    ConnectDecision,
    ErrorResponse,
>)
    ensures
        found ==> decision == Ok::<ConnectDecision, ErrorResponse>(ConnectDecision::Join),
        !found && strategy == RoomCreationStrategy::AutoCreate ==> decision == Ok::<
            ConnectDecision,
            ErrorResponse,
        >(ConnectDecision::Create),
        !found && strategy == RoomCreationStrategy::AuthenticatedApiRequest ==> (decision matches Err(
            e,
        ) && e.is(ErrorStatus::NotFound, "Room with requested key not found."@)),
{
    if found {
        return Ok(ConnectDecision::Join);
    }
    match strategy {
        RoomCreationStrategy::AutoCreate => Ok(ConnectDecision::Create),
        RoomCreationStrategy::AuthenticatedApiRequest => Err(
            ErrorResponse::not_found(Some("Room with requested key not found.")),
        ),
    }
}

} // verus!
