//! The decisions of the platform host's gateway, which connects clients to the rooms of apps.

use vstd::prelude::*;
use vstd::string::StringExecFns;
use crate::host::state::Environment;
use crate::maf_schemas::apps::RoomCreationStrategy;
use crate::maf_schemas::error::{ErrorResponse, ErrorStatus};
use crate::text::{str_eq, to_owned_string};

verus! {

/// The room creation strategy of an app without a configuration: rooms are auto-created in
/// development, and created through the API in production.
pub fn default_rooms_for(environment: Environment) -> (strategy: RoomCreationStrategy)
    ensures
        strategy == if environment == Environment::Development {
            RoomCreationStrategy::AutoCreate
        } else {
            RoomCreationStrategy::AuthenticatedApiRequest
        },
{
    match environment {
        Environment::Development => RoomCreationStrategy::AutoCreate,
        Environment::Production => RoomCreationStrategy::AuthenticatedApiRequest,
    }
}

/// What a gateway connection request does.
#[derive(Debug, Clone, Copy, PartialEq, Eq, Structural)]
pub enum GatewayConnect {
    /// Connect to the room found by the requested key or identifier.
    Join,
    /// Connect to the app's auto-created room, creating it if needed.
    AutoCreated,
}

/// Decides a gateway connection request for the room `room_key` of an app whose rooms are created
/// with `strategy`, where a room with that key or identifier was `found` or not: API-created rooms
/// must exist (a 404 names the key); auto-created apps have only the room "default" (any other key
/// is a 400).
pub fn decide_gateway_connect(strategy: RoomCreationStrategy, room_key: &str, found: bool) -> (decision:
    Result<GatewayConnect, ErrorResponse>)
    ensures
        strategy == RoomCreationStrategy::AuthenticatedApiRequest ==> if found {
            decision == Ok::<GatewayConnect, ErrorResponse>(GatewayConnect::Join)
        } else {
            decision matches Err(e) && e.is(
                ErrorStatus::NotFound,
                "Room with key or ID `"@ + room_key@ + "` not found"@,
            )
        },
        strategy == RoomCreationStrategy::AutoCreate ==> if room_key@ == "default"@ {
            decision == Ok::<GatewayConnect, ErrorResponse>(GatewayConnect::AutoCreated)
        } else {
            decision matches Err(e) && e.is(
                ErrorStatus::BadRequest,
                "Only `default` room is supported for autocreated rooms."@,
            )
        },
{
    match strategy {
        RoomCreationStrategy::AuthenticatedApiRequest => {
            if found {
                Ok(GatewayConnect::Join)
            } else {
                let mut message = to_owned_string("Room with key or ID `");
                message.append(room_key);
                message.append("` not found");
                Err(ErrorResponse::not_found(Some(message.as_str())))
            }
        },
        RoomCreationStrategy::AutoCreate => {
            if str_eq(room_key, "default") {
                Ok(GatewayConnect::AutoCreated)
            } else {
                Err(
                    ErrorResponse::bad_request(
                        Some("Only `default` room is supported for autocreated rooms."),
                    ),
                )
            }
        },
    }
}

} // verus!
