use maf_core::maf_schemas::apps::{
    AppNameAndOrgSlug, ConnectQueryParams, RoomCreationStrategy, RoomKey,
};
use maf_core::maf_schemas::error::ErrorStatus;
use maf_core::maf_schemas::project_config::{AuthMode, ProjectConfigFile};
use maf_core::server::app::App;
use maf_core::server::bundle::Bundle;
use maf_core::server::connection::{
    decide_connect, decode_auth_token, get_auth_data, pre_create_room_auth_check, ConnectDecision,
    MAX_TOKEN_LENGTH,
};
use maf_core::server::room::{
    on_concurrent_creation, room_keys, ConcurrentCreation, CreateRoomOptions, CreationClaim,
    PendingCreations,
};
use maf_core::server::room_storage::RoomMaps;
use maf_core::server::service::{check_create_room_request, ServiceCreateRoomOptions};
use maf_core::server::token::{audience_admits_room, decode_room_token, TokenError};
use maf_core::server::types::{AppOrgPath, AppRoomPath};
use maf_core::server::ws::{
    handshake_outcome, handshake_reply, next_action, open_connection, ConnectionCommand, HandshakeError, HandshakeEvent, WsAction,
    WsEvent, WsFrame, WsMessage,
};

fn app_id(app: &str, org: &str) -> AppNameAndOrgSlug {
    AppNameAndOrgSlug { app: app.to_string(), org: org.to_string() }
}

fn app_with(rooms: RoomCreationStrategy) -> App {
    let mut config = ProjectConfigFile::default_for("chat");
    config.rooms = rooms;
    App::from_serialized("chat", "acme", Some(config))
}

#[test]
fn apps_without_config_get_the_default_one() {
    let app = App::from_serialized("chat", "acme", None);
    assert_eq!(app.name(), "chat");
    assert_eq!(app.org(), "acme");
    assert_eq!(app.config().name, "chat");
    assert_eq!(app.config().rooms, RoomCreationStrategy::AuthenticatedApiRequest);
    assert!(app.app_name_and_org_slug().eq_app_org("chat", "acme"));
    let hash = app.room_key_hash(RoomKey::Default);
    assert!(hash.app.eq_app_org("chat", "acme"));
    assert_eq!(hash.key, RoomKey::Default);
}

#[test]
fn apps_parse_room_keys_by_strategy() {
    let auto = app_with(RoomCreationStrategy::AutoCreate);
    assert_eq!(auto.parse_room_key("lobby").unwrap(), RoomKey::Default);

    let api = app_with(RoomCreationStrategy::AuthenticatedApiRequest);
    assert_eq!(api.parse_room_key("lobby").unwrap(), RoomKey::Custom("lobby".to_string()));
    let error = api.parse_room_key("default").unwrap_err();
    assert_eq!(error.status_code(), ErrorStatus::BadRequest);
    assert_eq!(error.message(), "invalid room key for the app's room creation strategy");
}

#[test]
fn bundles_keep_config_and_module() {
    let bundle = Bundle::from_wasm_bytes(ProjectConfigFile::default_for("x"), vec![0, 97, 115, 109])
        .unwrap();
    assert_eq!(bundle.wasm_module_bytes(), &[0, 97, 115, 109]);
    assert_eq!(bundle.config().name, "x");
}

#[test]
fn paths_name_their_app() {
    let path = AppRoomPath {
        app_id: AppOrgPath { org_slug: "acme".to_string(), app_name: "chat".to_string() },
        room_key: "lobby".to_string(),
    };
    assert!(path.app_org().eq_app_org("chat", "acme"));
    assert!(path.app_id.app_org().eq_app_org("chat", "acme"));
}

#[test]
fn connection_auth_checks() {
    let no_token = ConnectQueryParams { token: None };
    assert!(pre_create_room_auth_check(&no_token, None).is_ok());
    let error = pre_create_room_auth_check(&no_token, Some(&AuthMode::Jwt)).unwrap_err();
    assert_eq!(error.status_code().code(), 401);
    assert_eq!(error.message(), "This room requires a JWT token for authentication.");

    let token = ConnectQueryParams { token: Some("t".repeat(MAX_TOKEN_LENGTH)) };
    assert!(pre_create_room_auth_check(&token, Some(&AuthMode::Jwt)).is_ok());

    let long = ConnectQueryParams { token: Some("t".repeat(MAX_TOKEN_LENGTH + 1)) };
    let error = pre_create_room_auth_check(&long, None).unwrap_err();
    assert_eq!(error.status_code().code(), 400);
    assert_eq!(error.message(), "Token length exceeds maximum allowed size.");
}

#[test]
fn service_room_requests_are_validated() {
    let api = RoomCreationStrategy::AuthenticatedApiRequest;
    assert!(check_create_room_request(api, None, false).is_ok());
    assert!(check_create_room_request(api, Some("lobby"), false).is_ok());
    let cases = [
        (RoomCreationStrategy::AutoCreate, Some("lobby"), false,
            "Autocreated rooms cannot be created through the service API."),
        (api, Some("default"), false, "Room key cannot be 'default'."),
        (api, Some(""), false, "Room key cannot be empty."),
        (api, Some("x"), true, "Room key cannot be a valid UUID."),
    ];
    for (strategy, key, is_uuid, message) in cases {
        let error = check_create_room_request(strategy, key, is_uuid).unwrap_err();
        assert_eq!(error.status_code(), ErrorStatus::BadRequest);
        assert_eq!(error.message(), message);
    }
    let long = "k".repeat(129);
    assert_eq!(
        check_create_room_request(api, Some(&long), false).unwrap_err().message(),
        "Room key cannot be longer than MAX_ROOM_KEY_LENGTH characters."
    );
}

#[test]
fn service_options_reject_uuid_keys() {
    let app = app_with(RoomCreationStrategy::AuthenticatedApiRequest);
    let uuid_key = ServiceCreateRoomOptions {
        key: Some("67e55044-10b1-426f-9247-bb680e5fe0c8".to_string()),
        meta: None,
    };
    assert_eq!(uuid_key.validate(&app).unwrap_err().message(), "Room key cannot be a valid UUID.");
    let plain_key = ServiceCreateRoomOptions { key: Some("lobby".to_string()), meta: None };
    assert!(plain_key.validate(&app).is_ok());
    let no_key = ServiceCreateRoomOptions { key: None, meta: None };
    assert!(no_key.validate(&app).is_ok());

    let auto = app_with(RoomCreationStrategy::AutoCreate);
    assert_eq!(
        no_key.validate(&auto).unwrap_err().message(),
        "Autocreated rooms cannot be created through the service API."
    );
}

#[test]
fn room_creation_keys() {
    let app = app_with(RoomCreationStrategy::AuthenticatedApiRequest);
    let options = CreateRoomOptions {
        app: &app,
        creation_strategy: RoomCreationStrategy::AuthenticatedApiRequest,
        room_key: Some("lobby".to_string()),
        meta: None,
    };
    let pending = options.pending_key().unwrap();
    assert!(pending.app_id.eq_app_org("chat", "acme"));
    assert_eq!(pending.key, RoomKey::Custom("lobby".to_string()));
    assert_eq!(options.extra_keys(), vec![RoomKey::Custom("lobby".to_string())]);

    let keyless = CreateRoomOptions {
        app: &app,
        creation_strategy: RoomCreationStrategy::AuthenticatedApiRequest,
        room_key: None,
        meta: None,
    };
    assert!(keyless.pending_key().is_none());
    assert!(keyless.extra_keys().is_empty());

    let auto = CreateRoomOptions {
        app: &app,
        creation_strategy: RoomCreationStrategy::AutoCreate,
        room_key: Some("ignored".to_string()),
        meta: None,
    };
    assert_eq!(auto.pending_key().unwrap().key, RoomKey::Default);
    assert_eq!(auto.extra_keys(), vec![RoomKey::Default]);

    assert_eq!(
        on_concurrent_creation(RoomCreationStrategy::AutoCreate),
        ConcurrentCreation::WaitForRoom
    );
    assert_eq!(
        on_concurrent_creation(RoomCreationStrategy::AuthenticatedApiRequest),
        ConcurrentCreation::Reject
    );
}

#[test]
fn a_room_is_registered_under_its_uuid_first() {
    let id: u128 = 0x67e5_5044_10b1_426f_9247_bb68_0e5f_e0c8;
    let keys = room_keys(id, vec![RoomKey::Default]);
    assert_eq!(
        keys,
        vec![
            RoomKey::Custom("67e55044-10b1-426f-9247-bb680e5fe0c8".to_string()),
            RoomKey::Default
        ]
    );
}

#[test]
fn room_maps_find_rooms_every_way() {
    let mut maps: RoomMaps<String> = RoomMaps::new();
    let chat = app_id("chat", "acme");
    maps.insert_room(
        1,
        chat.clone(),
        vec![RoomKey::Custom("one".to_string()), RoomKey::Default],
        RoomCreationStrategy::AutoCreate,
        "first".to_string(),
    );
    maps.insert_room(
        2,
        chat.clone(),
        vec![RoomKey::Custom("two".to_string())],
        RoomCreationStrategy::AuthenticatedApiRequest,
        "second".to_string(),
    );
    assert_eq!(maps.get(1), Some(&"first".to_string()));
    assert_eq!(maps.get(3), None);
    assert_eq!(maps.get_by_key(&chat, RoomKey::Custom("two".to_string())), Some(&"second".to_string()));
    assert_eq!(maps.get_by_key(&chat, RoomKey::Default), Some(&"first".to_string()));
    assert_eq!(maps.get_by_key(&app_id("chat", "other"), RoomKey::Default), None);
    assert_eq!(maps.get_autocreated_room(&chat), Some(&"first".to_string()));
    let mut rooms: Vec<String> = maps.get_rooms_for_app(&chat).into_iter().cloned().collect();
    rooms.sort();
    assert_eq!(rooms, vec!["first".to_string(), "second".to_string()]);
}

#[test]
fn removing_a_room_clears_its_lookups() {
    let mut maps: RoomMaps<u32> = RoomMaps::new();
    let chat = app_id("chat", "acme");
    maps.insert_room(7, chat.clone(), vec![RoomKey::Default], RoomCreationStrategy::AutoCreate, 70);
    maps.insert_room(
        8,
        chat.clone(),
        vec![RoomKey::Custom("k".to_string())],
        RoomCreationStrategy::AuthenticatedApiRequest,
        80,
    );
    assert_eq!(maps.remove(7), Some(70));
    assert_eq!(maps.remove(7), None);
    assert_eq!(maps.get(7), None);
    assert_eq!(maps.get_by_key(&chat, RoomKey::Default), None);
    assert_eq!(maps.get_autocreated_room(&chat), None);
    assert_eq!(maps.get_rooms_for_app(&chat), vec![&80]);
    assert_eq!(maps.get_by_key(&chat, RoomKey::Custom("k".to_string())), Some(&80));
}

#[test]
fn rooms_looked_up_for_their_app() {
    let mut maps: RoomMaps<u32> = RoomMaps::new();
    let chat = app_id("chat", "acme");
    let other = app_id("other", "acme");
    maps.insert_room(1, chat.clone(), vec![RoomKey::Default], RoomCreationStrategy::AutoCreate, 10);
    maps.insert_room(2, chat.clone(), vec![], RoomCreationStrategy::AuthenticatedApiRequest, 20);
    maps.insert_room(3, other.clone(), vec![], RoomCreationStrategy::AuthenticatedApiRequest, 30);
    assert_eq!(maps.get_for_app(1, &chat), Some(&10));
    assert_eq!(maps.get_for_app(3, &chat), None);
    assert_eq!(maps.get_for_app(3, &other), Some(&30));
    assert_eq!(maps.get_for_app(9, &other), None);
    assert_eq!(maps.get_api_created_rooms(&chat), vec![&20]);
    assert_eq!(maps.get_api_created_rooms(&app_id("none", "acme")), Vec::<&u32>::new());
    assert_eq!(maps.remove(2), Some(20));
    assert_eq!(maps.get_api_created_rooms(&chat), Vec::<&u32>::new());
}

fn signed_token(audience: Option<biscuit::SingleOrMultiple<String>>, secret: &str) -> String {
    let claims = biscuit::ClaimsSet::<serde_json::Value> {
        registered: biscuit::RegisteredClaims { audience, ..Default::default() },
        private: serde_json::Value::Object(serde_json::Map::new()),
    };
    let header = biscuit::jws::RegisteredHeader {
        algorithm: biscuit::jwa::SignatureAlgorithm::HS256,
        ..Default::default()
    };
    let jwt: biscuit::JWT<serde_json::Value, biscuit::Empty> =
        biscuit::JWT::new_decoded(From::from(header), claims);
    let secret = biscuit::jws::Secret::Bytes(secret.as_bytes().to_vec());
    jwt.into_encoded(&secret).unwrap().unwrap_encoded().to_string()
}

#[test]
fn room_tokens_must_be_signed_for_the_room() {
    let id: u128 = 0x67e5_5044_10b1_426f_9247_bb68_0e5f_e0c8;
    let room = "67e55044-10b1-426f-9247-bb680e5fe0c8".to_string();
    let secret = "room-secret";

    let single = signed_token(Some(biscuit::SingleOrMultiple::Single(room.clone())), secret);
    let claims = decode_room_token(id, secret, &single).unwrap();
    assert_eq!(claims["aud"], serde_json::Value::from(room.clone()));

    let listed = signed_token(
        Some(biscuit::SingleOrMultiple::Multiple(vec!["other".to_string(), room.clone()])),
        secret,
    );
    assert!(decode_room_token(id, secret, &listed).is_ok());

    let elsewhere = signed_token(Some(biscuit::SingleOrMultiple::Single("other".to_string())), secret);
    assert!(matches!(decode_room_token(id, secret, &elsewhere), Err(TokenError::WrongAudience)));
    let nowhere = signed_token(None, secret);
    assert!(matches!(decode_room_token(id, secret, &nowhere), Err(TokenError::WrongAudience)));

    assert!(matches!(decode_room_token(id, "wrong", &single), Err(TokenError::Undecodable)));
    assert!(matches!(decode_room_token(id, secret, "not.a.token"), Err(TokenError::Undecodable)));
    assert!(matches!(decode_room_token(id, secret, ""), Err(TokenError::Undecodable)));
}

#[test]
fn audiences_admit_listed_rooms() {
    assert!(!audience_admits_room(&None, "r"));
    assert!(!audience_admits_room(&Some(vec![]), "r"));
    assert!(audience_admits_room(&Some(vec!["a".to_string(), "r".to_string()]), "r"));
    assert!(!audience_admits_room(&Some(vec!["a".to_string()]), "r"));
}

#[test]
fn websocket_handshakes() {
    assert_eq!(
        handshake_outcome(&HandshakeEvent::Received(WsFrame::Text("{}".to_string()))),
        Ok(())
    );
    assert_eq!(
        handshake_outcome(&HandshakeEvent::Received(WsFrame::Binary(vec![1]))),
        Err(HandshakeError::InvalidType)
    );
    assert_eq!(
        handshake_outcome(&HandshakeEvent::Received(WsFrame::Close)),
        Err(HandshakeError::InvalidType)
    );
    assert_eq!(handshake_outcome(&HandshakeEvent::ReceiveFailed), Err(HandshakeError::ReceiveFailed));
    assert_eq!(handshake_outcome(&HandshakeEvent::Closed), Err(HandshakeError::Closed));
    assert_eq!(handshake_outcome(&HandshakeEvent::TimedOut), Err(HandshakeError::TimedOut));
}

#[test]
fn websocket_events_and_actions() {
    let text = || "hello".to_string();
    assert_eq!(
        next_action(WsEvent::Received(WsFrame::Text(text()))),
        WsAction::Forward(WsMessage::Text(text()))
    );
    assert_eq!(
        next_action(WsEvent::Received(WsFrame::Binary(vec![1, 2]))),
        WsAction::Forward(WsMessage::Binary(vec![1, 2]))
    );
    assert_eq!(next_action(WsEvent::Received(WsFrame::Ping(vec![9]))), WsAction::QueuePong(vec![9]));
    assert_eq!(next_action(WsEvent::Received(WsFrame::Pong(vec![9]))), WsAction::InvalidMessage);
    assert_eq!(next_action(WsEvent::Received(WsFrame::Close)), WsAction::Continue);
    assert_eq!(next_action(WsEvent::ReceiveFailed), WsAction::Continue);
    assert_eq!(next_action(WsEvent::ReceiverEnded), WsAction::Stop);
    assert_eq!(next_action(WsEvent::Command(ConnectionCommand::Close)), WsAction::Stop);
    assert_eq!(
        next_action(WsEvent::Command(ConnectionCommand::Send(WsMessage::Text(text())))),
        WsAction::Transmit(WsMessage::Text(text()))
    );
    assert_eq!(
        next_action(WsEvent::Command(ConnectionCommand::SendPong(vec![3]))),
        WsAction::TransmitPong(vec![3])
    );
    assert_eq!(next_action(WsEvent::CommandsEnded), WsAction::Stop);
}

#[test]
fn one_creation_of_a_room_at_a_time() {
    let chat = app_id("chat", "acme");
    let auto_key = chat.with_room_key(RoomKey::Default);
    let api_key = chat.with_room_key(RoomKey::Custom("lobby".to_string()));
    let mut pending = PendingCreations::new();

    assert_eq!(pending.claim(&auto_key, RoomCreationStrategy::AutoCreate), CreationClaim::Proceed);
    assert_eq!(
        pending.claim(&auto_key, RoomCreationStrategy::AutoCreate),
        CreationClaim::WaitForRoom
    );
    assert_eq!(
        pending.claim(&api_key, RoomCreationStrategy::AuthenticatedApiRequest),
        CreationClaim::Proceed
    );
    assert_eq!(
        pending.claim(&api_key, RoomCreationStrategy::AuthenticatedApiRequest),
        CreationClaim::Reject
    );

    pending.release(&auto_key);
    assert_eq!(pending.claim(&auto_key, RoomCreationStrategy::AutoCreate), CreationClaim::Proceed);
    pending.release(&api_key);
    pending.release(&api_key);
    assert_eq!(
        pending.claim(&api_key, RoomCreationStrategy::AuthenticatedApiRequest),
        CreationClaim::Proceed
    );
}

#[test]
fn auth_data_without_jwt_is_base64_json() {
    let no_token = ConnectQueryParams { token: None };
    assert_eq!(get_auth_data(&no_token, None, 1, "s").unwrap(), None);
    assert_eq!(get_auth_data(&no_token, Some(&AuthMode::Jwt), 1, "s").unwrap(), None);

    // {"user":"ada"}
    let token = ConnectQueryParams { token: Some("eyJ1c2VyIjoiYWRhIn0=".to_string()) };
    let data = get_auth_data(&token, None, 1, "s").unwrap().unwrap();
    assert_eq!(data["user"], serde_json::Value::from("ada"));

    let not_base64 = ConnectQueryParams { token: Some("!!!".to_string()) };
    let error = get_auth_data(&not_base64, None, 1, "s").unwrap_err();
    assert_eq!(error.status_code(), ErrorStatus::BadRequest);
    assert!(error.message().starts_with("failed to decode token: "));

    // "not json" in Base64.
    let not_json = ConnectQueryParams { token: Some("bm90IGpzb24=".to_string()) };
    let error = get_auth_data(&not_json, None, 1, "s").unwrap_err();
    assert_eq!(error.status_code(), ErrorStatus::BadRequest);
    assert!(error.message().starts_with("failed to parse token: "));

    assert_eq!(decode_auth_token("YWJj").unwrap(), b"abc".to_vec());
    assert!(decode_auth_token("a").is_err());
}

#[test]
fn auth_data_in_jwt_mode_is_the_room_token() {
    let id: u128 = 0x67e5_5044_10b1_426f_9247_bb68_0e5f_e0c8;
    let room = "67e55044-10b1-426f-9247-bb680e5fe0c8".to_string();
    let token = signed_token(Some(biscuit::SingleOrMultiple::Single(room.clone())), "secret");
    let params = ConnectQueryParams { token: Some(token) };
    let data = get_auth_data(&params, Some(&AuthMode::Jwt), id, "secret").unwrap().unwrap();
    assert_eq!(data["aud"], serde_json::Value::from(room));

    let error = get_auth_data(&params, Some(&AuthMode::Jwt), id, "other").unwrap_err();
    assert_eq!(error.status_code().code(), 401);
    assert_eq!(error.message(), "invalid token: failed to decode JWT");
    let error = get_auth_data(&params, Some(&AuthMode::Jwt), id + 1, "secret").unwrap_err();
    assert_eq!(error.message(), "invalid token: invalid audience in JWT");
}

#[test]
fn connection_decisions() {
    assert_eq!(decide_connect(RoomCreationStrategy::AutoCreate, true).unwrap(), ConnectDecision::Join);
    assert_eq!(
        decide_connect(RoomCreationStrategy::AuthenticatedApiRequest, true).unwrap(),
        ConnectDecision::Join
    );
    assert_eq!(
        decide_connect(RoomCreationStrategy::AutoCreate, false).unwrap(),
        ConnectDecision::Create
    );
    let error = decide_connect(RoomCreationStrategy::AuthenticatedApiRequest, false).unwrap_err();
    assert_eq!(error.status_code(), ErrorStatus::NotFound);
    assert_eq!(error.message(), "Room with requested key not found.");
}

#[test]
fn handshake_replies_carry_the_connection_id() {
    let id: u128 = 0x67e5_5044_10b1_426f_9247_bb68_0e5f_e0c8;
    let expected = "{\"type\":\"Handshake\",\"data\":{\"id\":\"67e55044-10b1-426f-9247-bb680e5fe0c8\"}}";
    assert_eq!(handshake_reply(id), expected);
    let auth = Some(serde_json::Value::from(7));
    let (reply, info) =
        open_connection(&HandshakeEvent::Received(WsFrame::Text("hi".to_string())), id, auth.clone())
            .unwrap();
    assert_eq!(reply, expected);
    assert_eq!(info.id, id);
    assert_eq!(info.auth_data, auth);
    assert!(matches!(
        open_connection(&HandshakeEvent::TimedOut, id, None),
        Err(HandshakeError::TimedOut)
    ));
}
