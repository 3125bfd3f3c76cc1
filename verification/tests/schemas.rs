use maf_core::maf_schemas::apps::{
    generate_room_secret, random_alphanumeric_string, AppNameAndOrgSlug, JsonMetaEntry, MetaEntry,
    MetaVisibility, RoomCreationStrategy, RoomKey, MAX_ROOM_KEY_LENGTH, ROOM_SECRET_LENGTH,
};
use maf_core::maf_schemas::error::{ErrorResponse, ErrorStatus};
use maf_core::maf_schemas::packet::Bull;
use maf_core::maf_schemas::project_config::{
    default_room_creation_strategy, AuthConfig, AuthMode, ProjectConfigFile,
};
use maf_core::schemas::apps as legacy_apps;
use maf_core::schemas::project_config as legacy_config;

fn strip_dim(text: &str) -> String {
    text.replace("\u{1b}[2m", "").replace("\u{1b}[0m", "")
}

#[test]
fn room_secrets_are_alphanumeric_of_fixed_length() {
    let secret = generate_room_secret();
    assert_eq!(secret.chars().count(), ROOM_SECRET_LENGTH);
    assert_eq!(ROOM_SECRET_LENGTH, 256);
    assert!(secret.chars().all(|c| c.is_ascii_alphanumeric()));

    let legacy = legacy_apps::generate_room_secret();
    assert_eq!(legacy.chars().count(), 64);
    assert!(legacy.chars().all(|c| c.is_ascii_alphanumeric()));

    assert_eq!(random_alphanumeric_string(0), "");
    assert_eq!(random_alphanumeric_string(17).len(), 17);
}

#[test]
fn strategies_format_their_names() {
    assert_eq!(RoomCreationStrategy::AutoCreate.format(), "Auto Create");
    assert_eq!(
        RoomCreationStrategy::AuthenticatedApiRequest.format(),
        "Authenticated API Request"
    );
    assert_eq!(
        strip_dim(&RoomCreationStrategy::AuthenticatedApiRequest.format_with_description()),
        "Authenticated API Request (A server-side API call is used to create rooms)"
    );
    assert_eq!(
        strip_dim(&RoomCreationStrategy::AutoCreate.format_with_description()),
        "Auto Create (Rooms are automatically created when a user joins; all users are placed in the same room)"
    );
    assert_eq!(legacy_apps::RoomCreationStrategy::AutoCreate.format(), "Auto Create");
    assert_eq!(
        strip_dim(&legacy_apps::RoomCreationStrategy::AuthenticatedApiRequest.format_with_description()),
        "Authenticated API Request (A server-side API call is used to create rooms)"
    );
}

#[test]
fn room_keys_follow_the_strategy() {
    assert_eq!(
        RoomKey::new("anything", RoomCreationStrategy::AutoCreate),
        Some(RoomKey::Default)
    );
    assert_eq!(
        RoomKey::new("lobby", RoomCreationStrategy::AuthenticatedApiRequest),
        Some(RoomKey::Custom("lobby".to_string()))
    );
    assert_eq!(RoomKey::new("default", RoomCreationStrategy::AuthenticatedApiRequest), None);
}

#[test]
fn room_keys_round_trip_through_strings() {
    assert_eq!(RoomKey::Default.serialize_key(), "default");
    assert_eq!(RoomKey::Custom("lobby".to_string()).serialize_key(), "lobby");
    assert_eq!(RoomKey::deserialize_key("default".to_string()), RoomKey::Default);
    assert_eq!(
        RoomKey::deserialize_key("lobby".to_string()),
        RoomKey::Custom("lobby".to_string())
    );
    let key = RoomKey::Custom("room-1".to_string());
    assert_eq!(RoomKey::deserialize_key(key.serialize_key()), key);
    // The custom key "default" reads back as the default key.
    assert_eq!(
        RoomKey::deserialize_key(RoomKey::Custom("default".to_string()).serialize_key()),
        RoomKey::Default
    );
}

#[test]
fn room_keys_compare_and_copy() {
    let a = RoomKey::Custom("x".to_string());
    assert!(a.same_as(&a.duplicate()));
    assert!(!a.same_as(&RoomKey::Default));
    assert!(RoomKey::Default.same_as(&RoomKey::Default));
    assert!(!a.same_as(&RoomKey::Custom("y".to_string())));
}

#[test]
fn app_names_compare_by_app_and_org() {
    let app = AppNameAndOrgSlug { app: "chat".to_string(), org: "acme".to_string() };
    assert!(app.eq_app_org("chat", "acme"));
    assert!(!app.eq_app_org("chat", "other"));
    assert!(app.same_as(&app.duplicate()));
    let keyed = app.with_room_key(RoomKey::Default);
    assert!(keyed.app_id.same_as(&app));
    assert_eq!(keyed.key, RoomKey::Default);
    assert_eq!(MAX_ROOM_KEY_LENGTH, 128);
}

#[test]
fn meta_visibility_access() {
    assert!(MetaVisibility::Private.can_access(MetaVisibility::Private));
    assert!(MetaVisibility::Private.can_access(MetaVisibility::Public));
    assert!(MetaVisibility::Public.can_access(MetaVisibility::Public));
    assert!(!MetaVisibility::Public.can_access(MetaVisibility::Private));
    let entry = MetaEntry { visibility: MetaVisibility::Public, value: "1".to_string() };
    assert_eq!(*entry.visibility(), MetaVisibility::Public);
}

#[test]
fn json_meta_entries_serialize_their_value() {
    let mut object = serde_json::Map::new();
    object.insert("count".to_string(), serde_json::Value::from(3));
    let entry = JsonMetaEntry {
        visibility: MetaVisibility::Private,
        value: serde_json::Value::Object(object),
    };
    let serialized = entry.serialize().unwrap();
    assert_eq!(serialized.visibility, MetaVisibility::Private);
    assert_eq!(serialized.value, "{\"count\":3}");
}

#[test]
fn error_responses_carry_status_and_message() {
    let default = ErrorResponse::not_found(None);
    assert_eq!(default.status_code(), ErrorStatus::NotFound);
    assert_eq!(default.message(), "Not Found");
    assert_eq!(default.status_code().code(), 404);

    let custom = ErrorResponse::bad_request(Some("missing name"));
    assert_eq!(custom.status_code().code(), 400);
    assert_eq!(custom.message(), "missing name");

    let cases = [
        (ErrorResponse::unauthorized(None), 401, "Unauthorized"),
        (ErrorResponse::forbidden(None), 403, "Forbidden"),
        (ErrorResponse::internal_server_error(None), 500, "Internal Server Error"),
        (ErrorResponse::conflict(None), 409, "Conflict"),
        (ErrorResponse::bad_gateway(None), 502, "Bad Gateway"),
        (ErrorResponse::bad_request(None), 400, "Bad Request"),
    ];
    for (response, code, message) in cases {
        assert_eq!(response.status_code().code(), code);
        assert_eq!(response.message(), message);
    }
}

fn config(rooms: RoomCreationStrategy, auth: bool) -> ProjectConfigFile {
    let mut config = ProjectConfigFile::default_for("app");
    config.rooms = rooms;
    if auth {
        config.auth = Some(AuthConfig { mode: AuthMode::Jwt });
    }
    config
}

#[test]
fn project_config_validation() {
    assert_eq!(config(RoomCreationStrategy::AutoCreate, false).validate(), Ok(()));
    assert_eq!(config(RoomCreationStrategy::AuthenticatedApiRequest, true).validate(), Ok(()));
    assert_eq!(
        config(RoomCreationStrategy::AutoCreate, true).validate(),
        Err("'auth' cannot be set when 'rooms' is 'AutoCreate'".to_string())
    );
}

#[test]
fn project_config_defaults() {
    let config = ProjectConfigFile::default_for("demo");
    assert_eq!(config.name, "demo");
    assert_eq!(config.rooms, RoomCreationStrategy::AuthenticatedApiRequest);
    assert!(config.typed.is_none() && config.debug.is_none() && config.release.is_none());
    assert!(config.auth.is_none());
    assert_eq!(config.validate(), Ok(()));
    assert_eq!(default_room_creation_strategy(), RoomCreationStrategy::AuthenticatedApiRequest);
    assert_eq!(
        legacy_config::default_room_creation_strategy(),
        legacy_apps::RoomCreationStrategy::AuthenticatedApiRequest
    );
    assert_eq!(
        AuthMode::Jwt.format_with_description(),
        "Jwt (Your server needs to create and sign a JWT)"
    );
}

#[test]
fn bull_gives_its_value() {
    let owned: Bull<'_, u32> = Bull::Owned(5);
    assert_eq!(*owned.value(), 5);
    let seven = 7u32;
    let borrowed = Bull::Borrowed(&seven);
    assert_eq!(*borrowed.value(), 7);
}
