use maf_core::host::app_cache::{AppCache, APP_CACHE_SIZE};
use maf_core::host::auth::{get_authorization, AuthedUser, Permissions, UserModel};
use maf_core::host::bundle_storage::{
    bundle_from_archive, decide_entry, load_result, scan_entries, BundleError, EntryDecision,
    ModuleEntry, UploadSize, MAX_BUNDLE_SIZE,
};
use maf_core::host::gateway::{decide_gateway_connect, default_rooms_for, GatewayConnect};
use maf_core::host::oauth::{
    callback_cleared_cookies, check_csrf_state, check_email_verified, decide_account_action,
    generate_session_token, hash_token, login_cookies, on_insert, on_missing_user,
    require_pkce_verifier, session_cookie, session_expiry, supports_creating_users, AccountAction,
    InsertOutcome, OAuthErrorResponse, OAuthProvider, SameSitePolicy,
    LOGIN_COOKIE_MAX_AGE_SECS, SESSION_LENGTH_SECS, SESSION_TOKEN_LENGTH,
};
use maf_core::host::repos::{is_db_error_code, DbError, DbErrorExt, TransactionError, TxnError};
use maf_core::host::state::{
    check_api_key, environment_from_name, is_server_inactive, parse_basic_credentials,
    parse_environment, split_first_colon, ApiKeyCheck, Environment,
};
use maf_core::host::user_app::{
    app_insert_error, check_config_update, check_room_list_filters, check_service_create_room,
    find_rooms, updated_config, validate_create_user_app, RoomQueryAnswer,
};
use maf_core::maf_schemas::apps::{
    AppNameAndOrgSlug, CreateUserAppRequest, RoomCreationStrategy, RoomKey,
};
use maf_core::server::room_storage::RoomMaps;
use maf_core::maf_schemas::error::ErrorStatus;
use maf_core::maf_schemas::project_config::{AuthConfig, AuthMode, ProjectConfigFile};
use maf_core::server::app::App;
use maf_core::server::bundle::Bundle;

#[test]
fn environment_names_are_case_insensitive() {
    assert_eq!(parse_environment(None), Ok(Environment::Development));
    assert_eq!(parse_environment(Some("PRODUCTION")), Ok(Environment::Production));
    assert_eq!(parse_environment(Some("Development")), Ok(Environment::Development));
    assert_eq!(
        parse_environment(Some("Staging")),
        Err("expected `development` or `production` in ENVIRONMENT. got `staging`.".to_string())
    );
}

#[test]
fn environment_names_are_matched_exactly_once_lowercased() {
    assert_eq!(environment_from_name("production"), Ok(Environment::Production));
    assert_eq!(environment_from_name("development"), Ok(Environment::Development));
    assert_eq!(
        environment_from_name("Production"),
        Err("expected `development` or `production` in ENVIRONMENT. got `Production`.".to_string())
    );
}

#[test]
fn server_inactivity() {
    assert!(!is_server_inactive(100, 40, 60));
    assert!(is_server_inactive(101, 40, 60));
    assert!(!is_server_inactive(5, 5, 0));
}

#[test]
fn splitting_at_the_first_colon() {
    assert_eq!(
        split_first_colon("a:b:c"),
        Some(("a".to_string(), "b:c".to_string()))
    );
    assert_eq!(split_first_colon(":x"), Some((String::new(), "x".to_string())));
    assert_eq!(split_first_colon("none"), None);
}

#[test]
fn basic_credentials_are_decoded() {
    assert_eq!(parse_basic_credentials(None), None);
    assert_eq!(
        parse_basic_credentials(Some("Basic dXNlcjpwYTpzcw==")),
        Some(("user".to_string(), "pa:ss".to_string()))
    );
    // The prefix is optional and invalid UTF-8 is replaced.
    assert_eq!(
        parse_basic_credentials(Some("/2lkOnNlY3JldA==")),
        Some(("\u{fffd}id".to_string(), "secret".to_string()))
    );
    assert_eq!(parse_basic_credentials(Some("Basic !!!")), None);
    // "abc" has no colon.
    assert_eq!(parse_basic_credentials(Some("Basic YWJj")), None);
}

#[test]
fn api_keys_by_environment() {
    let header = Some("Basic dXNlcjpwYTpzcw==");
    assert_eq!(check_api_key(None, Environment::Development), ApiKeyCheck::Reject);
    assert_eq!(check_api_key(Some("Basic YWJj"), Environment::Production), ApiKeyCheck::Reject);
    assert_eq!(check_api_key(header, Environment::Development), ApiKeyCheck::Accept);
    assert_eq!(
        check_api_key(header, Environment::Production),
        ApiKeyCheck::CheckCredentials { client_id: "user".to_string(), secret: "pa:ss".to_string() }
    );
}

#[test]
fn authorization_header_tokens() {
    assert_eq!(get_authorization(None, "Bearer"), None);
    assert_eq!(get_authorization(Some("Bearer   abc"), "Bearer"), Some("abc".to_string()));
    assert_eq!(get_authorization(Some("abc"), "Bearer"), Some("abc".to_string()));
    assert_eq!(get_authorization(Some("BearerBearer x"), "Bearer"), Some("x".to_string()));
}

#[test]
fn authed_users_expose_their_model() {
    let user = AuthedUser::new(UserModel {
        id: 9,
        name: "ada".to_string(),
        permissions: Permissions::from_bits(3),
    });
    assert_eq!(user.id(), 9);
    assert_eq!(user.name(), "ada");
    assert_eq!(user.permissions().as_bits(), 3);
    assert_eq!(Permissions::empty().as_bits(), 0);
}

#[test]
fn create_app_requests_are_validated() {
    let request = |name: &str, config: Option<String>| CreateUserAppRequest {
        name: name.to_string(),
        config,
    };
    assert!(validate_create_user_app(&request("my-app-2", None)).is_ok());
    let cases = [
        (request("", None), "Name cannot be empty."),
        (request(&"a".repeat(101), None), "Name cannot be longer than 100 characters."),
        (
            request("My_App", None),
            "Name can only contain lowercase alphanumeric characters, and hyphens.",
        ),
        (
            request("app", Some("x".repeat(2001))),
            "Config cannot be longer than 2000 characters.",
        ),
    ];
    for (req, message) in cases {
        let error = validate_create_user_app(&req).unwrap_err();
        assert_eq!(error.status_code(), ErrorStatus::BadRequest);
        assert_eq!(error.message(), message);
    }
    assert!(validate_create_user_app(&request(&"a".repeat(100), Some("x".repeat(2000)))).is_ok());
}

#[test]
fn config_updates_are_validated() {
    let valid = ProjectConfigFile::default_for("app");
    assert!(check_config_update("name = \"app\"", Some(valid.clone())).is_ok());
    assert_eq!(
        check_config_update(&"x".repeat(2001), Some(valid)).unwrap_err().message(),
        "Config cannot be longer than 2000 characters."
    );
    assert_eq!(
        check_config_update("not toml", None).unwrap_err().message(),
        "Invalid project config"
    );
    let mut inconsistent = ProjectConfigFile::default_for("app");
    inconsistent.rooms = RoomCreationStrategy::AutoCreate;
    inconsistent.auth = Some(AuthConfig { mode: AuthMode::Jwt });
    assert_eq!(
        check_config_update("...", Some(inconsistent)).unwrap_err().message(),
        "Failed to validate project config: 'auth' cannot be set when 'rooms' is 'AutoCreate'"
    );
}

#[test]
fn room_list_filters_are_exclusive() {
    assert!(check_room_list_filters(false, false).is_ok());
    assert!(check_room_list_filters(true, false).is_ok());
    assert!(check_room_list_filters(false, true).is_ok());
    assert_eq!(
        check_room_list_filters(true, true).unwrap_err().message(),
        "Cannot filter by both ID and key simultaneously."
    );
}

#[test]
fn bundle_errors_answer_with_statuses() {
    let too_large = BundleError::FileTooLarge.error_response();
    assert_eq!(too_large.status_code().code(), 400);
    assert_eq!(too_large.message(), "File too large");
    let invalid = BundleError::InvalidZip.error_response();
    assert_eq!(invalid.message(), "Invalid zip file");
    for error in [
        BundleError::FileNotFound,
        BundleError::Io("disk".to_string()),
        BundleError::EntryReader("entry".to_string()),
        BundleError::Unknown("?".to_string()),
    ] {
        let response = error.error_response();
        assert_eq!(response.status_code().code(), 500);
        assert_eq!(response.message(), "Internal Server Error");
    }
}

#[test]
fn upload_size_limit() {
    let mut upload = UploadSize::new();
    assert!(!upload.add_chunk(MAX_BUNDLE_SIZE - 1));
    assert!(!upload.add_chunk(1));
    assert!(upload.add_chunk(1));
    assert_eq!(MAX_BUNDLE_SIZE, 20 * 1024 * 1024);
}

#[test]
fn bundle_archive_entries() {
    assert_eq!(decide_entry("other.txt", 1, true), EntryDecision::Skip);
    assert_eq!(decide_entry("module.wasm", 21 * 1024 * 1024, true), EntryDecision::TooLarge);
    assert_eq!(decide_entry("module.wasm", 10, false), EntryDecision::Present);
    assert_eq!(decide_entry("module.wasm", 10, true), EntryDecision::Read { size: 10 });
}

#[test]
fn missing_bundles_load_as_none() {
    assert!(matches!(load_result(Err(BundleError::FileNotFound)), Ok(None)));
    assert!(matches!(load_result(Err(BundleError::InvalidZip)), Err(BundleError::InvalidZip)));
    let bundle = Bundle::from_wasm_bytes(ProjectConfigFile::default_for("a"), vec![1]).unwrap();
    assert!(matches!(load_result(Ok(bundle)), Ok(Some(_))));
}

#[test]
fn session_tokens_and_their_hashes() {
    let token = generate_session_token();
    assert_eq!(token.len(), SESSION_TOKEN_LENGTH);
    assert!(token.chars().all(|c| c.is_ascii_alphanumeric()));
    assert_eq!(hash_token("abc"), "ungWv48Bz+pBQUDeXa4iI7ADYaOWF3qctBD/YfIAFa0=");
    assert_eq!(hash_token(""), "47DEQpj8HBSa+/TImW+5JCeuQeRkm5NMpJWZG3hSuFU=");
}

#[test]
fn oauth_callback_decisions() {
    assert!(check_csrf_state(Some("s1"), "s1").is_ok());
    assert!(matches!(check_csrf_state(Some("s1"), "s2"), Err(OAuthErrorResponse::Unknown)));
    assert!(matches!(check_csrf_state(None, "s2"), Err(OAuthErrorResponse::Unknown)));
    assert!(check_email_verified(true).is_ok());
    assert!(matches!(check_email_verified(false), Err(OAuthErrorResponse::UnverifiedEmail)));
    assert!(supports_creating_users(Environment::Development));
    assert!(!supports_creating_users(Environment::Production));
    assert!(on_missing_user(Environment::Development).is_ok());
    assert!(matches!(
        on_missing_user(Environment::Production),
        Err(OAuthErrorResponse::InWaitlistMode)
    ));
}

#[test]
fn account_actions() {
    assert_eq!(decide_account_action(&vec![]), AccountAction::CreateGoogleAccount);
    assert_eq!(
        decide_account_action(&vec![OAuthProvider::Google]),
        AccountAction::UpdateGoogleAccount
    );
    assert_eq!(on_insert(true, true), InsertOutcome::Inserted);
    assert_eq!(on_insert(false, true), InsertOutcome::Retry);
    assert_eq!(on_insert(false, false), InsertOutcome::Failed);
}

#[test]
fn unique_violations_are_recognised() {
    let unique = || DbError { postgres_code: Some("23505".to_string()) };
    let other = || DbError { postgres_code: Some("23503".to_string()) };
    assert!(is_db_error_code(&unique(), "23505"));
    assert!(!is_db_error_code(&DbError { postgres_code: None }, "23505"));
    assert!(unique().is_unique_violation());
    assert!(!other().is_unique_violation());
    assert!(TxnError::DbErr { inner: unique() }.is_unique_violation());
    assert!(!TxnError::Anyhow { inner: "x".to_string() }.is_unique_violation());
    assert!(TransactionError::Connection(unique()).is_unique_violation());
    assert!(TransactionError::Transaction(TxnError::DbErr { inner: unique() }).is_unique_violation());
    assert!(!TransactionError::Transaction(TxnError::DbErr { inner: other() }).is_unique_violation());
}

fn sample_rooms() -> (RoomMaps<u32>, AppNameAndOrgSlug) {
    let chat = AppNameAndOrgSlug { app: "chat".to_string(), org: "acme".to_string() };
    let other = AppNameAndOrgSlug { app: "other".to_string(), org: "acme".to_string() };
    let mut maps = RoomMaps::new();
    maps.insert_room(1, chat.clone(), vec![RoomKey::Default], RoomCreationStrategy::AutoCreate, 10);
    maps.insert_room(
        2,
        chat.clone(),
        vec![RoomKey::Custom("two".to_string())],
        RoomCreationStrategy::AuthenticatedApiRequest,
        20,
    );
    maps.insert_room(
        3,
        other,
        vec![RoomKey::Custom("three".to_string())],
        RoomCreationStrategy::AuthenticatedApiRequest,
        30,
    );
    (maps, chat)
}

#[test]
fn room_queries_by_id_key_or_app() {
    let (maps, chat) = sample_rooms();

    let both = find_rooms(&maps, &chat, Some(1), Some(RoomKey::Default));
    assert_eq!(both.err().unwrap().status_code(), ErrorStatus::BadRequest);

    assert!(matches!(find_rooms(&maps, &chat, Some(2), None), Ok(RoomQueryAnswer::Single(&20))));
    // Room 3 belongs to another app.
    let foreign = find_rooms(&maps, &chat, Some(3), None).err().unwrap();
    assert_eq!(foreign.status_code(), ErrorStatus::NotFound);
    assert_eq!(foreign.message(), "No room found with the specified ID.");

    assert!(matches!(
        find_rooms(&maps, &chat, None, Some(RoomKey::Default)),
        Ok(RoomQueryAnswer::Single(&10))
    ));
    let missing = find_rooms(&maps, &chat, None, Some(RoomKey::Custom("three".to_string())));
    assert_eq!(missing.err().unwrap().message(), "No room found with the specified key.");

    // Every room of the app is listed, auto-created or not.
    match find_rooms(&maps, &chat, None, None) {
        Ok(RoomQueryAnswer::Multiple(mut list)) => {
            list.sort();
            assert_eq!(list, vec![&10, &20]);
        }
        _ => panic!("expected a list of rooms"),
    }
}

#[test]
fn the_app_cache_gives_back_what_was_cached() {
    let id = |n: usize| AppNameAndOrgSlug { app: format!("app-{n}"), org: "acme".to_string() };
    let mut cache = AppCache::new();
    assert!(cache.get(&id(0)).is_none());

    cache.remember(id(0), App::from_serialized("app-0", "acme", None));
    let cached = cache.get(&id(0)).unwrap();
    assert_eq!(cached.name(), "app-0");
    assert_eq!(cached.org(), "acme");

    // Caching under the same identifier replaces the app.
    let mut config = ProjectConfigFile::default_for("renamed");
    config.rooms = RoomCreationStrategy::AutoCreate;
    cache.remember(id(0), App::from_serialized("app-0", "acme", Some(config)));
    assert_eq!(cache.get(&id(0)).unwrap().config().rooms, RoomCreationStrategy::AutoCreate);

    // A full cache drops its least recently used app.
    for n in 1..APP_CACHE_SIZE {
        cache.remember(id(n), App::from_serialized(&format!("app-{n}"), "acme", None));
    }
    assert!(cache.get(&id(1)).is_some());
    cache.remember(id(APP_CACHE_SIZE), App::from_serialized("last", "acme", None));
    assert!(cache.get(&id(0)).is_none());
    assert!(cache.get(&id(1)).is_some());
    assert_eq!(cache.get(&id(APP_CACHE_SIZE)).unwrap().name(), "last");
}

#[test]
fn service_room_creation_requests() {
    let api = RoomCreationStrategy::AuthenticatedApiRequest;
    let chat = AppNameAndOrgSlug { app: "chat".to_string(), org: "acme".to_string() };
    let mut rooms: RoomMaps<u32> = RoomMaps::new();
    rooms.insert_room(1, chat.clone(), vec![RoomKey::Custom("lobby".to_string())], api, 10);

    assert!(check_service_create_room(&rooms, &chat, None, api).is_ok());
    assert!(check_service_create_room(&rooms, &chat, Some("hall"), api).is_ok());
    let other = AppNameAndOrgSlug { app: "other".to_string(), org: "acme".to_string() };
    assert!(check_service_create_room(&rooms, &other, Some("lobby"), api).is_ok());
    let cases = [
        (Some("default"), api, 400, "Key cannot be 'default' or a valid UUID."),
        (
            Some("67e55044-10b1-426f-9247-bb680e5fe0c8"),
            api,
            400,
            "Key cannot be 'default' or a valid UUID.",
        ),
        (Some("67e5504410b1426f9247bb680e5fe0c8"), api, 400, "Key cannot be 'default' or a valid UUID."),
        (Some("lobby"), api, 409, "Room key already exists."),
        (
            None,
            RoomCreationStrategy::AutoCreate,
            403,
            "Authenticated API request is not supported for this app.",
        ),
    ];
    for (key, strategy, code, message) in cases {
        let error = check_service_create_room(&rooms, &chat, key, strategy).unwrap_err();
        assert_eq!(error.status_code().code(), code);
        assert_eq!(error.message(), message);
    }
    let long = "k".repeat(129);
    assert_eq!(
        check_service_create_room(&rooms, &chat, Some(&long), api).unwrap_err().message(),
        "Key cannot be longer than 128 characters."
    );
}

#[test]
fn app_updates_and_inserts() {
    assert_eq!(updated_config(Some("a".to_string()), None), Some("a".to_string()));
    assert_eq!(
        updated_config(Some("a".to_string()), Some("b".to_string())),
        Some("b".to_string())
    );
    assert_eq!(updated_config(None, None), None);
    let conflict = app_insert_error(&DbError { postgres_code: Some("23505".to_string()) });
    assert_eq!(conflict.status_code().code(), 409);
    assert_eq!(conflict.message(), "App name already exists.");
    let other = app_insert_error(&TxnError::Anyhow { inner: "boom".to_string() });
    assert_eq!(other.status_code().code(), 500);
}

#[test]
fn gateway_connections() {
    assert_eq!(default_rooms_for(Environment::Development), RoomCreationStrategy::AutoCreate);
    assert_eq!(
        default_rooms_for(Environment::Production),
        RoomCreationStrategy::AuthenticatedApiRequest
    );
    let api = RoomCreationStrategy::AuthenticatedApiRequest;
    assert_eq!(decide_gateway_connect(api, "lobby", true).unwrap(), GatewayConnect::Join);
    let error = decide_gateway_connect(api, "lobby", false).unwrap_err();
    assert_eq!(error.status_code().code(), 404);
    assert_eq!(error.message(), "Room with key or ID `lobby` not found");
    let auto = RoomCreationStrategy::AutoCreate;
    assert_eq!(
        decide_gateway_connect(auto, "default", false).unwrap(),
        GatewayConnect::AutoCreated
    );
    let error = decide_gateway_connect(auto, "lobby", true).unwrap_err();
    assert_eq!(error.status_code().code(), 400);
    assert_eq!(error.message(), "Only `default` room is supported for autocreated rooms.");
}

#[test]
fn bundle_archives_are_scanned_for_their_module() {
    let entries = |list: &[(&str, u64)]| -> Vec<(String, u64)> {
        list.iter().map(|(n, s)| (n.to_string(), *s)).collect()
    };
    let archive = entries(&[("readme.md", 5), ("module.wasm", 10), ("module.wasm", 99)]);
    assert_eq!(scan_entries(&archive, true).unwrap(), ModuleEntry::Read { index: 1, size: 10 });
    assert_eq!(scan_entries(&archive, false).unwrap(), ModuleEntry::Present);
    assert!(matches!(
        scan_entries(&entries(&[("readme.md", 5)]), true),
        Err(BundleError::InvalidZip)
    ));
    assert!(matches!(scan_entries(&Vec::new(), false), Err(BundleError::InvalidZip)));
    assert!(matches!(
        scan_entries(&entries(&[("module.wasm", 21 * 1024 * 1024)]), false),
        Err(BundleError::FileTooLarge)
    ));

    let config = ProjectConfigFile::default_for("a");
    assert!(matches!(
        bundle_from_archive(config.clone(), ModuleEntry::Present, vec![]),
        Ok(None)
    ));
    let bundle = bundle_from_archive(config, ModuleEntry::Read { index: 1, size: 2 }, vec![7, 8])
        .unwrap()
        .unwrap();
    assert_eq!(bundle.wasm_module_bytes(), &[7, 8]);
}

#[test]
fn sign_in_needs_the_pkce_cookie() {
    assert_eq!(require_pkce_verifier(Some("v")).unwrap(), "v");
    assert!(matches!(require_pkce_verifier(None), Err(OAuthErrorResponse::Unknown)));
    assert_eq!(hash_token("anything").len(), 44);
}

#[test]
fn the_session_cookie_lasts_one_day() {
    let cookie = session_cookie("token-123".to_string());
    assert_eq!(cookie.name, "maf_session_token");
    assert_eq!(cookie.value, "token-123");
    assert!(cookie.http_only);
    assert!(cookie.secure);
    assert_eq!(cookie.same_site, SameSitePolicy::Lax);
    assert_eq!(cookie.path, "/");
    assert_eq!(cookie.max_age_secs, 86400);
    assert_eq!(SESSION_LENGTH_SECS, 24 * 60 * 60);
    assert_eq!(session_expiry(1_700_000_000), 1_700_086_400);
    assert_eq!(session_expiry(0), 86400);
}

#[test]
fn sign_in_cookies_are_short_lived_and_scoped_to_auth_routes() {
    let (pkce, csrf) = login_cookies("verifier-abc".to_string(), "state-xyz".to_string());
    assert_eq!(pkce.name, "maf_oauth_pkce_verifier");
    assert_eq!(pkce.value, "verifier-abc");
    assert_eq!(csrf.name, "maf_oauth_csrf_state");
    assert_eq!(csrf.value, "state-xyz");
    for cookie in [&pkce, &csrf] {
        assert!(cookie.http_only);
        assert!(cookie.secure);
        assert_eq!(cookie.same_site, SameSitePolicy::Lax);
        assert_eq!(cookie.path, "/api/v1/auth");
        assert_eq!(cookie.max_age_secs, 180);
    }
    assert_eq!(LOGIN_COOKIE_MAX_AGE_SECS, 3 * 60);
    let (first, second) = callback_cleared_cookies();
    assert_eq!(first, "maf_oauth_csrf_state");
    assert_eq!(second, "maf_oauth_pkce_verifier");
}
