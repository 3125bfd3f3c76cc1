//! Sign-in with an OAuth provider: the decisions of the login callback and of recording the
//! user's account, and the session tokens handed out afterwards.

use vstd::prelude::*;
use base64::Engine;
use sha2::Digest;
use crate::host::state::Environment;
use crate::maf_schemas::apps::{is_ascii_alphanumeric, random_alphanumeric_string};
use crate::maf_schemas::error::ErrorResponse;
use crate::text::{str_eq, to_owned_string};

verus! {

/// The number of characters in a session token.
pub const SESSION_TOKEN_LENGTH: usize = 128;

/// Creates a random string of 128 alphanumeric characters to be used as a session token.
pub fn generate_session_token() -> (token: String)
    ensures
        token@.len() == SESSION_TOKEN_LENGTH,
        forall|i: int| 0 <= i < token@.len() ==> is_ascii_alphanumeric(#[trigger] token@[i]),
{
    random_alphanumeric_string(SESSION_TOKEN_LENGTH)
}

/// The SHA-256 digest of `bytes`.
pub uninterp spec fn sha256(bytes: Seq<u8>) -> Seq<u8>;

/// `sha2::Sha256::digest`; the digest is named by [`sha256`], depends on the bytes alone and is
/// 32 bytes long.
#[verifier::external_body]
fn sha256_digest(bytes: &[u8]) -> (digest: Vec<u8>)
    ensures
        digest@ == sha256(bytes@),
        digest@.len() == 32,
{
    sha2::Sha256::digest(bytes).to_vec()
}

/// The standard Base64 encoding (with padding) of `bytes`.
pub uninterp spec fn base64_encoded(bytes: Seq<u8>) -> Seq<char>;

/// `base64::engine::general_purpose::STANDARD.encode`; the text is named by [`base64_encoded`]
/// and depends on the bytes alone. With padding, every started group of three bytes gives four
/// characters.
#[verifier::external_body]
fn base64_encode(bytes: &[u8]) -> (text: String)
    ensures
        text@ == base64_encoded(bytes@),
        text@.len() == 4 * ((bytes@.len() + 2) / 3),
{
    base64::engine::general_purpose::STANDARD.encode(bytes)
}

/// Hashes the given string using SHA256 and returns the base64-encoded result. This is used to
/// store the session token in the database in a secure way.
pub fn hash_token(token: &str) -> (hash: String)
    ensures
        hash@ == base64_encoded(sha256(vstd::utf8::encode_utf8(token@))),
        hash@.len() == 44,
{
    let digest = sha256_digest(token.as_bytes());
    base64_encode(digest.as_slice())
}

/// Represents an error that occurred during the OAuth2 login process.
#[derive(Debug)]
pub enum OAuthErrorResponse {
    Unknown,
    /// The user's email is not verified, so we cannot allow them to log in.
    UnverifiedEmail,
    /// The application is running in a "waitlist" mode, and the user does not have an account yet.
    /// Account creation by the user is not allowed in this mode and the user must be invited by an
    /// administrator to create an account.
    InWaitlistMode,
    /// The user tried to connect an account to an existing user, but we cannot verify that the
    /// account belongs to the same person as the existing user.
    CannotLinkAccount,
    Other(ErrorResponse),
}

/// The OAuth providers a user can sign in with.
#[derive(Debug, Clone, Copy, PartialEq, Eq, Structural)]
pub enum OAuthProvider {
    Google,
}

/// Checks the CSRF state of a login callback against the one stored in the cookie at login: a
/// missing cookie or a different state fails with [`OAuthErrorResponse::Unknown`].
pub fn check_csrf_state(cookie: Option<&str>, state: &str) -> (result: Result<(), OAuthErrorResponse>)
    ensures
        result is Ok <==> (cookie matches Some(c) && c@ == state@),
        result matches Err(e) ==> e matches OAuthErrorResponse::Unknown,
{
    match cookie {
        Some(c) => if str_eq(c, state) {
            Ok(())
        } else {
            Err(OAuthErrorResponse::Unknown)
        },
        None => Err(OAuthErrorResponse::Unknown),
    }
}

/// The PKCE verifier of a sign-in, from its cookie; a callback without the cookie is refused.
pub fn require_pkce_verifier(cookie: Option<&str>) -> (verifier: Result<String, OAuthErrorResponse>)
    ensures
        cookie matches Some(c) ==> (verifier matches Ok(v) && v@ == c@),
        cookie is None ==> (verifier matches Err(OAuthErrorResponse::Unknown)),
{
    match cookie {
        Some(c) => Ok(to_owned_string(c)),
        None => Err(OAuthErrorResponse::Unknown),
    }
}

/// Users with an unverified email cannot sign in.
pub fn check_email_verified(email_verified: bool) -> (result: Result<(), OAuthErrorResponse>)
    ensures
        result is Ok <==> email_verified,
        result matches Err(e) ==> e matches OAuthErrorResponse::UnverifiedEmail,
{
    if !email_verified {
        return Err(OAuthErrorResponse::UnverifiedEmail);
    }
    Ok(())
}

/// Whether users that do not exist yet are created at sign-in: only in development; otherwise
/// the server runs in "waitlist" mode.
pub fn supports_creating_users(environment: Environment) -> (supported: bool)
    ensures
        supported == (environment == Environment::Development),
{
    environment == Environment::Development
}

/// What signing in does about a user that does not exist yet: create it where that is supported,
/// fail with [`OAuthErrorResponse::InWaitlistMode`] otherwise.
pub fn on_missing_user(environment: Environment) -> (result: Result<(), OAuthErrorResponse>)
    ensures
        result is Ok <==> environment == Environment::Development,
        result matches Err(e) ==> e matches OAuthErrorResponse::InWaitlistMode,
{
    if !supports_creating_users(environment) {
        return Err(OAuthErrorResponse::InWaitlistMode);
    }
    Ok(())
}

/// What signing in with Google does about the user's linked accounts.
#[derive(Debug, Clone, Copy, PartialEq, Eq, Structural)]
pub enum AccountAction {
    /// A Google account is linked: update its tokens.
    UpdateGoogleAccount,
    /// Other accounts are linked but no Google account: the sign-in cannot be linked.
    CannotLink,
    /// No account is linked: link a new Google account.
    CreateGoogleAccount,
}

/// Decides about the accounts of a signing-in user, given the providers of the accounts already
/// linked to the user.
pub fn decide_account_action(providers: &Vec<OAuthProvider>) -> (action: AccountAction)
    ensures
        (exists|i: int| 0 <= i < providers@.len() && providers@[i] == OAuthProvider::Google)
            ==> action == AccountAction::UpdateGoogleAccount,
        !(exists|i: int| 0 <= i < providers@.len() && providers@[i] == OAuthProvider::Google)
            ==> action == if providers@.len() > 0 {
            AccountAction::CannotLink
        } else {
            AccountAction::CreateGoogleAccount
        },
{
    let mut i: usize = 0;
    while i < providers.len()
        invariant
            0 <= i <= providers@.len(),
            forall|j: int| 0 <= j < i ==> providers@[j] != OAuthProvider::Google,
        decreases providers@.len() - i,
    {
        if providers[i] == OAuthProvider::Google {
            return AccountAction::UpdateGoogleAccount;
        }
        i = i + 1;
    }
    if providers.len() > 0 {
        AccountAction::CannotLink
    } else {
        AccountAction::CreateGoogleAccount
    }
}

/// What recording a sign-in does after inserting a user or an account: a unique constraint
/// violation means that a concurrent sign-in inserted the same record, and the whole recording is
/// rolled back and retried; other failures fail the sign-in.
#[derive(Debug, Clone, Copy, PartialEq, Eq, Structural)]
pub enum InsertOutcome {
    Inserted,
    Retry,
    Failed,
}

/// Decides the outcome of an insert from whether it succeeded and, if not, whether it violated a
/// unique constraint.
pub fn on_insert(succeeded: bool, unique_violation: bool) -> (outcome: InsertOutcome)
    ensures
        outcome == if succeeded {
            InsertOutcome::Inserted
        } else if unique_violation {
            InsertOutcome::Retry
        } else {
            InsertOutcome::Failed
        },
{
    if succeeded {
        InsertOutcome::Inserted
    } else if unique_violation {
        InsertOutcome::Retry
    } else {
        InsertOutcome::Failed
    }
}

/// The `SameSite` attribute of a cookie.
#[derive(Debug, Clone, Copy, PartialEq, Eq, Structural)]
pub enum SameSitePolicy {
    Strict,
    Lax,
    Unrestricted,
}

/// A cookie to set on the client: its name and value and the attributes it is set with.
#[derive(Debug)]
pub struct CookieSettings {
    pub name: String,
    pub value: String,
    pub http_only: bool,
    pub secure: bool,
    pub same_site: SameSitePolicy,
    pub path: String,
    pub max_age_secs: u64,
}

/// How long a session lasts: one day, in seconds.
pub const SESSION_LENGTH_SECS: u64 = 86400;

/// How long the cookies of a sign-in in progress last: three minutes, in seconds.
pub const LOGIN_COOKIE_MAX_AGE_SECS: u64 = 180;

/// A cookie that only the server reads (`HttpOnly`), sent over HTTPS only, with `SameSite=Lax`.
pub open spec fn guarded_cookie(
    cookie: CookieSettings,
    name: Seq<char>,
    value: Seq<char>,
    path: Seq<char>,
    max_age_secs: u64,
) -> bool {
    &&& cookie.name@ == name
    &&& cookie.value@ == value
    &&& cookie.http_only
    &&& cookie.secure
    &&& cookie.same_site == SameSitePolicy::Lax
    &&& cookie.path@ == path
    &&& cookie.max_age_secs == max_age_secs
}

fn guarded(name: &str, value: String, path: &str, max_age_secs: u64) -> (cookie: CookieSettings)
    ensures
        guarded_cookie(cookie, name@, value@, path@, max_age_secs),
{
    CookieSettings {
        name: to_owned_string(name),
        value,
        http_only: true,
        secure: true,
        same_site: SameSitePolicy::Lax,
        path: to_owned_string(path),
        max_age_secs,
    }
}

/// The session cookie set after a sign-in: `maf_session_token` holding the session token, on
/// every path, for the length of a session.
pub fn session_cookie(token: String) -> (cookie: CookieSettings)
    ensures
        guarded_cookie(cookie, "maf_session_token"@, token@, "/"@, SESSION_LENGTH_SECS),
{
    guarded("maf_session_token", token, "/", SESSION_LENGTH_SECS)
}

/// When a session opened at `now` (seconds since the Unix epoch) expires.
pub fn session_expiry(now: u64) -> (expires: u64)
    requires
        now + SESSION_LENGTH_SECS <= u64::MAX,
    ensures
        expires == now + SESSION_LENGTH_SECS,
{
    now + SESSION_LENGTH_SECS
}

/// The cookies set when a sign-in starts: the PKCE verifier (`maf_oauth_pkce_verifier`) and the
/// CSRF state (`maf_oauth_csrf_state`), both on the auth routes only and for three minutes.
pub fn login_cookies(verifier: String, csrf_state: String) -> (cookies: (
    CookieSettings,
    CookieSettings,
))
    ensures
        guarded_cookie(
            cookies.0,
            "maf_oauth_pkce_verifier"@,
            verifier@,
            "/api/v1/auth"@,
            LOGIN_COOKIE_MAX_AGE_SECS,
        ),
        guarded_cookie(
            cookies.1,
            "maf_oauth_csrf_state"@,
            csrf_state@,
            "/api/v1/auth"@,
            LOGIN_COOKIE_MAX_AGE_SECS,
        ),
{
    (
        guarded("maf_oauth_pkce_verifier", verifier, "/api/v1/auth", LOGIN_COOKIE_MAX_AGE_SECS),
        guarded("maf_oauth_csrf_state", csrf_state, "/api/v1/auth", LOGIN_COOKIE_MAX_AGE_SECS),
    )
}

/// The cookies removed once the sign-in callback has used them: the CSRF state and the PKCE
/// verifier.
pub fn callback_cleared_cookies() -> (names: (String, String))
    ensures
        names.0@ == "maf_oauth_csrf_state"@,
        names.1@ == "maf_oauth_pkce_verifier"@,
{
    (to_owned_string("maf_oauth_csrf_state"), to_owned_string("maf_oauth_pkce_verifier"))
}

} // verus!
