//! Server-wide decisions of the platform host: its environment, when it shuts down for
//! inactivity, and how service credentials are read from a request.

use vstd::prelude::*;
use base64::Engine;
use vstd::string::StrSliceExecFns;
use vstd::string::StringExecFns;
use crate::text::{str_eq, to_owned_string, trim_start_matches, trim_start_repeated};

verus! {

/// Whether the server is running in development or production mode.
#[derive(Debug, Clone, Copy, PartialEq, Eq, Structural)]
pub enum Environment {
    Development,
    Production,
}

/// The lowercase form of a string, as `str::to_lowercase` computes it (Unicode lowercase
/// mapping, character by character, with the final-sigma rule).
pub uninterp spec fn lowercase(text: Seq<char>) -> Seq<char>;

/// `str::to_lowercase`; the result is named by [`lowercase`] and depends on the text alone.
#[verifier::external_body]
fn to_lowercase(text: &str) -> (lower: String)
    ensures
        lower@ == lowercase(text@),
{
    text.to_lowercase()
}

/// The environment a lowercase `name` names, or the error for a name that is neither.
pub open spec fn environment_of_name(name: Seq<char>) -> Result<Environment, Seq<char>> {
    if name == "development"@ {
        Ok(Environment::Development)
    } else if name == "production"@ {
        Ok(Environment::Production)
    } else {
        Err("expected `development` or `production` in ENVIRONMENT. got `"@ + name + "`."@)
    }
}

/// The environment named by the `ENVIRONMENT` setting, or the error for a name that is neither.
pub open spec fn environment_named(value: Option<Seq<char>>) -> Result<Environment, Seq<char>> {
    environment_of_name(
        match value {
            Some(v) => lowercase(v),
            None => "development"@,
        },
    )
}

/// The environment that the lowercased setting `name` names: "development" or "production".
pub fn environment_from_name(name: &str) -> (environment: Result<Environment, String>)
    ensures
        match environment_of_name(name@) {
            Ok(e) => environment == Ok::<Environment, String>(e),
            Err(message) => environment matches Err(m) && m@ == message,
        },
{
    if str_eq(name, "development") {
        Ok(Environment::Development)
    } else if str_eq(name, "production") {
        Ok(Environment::Production)
    } else {
        let mut message = to_owned_string("expected `development` or `production` in ENVIRONMENT. got `");
        message.append(name);
        message.append("`.");
        Err(message)
    }
}

/// Reads the `ENVIRONMENT` setting: "development" (the default where it is not set) or
/// "production", in any case.
pub fn parse_environment(value: Option<&str>) -> (environment: Result<Environment, String>)
    ensures
        match environment_named(
            match value {
                Some(v) => Some(v@),
                None => None,
            },
        ) {
            Ok(e) => environment == Ok::<Environment, String>(e),
            Err(message) => environment matches Err(m) && m@ == message,
        },
{
    let name = match value {
        Some(v) => to_lowercase(v),
        None => to_owned_string("development"),
    };
    environment_from_name(name.as_str())
}

/// Whether a server last active at `last_activity` has been inactive for more than `timeout`
/// seconds at time `now`.
pub fn is_server_inactive(now: u64, last_activity: u64, timeout: u64) -> (inactive: bool)
    requires
        last_activity <= now,
    ensures
        inactive == (now - last_activity > timeout),
{
    now - last_activity > timeout
}

/// The bytes that the standard Base64 alphabet (with padding) decodes `text` to, or `None` where
/// `text` is not valid standard Base64.
pub uninterp spec fn base64_decoded(text: Seq<char>) -> Option<Seq<u8>>;

/// `base64::engine::general_purpose::STANDARD.decode`, with a decoding error written as its
/// display text; whether it decodes, and the bytes, are named by [`base64_decoded`] and depend on
/// the text alone. The error text is not stated.
#[verifier::external_body]
pub(crate) fn base64_decode(text: &str) -> (bytes: Result<Vec<u8>, String>)
    ensures
        match bytes {
            Ok(b) => base64_decoded(text@) == Some(b@),
            Err(_) => base64_decoded(text@) is None,
        },
{
    match base64::engine::general_purpose::STANDARD.decode(text) {
        Ok(bytes) => Ok(bytes),
        Err(error) => Err(error.to_string()),
    }
}

/// The text that `String::from_utf8_lossy` makes of `bytes`: their UTF-8 decoding, with each
/// invalid sequence replaced by U+FFFD.
pub uninterp spec fn utf8_lossy(bytes: Seq<u8>) -> Seq<char>;

/// `String::from_utf8_lossy`; the result is named by [`utf8_lossy`] and depends on the bytes
/// alone.
#[verifier::external_body]
fn from_utf8_lossy(bytes: &[u8]) -> (text: String)
    ensures
        text@ == utf8_lossy(bytes@),
{
    String::from_utf8_lossy(bytes).into_owned()
}

/// `text` split at its first ':', or `None` where it has none.
pub open spec fn split_at_first_colon(text: Seq<char>) -> Option<(Seq<char>, Seq<char>)> {
    if exists|i: int| 0 <= i < text.len() && text[i] == ':' {
        let i = choose|i: int|
            0 <= i < text.len() && text[i] == ':' && forall|j: int| 0 <= j < i ==> text[j] != ':';
        Some((text.subrange(0, i), text.subrange(i + 1, text.len() as int)))
    } else {
        None
    }
}

/// Splits `text` at its first ':'.
pub fn split_first_colon(text: &str) -> (parts: Option<(String, String)>)
    ensures
        match split_at_first_colon(text@) {
            Some((a, b)) => parts matches Some((x, y)) && x@ == a && y@ == b,
            None => parts is None,
        },
{
    let n = text.unicode_len();
    let mut i: usize = 0;
    while i < n
        invariant
            n == text@.len(),
            0 <= i <= n,
            forall|j: int| 0 <= j < i ==> text@[j] != ':',
        decreases n - i,
    {
        if text.get_char(i) == ':' {
            proof {
                let k = choose|k: int|
                    0 <= k < text@.len() && text@[k] == ':' && forall|j: int|
                        0 <= j < k ==> text@[j] != ':';
                assert(k == i) by {
                    if k < i {
                    } else if k > i {
                        assert(text@[i as int] == ':');
                    }
                }
            }
            let first = to_owned_string(text.substring_char(0, i));
            let rest = to_owned_string(text.substring_char(i + 1, n));
            return Some((first, rest));
        }
        i = i + 1;
    }
    None
}

/// The client id and secret of a `Basic` authorization header value: the value with every
/// leading "Basic " removed, Base64-decoded, read as UTF-8 (lossily), split at the first ':'.
pub open spec fn basic_credentials(header: Seq<char>) -> Option<(Seq<char>, Seq<char>)> {
    match base64_decoded(trim_start_repeated(header, "Basic "@)) {
        Some(bytes) => split_at_first_colon(utf8_lossy(bytes)),
        None => None,
    }
}

/// Reads the client id and secret of a service account from the value of the `Authorization`
/// header of a request, if there is one; see [`basic_credentials`].
pub fn parse_basic_credentials(header: Option<&str>) -> (credentials: Option<(String, String)>)
    ensures
        match header {
            None => credentials is None,
            Some(h) => match basic_credentials(h@) {
                Some((id, secret)) => credentials matches Some((x, y)) && x@ == id && y@ == secret,
                None => credentials is None,
            },
        },
{
    let header = match header {
        Some(h) => h,
        None => return None,
    };
    let encoded = trim_start_matches(header, "Basic ");
    let bytes = match base64_decode(encoded) {
        Ok(b) => b,
        Err(_) => return None,
    };
    let text = from_utf8_lossy(bytes.as_slice());
    split_first_colon(text.as_str())
}

/// What the check of a service request's credentials decides.
#[derive(Debug, PartialEq, Eq)]
pub enum ApiKeyCheck {
    /// The request has no readable credentials.
    Reject,
    /// The server runs in development mode, where credentials are not checked.
    Accept,
    /// The credentials must be checked against the app's.
    CheckCredentials { client_id: String, secret: String },
}

/// Decides a service request: without readable credentials it is rejected; in development every
/// request with credentials is accepted; otherwise the credentials must be checked.
pub fn check_api_key(header: Option<&str>, environment: Environment) -> (check: ApiKeyCheck)
    ensures
        match header {
            None => check == ApiKeyCheck::Reject,
            Some(h) => match basic_credentials(h@) {
                None => check == ApiKeyCheck::Reject,
                Some((id, secret)) => if environment == Environment::Development {
                    check == ApiKeyCheck::Accept
                } else {
                    check matches ApiKeyCheck::CheckCredentials { client_id, secret: s }
                        && client_id@ == id && s@ == secret
                },
            },
        },
{
    match parse_basic_credentials(header) {
        None => ApiKeyCheck::Reject,
        Some((client_id, secret)) => if environment == Environment::Development {
            ApiKeyCheck::Accept
        } else {
            ApiKeyCheck::CheckCredentials { client_id, secret }
        },
    }
}

} // verus!
