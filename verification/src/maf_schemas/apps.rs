//! Descriptions of MAF apps and their rooms: room creation strategies, room keys, meta entries and
//! the requests that create and update apps.

use colored::Colorize;
use rand::Rng;
use vstd::prelude::*;
use vstd::string::StringExecFns;
use crate::text::{str_eq, string_from_chars, to_owned_string};

verus! {

/// A JSON value (`serde_json::Value`), carried through unchanged.
#[verifier::external_type_specification]
#[verifier::external_body]
pub struct ExJsonValue(serde_json::Value);

/// Whether `c` is an ASCII letter or digit.
pub open spec fn is_ascii_alphanumeric(c: char) -> bool {
    ('0' <= c && c <= '9') || ('a' <= c && c <= 'z') || ('A' <= c && c <= 'Z')
}

/// One character drawn from the thread-local random generator with the `Alphanumeric`
/// distribution of `rand` (`rand::rng().sample(rand::distr::Alphanumeric)`), which yields an ASCII
/// letter or digit. Which one comes out depends on the random generator and is not stated.
#[verifier::external_body]
fn random_alphanumeric() -> (c: char)
    ensures
        is_ascii_alphanumeric(c),
{
    rand::rng().sample(rand::distr::Alphanumeric) as char
}

/// The number of characters in a room secret.
pub const ROOM_SECRET_LENGTH: usize = 256;

/// Generates a random string to use as a secret for signing JWTs for room authentication.
pub fn generate_room_secret() -> (secret: String)
    ensures
        secret@.len() == ROOM_SECRET_LENGTH,
        forall|i: int| 0 <= i < secret@.len() ==> is_ascii_alphanumeric(#[trigger] secret@[i]),
{
    random_alphanumeric_string(ROOM_SECRET_LENGTH)
}

/// A string of `length` random ASCII letters and digits.
pub fn random_alphanumeric_string(length: usize) -> (text: String)
    ensures
        text@.len() == length,
        forall|i: int| 0 <= i < text@.len() ==> is_ascii_alphanumeric(#[trigger] text@[i]),
{
    let mut chars: Vec<char> = Vec::new();
    let mut i: usize = 0;
    while i < length
        invariant
            i <= length,
            chars@.len() == i,
            forall|j: int| 0 <= j < chars@.len() ==> is_ascii_alphanumeric(#[trigger] chars@[j]),
        decreases length - i,
    {
        chars.push(random_alphanumeric());
        i = i + 1;
    }
    string_from_chars(&chars)
}

/// A request to create an app.
#[derive(Debug)]
pub struct CreateUserAppRequest {
    pub name: String,
    pub config: Option<String>,
}

/// A request to update an app's configuration.
#[derive(Debug)]
pub struct UpdateUserAppRequest {
    pub config: Option<String>,
}

/// How the rooms of an app come into existence.
#[derive(Debug, Clone, Copy, PartialEq, Eq, Structural)]
pub enum RoomCreationStrategy {
    /// Auto-create a room and put everyone in it
    AutoCreate,
    /// Rooms are created by an authenticated API request
    AuthenticatedApiRequest,
}

/// The text shown dimmed after a strategy's name.
pub open spec fn strategy_description(strategy: RoomCreationStrategy) -> Seq<char> {
    match strategy {
        RoomCreationStrategy::AuthenticatedApiRequest =>
            "(A server-side API call is used to create rooms)"@,
        RoomCreationStrategy::AutoCreate =>
            "(Rooms are automatically created when a user joins; all users are placed in the same room)"@,
    }
}

/// The name of a strategy as shown to users.
pub open spec fn strategy_name(strategy: RoomCreationStrategy) -> Seq<char> {
    match strategy {
        RoomCreationStrategy::AuthenticatedApiRequest => "Authenticated API Request"@,
        RoomCreationStrategy::AutoCreate => "Auto Create"@,
    }
}

/// The escape sequence that starts dimmed terminal text.
pub open spec fn dim_start() -> Seq<char> {
    seq!['\x1b', '[', '2', 'm']
}

/// The escape sequence that resets terminal styling.
pub open spec fn style_reset() -> Seq<char> {
    seq!['\x1b', '[', '0', 'm']
}

/// Whether `text`, as displayed by `colored` after `dimmed()`, reads `shown`: either the text as
/// it is (when colors are off) or the text between the dim and reset escape sequences.
pub open spec fn dimmed_display(text: Seq<char>, shown: Seq<char>) -> bool {
    shown == text || shown == dim_start() + text + style_reset()
}

/// `colored::Colorize::dimmed` applied to `text`, rendered with `to_string`. The rendering holds
/// the text unchanged when `colored` decides not to colorize (which depends on the environment and
/// the terminal) and otherwise wraps it in the dim and reset escape sequences; for a text without
/// escape characters no other rendering is possible. Which of the two comes out is not stated.
#[verifier::external_body]
fn dimmed(text: &str) -> (shown: String)
    ensures
        (forall|i: int| 0 <= i < text@.len() ==> text@[i] != '\x1b') ==> dimmed_display(
            text@,
            shown@,
        ),
{
    text.dimmed().to_string()
}

proof fn lemma_no_escape_in_descriptions(strategy: RoomCreationStrategy)
    ensures
        forall|i: int|
            0 <= i < strategy_description(strategy).len() ==> strategy_description(strategy)[i]
                != '\x1b',
{
    reveal_strlit("(A server-side API call is used to create rooms)");
    reveal_strlit(
        "(Rooms are automatically created when a user joins; all users are placed in the same room)",
    );
}

impl RoomCreationStrategy {
    /// The name of the strategy as shown to users.
    pub fn format(&self) -> (text: String)
        ensures
            text@ == strategy_name(*self),
    {
        match self {
            RoomCreationStrategy::AuthenticatedApiRequest => to_owned_string(
                "Authenticated API Request",
            ),
            RoomCreationStrategy::AutoCreate => to_owned_string("Auto Create"),
        }
    }

    /// The name of the strategy, a space, and a dimmed description of it.
    pub fn format_with_description(&self) -> (text: String)
        ensures
            exists|shown: Seq<char>|
                dimmed_display(strategy_description(*self), shown) && text@ == strategy_name(*self)
                    + " "@ + shown,
    {
        proof {
            lemma_no_escape_in_descriptions(*self);
            reveal_strlit(" ");
            reveal_strlit("Authenticated API Request ");
            reveal_strlit("Authenticated API Request");
            reveal_strlit("Auto Create ");
            reveal_strlit("Auto Create");
        }
        let (mut text, shown) = match self {
            RoomCreationStrategy::AuthenticatedApiRequest => (
                to_owned_string("Authenticated API Request "),
                dimmed("(A server-side API call is used to create rooms)"),
            ),
            RoomCreationStrategy::AutoCreate => (
                to_owned_string("Auto Create "),
                dimmed(
                    "(Rooms are automatically created when a user joins; all users are placed in the same room)",
                ),
            ),
        };
        proof {
            assert(dimmed_display(strategy_description(*self), shown@));
            assert(text@ =~= strategy_name(*self) + " "@);
        }
        text.append(shown.as_str());
        proof {
            assert(text@ =~= strategy_name(*self) + " "@ + shown@);
        }
        text
    }
}

/// The 128-bit value of a room's UUID, which identifies the room.
pub type RoomId = u128;

/// An app, identified by its name and the slug of the organization that owns it.
#[derive(Debug, Clone, PartialEq, Eq, Hash)]
pub struct AppNameAndOrgSlug {
    pub app: String,
    pub org: String,
}

impl View for AppNameAndOrgSlug {
    type V = (Seq<char>, Seq<char>);

    open spec fn view(&self) -> (Seq<char>, Seq<char>) {
        (self.app@, self.org@)
    }
}

impl AppNameAndOrgSlug {
    /// A copy of this identifier.
    pub fn duplicate(&self) -> (copy: Self)
        ensures
            copy == *self,
    {
        AppNameAndOrgSlug { app: self.app.clone(), org: self.org.clone() }
    }

    /// Whether this identifier has the given app name and organization slug.
    pub fn eq_app_org(&self, app: &str, org: &str) -> (same: bool)
        ensures
            same == (self.app@ == app@ && self.org@ == org@),
    {
        str_eq(self.app.as_str(), app) && str_eq(self.org.as_str(), org)
    }

    /// Whether two identifiers name the same app.
    pub fn same_as(&self, other: &Self) -> (same: bool)
        ensures
            same == (self.app@ == other.app@ && self.org@ == other.org@),
    {
        self.eq_app_org(other.app.as_str(), other.org.as_str())
    }

    /// The identifier of the room of this app with the given key.
    pub fn with_room_key(&self, key: RoomKey) -> (key_and_app: RoomKeyAndApp)
        ensures
            key_and_app.app_id == *self,
            key_and_app.key == key,
    {
        RoomKeyAndApp { app_id: self.duplicate(), key }
    }
}

/// A user-specified identifier for a room, used to look up rooms by a string.
///
/// [`RoomKey::Default`] is used for rooms that are created with
/// [`RoomCreationStrategy::AutoCreate`]. [`RoomKey::Custom`] is used for rooms that are created
/// with other methods, such as through the MAF Platform API.
///
/// Note that "default" is a reserved key and cannot be used for custom rooms.
///
/// When serializing/deserializing, this gets converted to a string, with "default" being used for
/// [`RoomKey::Default`] and the custom string being used for [`RoomKey::Custom`].
#[derive(Debug, Clone, PartialEq, Eq, Hash)]
pub enum RoomKey {
    Default,
    Custom(String),
}

/// The string a room key is serialized as.
pub open spec fn serialized_key(key: RoomKey) -> Seq<char> {
    match key {
        RoomKey::Default => "default"@,
        RoomKey::Custom(k) => k@,
    }
}

/// The room key that a string deserializes to.
pub open spec fn deserialized_key_is(text: Seq<char>, key: RoomKey) -> bool {
    if text == "default"@ {
        key == RoomKey::Default
    } else {
        key matches RoomKey::Custom(k) && k@ == text
    }
}

/// Whether two room keys are the same key.
pub open spec fn same_key(a: RoomKey, b: RoomKey) -> bool {
    a@ == b@
}

impl View for RoomKey {
    /// `None` for the default key, the custom string otherwise.
    type V = Option<Seq<char>>;

    open spec fn view(&self) -> Option<Seq<char>> {
        match self {
            RoomKey::Default => None,
            RoomKey::Custom(k) => Some(k@),
        }
    }
}

impl RoomKey {
    /// Creates a new [`RoomKey`] from the given string and room creation strategy.
    ///
    /// Returns `None` if the key is invalid (e.g., "default" for a custom room).
    pub fn new(key: &str, strategy: RoomCreationStrategy) -> (room_key: Option<Self>)
        ensures
            strategy == RoomCreationStrategy::AutoCreate ==> room_key == Some(RoomKey::Default),
            strategy == RoomCreationStrategy::AuthenticatedApiRequest ==> {
                if key@ == "default"@ {
                    room_key is None
                } else {
                    room_key matches Some(RoomKey::Custom(k)) && k@ == key@
                }
            },
    {
        match strategy {
            RoomCreationStrategy::AutoCreate => Some(RoomKey::Default),
            RoomCreationStrategy::AuthenticatedApiRequest => {
                if str_eq(key, "default") {
                    None
                } else {
                    Some(RoomKey::Custom(to_owned_string(key)))
                }
            },
        }
    }

    /// The string this key is serialized as: "default" for [`RoomKey::Default`], the custom string
    /// otherwise.
    pub fn serialize_key(&self) -> (text: String)
        ensures
            text@ == serialized_key(*self),
    {
        match self {
            RoomKey::Default => to_owned_string("default"),
            RoomKey::Custom(key) => key.clone(),
        }
    }

    /// The key a string deserializes to: [`RoomKey::Default`] for "default", a custom key
    /// otherwise.
    pub fn deserialize_key(text: String) -> (key: Self)
        ensures
            deserialized_key_is(text@, key),
    {
        if str_eq(text.as_str(), "default") {
            RoomKey::Default
        } else {
            RoomKey::Custom(text)
        }
    }

    /// A copy of this key.
    pub fn duplicate(&self) -> (copy: Self)
        ensures
            copy == *self,
    {
        match self {
            RoomKey::Default => RoomKey::Default,
            RoomKey::Custom(key) => RoomKey::Custom(key.clone()),
        }
    }

    /// Whether two keys are the same key.
    pub fn same_as(&self, other: &Self) -> (same: bool)
        ensures
            same == same_key(*self, *other),
    {
        match (self, other) {
            (RoomKey::Default, RoomKey::Default) => true,
            (RoomKey::Custom(x), RoomKey::Custom(y)) => str_eq(x.as_str(), y.as_str()),
            _ => false,
        }
    }
}

/// Deserializing what a key serializes to gives the key back, for every key but the custom key
/// "default", which serializes like [`RoomKey::Default`] and comes back as it.
pub proof fn lemma_room_key_round_trip(key: RoomKey, back: RoomKey)
    requires
        deserialized_key_is(serialized_key(key), back),
        !(key matches RoomKey::Custom(k) && k@ == "default"@),
    ensures
        same_key(key, back),
{
}

/// Serializing what a string deserializes to gives the string back, for every string.
pub proof fn lemma_room_key_text_round_trip(text: Seq<char>, key: RoomKey)
    requires
        deserialized_key_is(text, key),
    ensures
        serialized_key(key) == text,
{
}

/// A room key that [`RoomKey::new`] accepts never clashes with the reserved key: a custom key from
/// it is never "default".
pub proof fn lemma_new_key_not_reserved(key: Seq<char>, room_key: RoomKey)
    requires
        room_key matches RoomKey::Custom(k) && k@ == key,
        key != "default"@,
    ensures
        serialized_key(room_key) != "default"@,
{
}

/// A struct used for hashing the room key and app name, used to quickly look up rooms by key.
#[derive(Debug, Clone, PartialEq, Eq, Hash)]
pub struct RoomKeyHash {
    pub app: AppNameAndOrgSlug,
    pub key: RoomKey,
}

/// A room key together with the app it belongs to, which together identify a room.
#[derive(Debug, Clone, PartialEq, Eq, Hash)]
pub struct RoomKeyAndApp {
    pub app_id: AppNameAndOrgSlug,
    pub key: RoomKey,
}

impl View for RoomKeyAndApp {
    type V = ((Seq<char>, Seq<char>), Option<Seq<char>>);

    open spec fn view(&self) -> ((Seq<char>, Seq<char>), Option<Seq<char>>) {
        (self.app_id@, self.key@)
    }
}

/// The longest room key that can be added or requested, in bytes.
pub const MAX_ROOM_KEY_LENGTH: usize = 128;

/// Who can see a meta entry.
#[derive(Debug, Clone, Copy, PartialEq, Eq, Structural)]
pub enum MetaVisibility {
    /// Public metadata can be accessed by anyone, including clients.
    Public,
    /// Private metadata can only be accessed by the app (running on MAF Platform and service
    /// accounts) itself. Private metadata also includes all public metadata.
    Private,
}

/// Whether a reader with visibility `reader` can access metadata with visibility `entry`.
pub open spec fn spec_can_access(reader: MetaVisibility, entry: MetaVisibility) -> bool {
    reader == MetaVisibility::Private || entry == MetaVisibility::Public
}

impl MetaVisibility {
    /// Check if `self` can access metadata with the given `visibility`.
    pub fn can_access(self, visibility: MetaVisibility) -> (allowed: bool)
        ensures
            allowed == spec_can_access(self, visibility),
    {
        match (self, visibility) {
            (MetaVisibility::Private, _) => true,
            (MetaVisibility::Public, MetaVisibility::Public) => true,
            (MetaVisibility::Public, MetaVisibility::Private) => false,
        }
    }
}

/// Access to metadata is ordered: every visibility can access its own entries, private readers can
/// access everything, public entries can be accessed by everyone, and what a public reader can
/// access a private reader can access too.
pub proof fn lemma_meta_access_order(a: MetaVisibility, b: MetaVisibility, c: MetaVisibility)
    ensures
        spec_can_access(a, a),
        spec_can_access(MetaVisibility::Private, b),
        spec_can_access(a, MetaVisibility::Public),
        spec_can_access(a, b) && spec_can_access(b, c) ==> spec_can_access(a, c),
        spec_can_access(MetaVisibility::Public, b) ==> spec_can_access(MetaVisibility::Private, b),
        !spec_can_access(MetaVisibility::Public, MetaVisibility::Private),
{
}

/// An entry in the MAF Meta API.
#[derive(Debug, Clone)]
pub struct MetaEntry {
    pub visibility: MetaVisibility,
    pub value: String,
}

impl MetaEntry {
    /// Get the visibility of the meta entry.
    pub fn visibility(&self) -> (visibility: &MetaVisibility)
        ensures
            *visibility == self.visibility,
    {
        &self.visibility
    }
}

/// A meta entry whose value is a JSON value.
#[derive(Debug)]
pub struct JsonMetaEntry {
    pub visibility: MetaVisibility,
    pub value: serde_json::Value,
}

/// An error of `serde_json`, carried through unchanged.
#[verifier::external_type_specification]
#[verifier::external_body]
pub struct ExJsonError(serde_json::Error);

/// The compact JSON text that `serde_json` writes for `value`.
pub uninterp spec fn json_text(value: serde_json::Value) -> Seq<char>;

/// `serde_json::to_string` of a JSON value. The serializer of `serde_json::Value` only fails on a
/// map with non-string keys, which a `Value` cannot hold, and writing into a `String` does not
/// fail, so the result is always `Ok`. The text is named by [`json_text`] and depends on the value
/// alone.
#[verifier::external_body]
fn json_to_string(value: &serde_json::Value) -> (text: Result<String, serde_json::Error>)
    ensures
        text is Ok,
        match text {
            Ok(t) => t@ == json_text(*value),
            Err(_) => true,
        },
{
    serde_json::to_string(value)
}

impl JsonMetaEntry {
    /// The entry with its value written as JSON text.
    pub fn serialize(&self) -> (entry: Result<MetaEntry, serde_json::Error>)
        ensures
            entry matches Ok(e) && e.visibility == self.visibility && e.value@ == json_text(
                self.value,
            ),
    {
        match json_to_string(&self.value) {
            Ok(value) => Ok(MetaEntry { visibility: self.visibility, value }),
            Err(e) => Err(e),
        }
    }
}

/// The query parameters of a connection request to a room.
pub struct ConnectQueryParams {
    /// A JWT token for authenticating the user connecting to the room. This token is only needed
    /// if the auth.mode in config for the room requires it.
    pub token: Option<String>,
}

} // verus!
