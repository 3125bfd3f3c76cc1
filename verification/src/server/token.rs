//! The tokens that users present to join a room: JWTs signed by the app's server with the room's
//! secret, addressed to the room.

use vstd::prelude::*;
use biscuit::jwa::SignatureAlgorithm;
use biscuit::jws::Secret;
use biscuit::{ClaimsSet, SingleOrMultiple, JWT};
use crate::maf_schemas::apps::RoomId;
use crate::server::room::{uuid_text, uuid_to_string};
use crate::text::str_eq;

verus! {

/// The claims of a decoded JWT (`biscuit::ClaimsSet`), carried through unchanged.
#[verifier::external_type_specification]
#[verifier::external_body]
#[verifier::reject_recursive_types(T)]
pub struct ExClaimsSet<T>(ClaimsSet<T>);

/// What decoding `token` as a JWT signed with HS256 under the secret `secret` gives: `None` where
/// the token does not decode (it is malformed, its signature does not verify, its header names
/// another algorithm, or its parts do not parse), otherwise the audience of its registered claims
/// (`None` where it has none, the list of its values otherwise, a single value as a list of one)
/// and the decoded claims.
pub uninterp spec fn hs256_decoded(token: Seq<char>, secret: Seq<char>) -> Option<
    (Option<Seq<Seq<char>>>, ClaimsSet<ClaimsSet<serde_json::Value>>),
>;

/// The JSON value that `serde_json::to_value` makes of decoded claims, or `None` where it fails.
pub uninterp spec fn claims_json(claims: ClaimsSet<ClaimsSet<serde_json::Value>>) -> Option<
    serde_json::Value,
>;

/// The view of an audience list.
pub open spec fn audience_view(audience: Option<Vec<String>>) -> Option<Seq<Seq<char>>> {
    match audience {
        Some(values) => Some(Seq::new(values@.len(), |i: int| values@[i]@)),
        None => None,
    }
}

/// Whether an audience admits `room`: it exists and lists `room`.
pub open spec fn audience_admits(audience: Option<Seq<Seq<char>>>, room: Seq<char>) -> bool {
    audience matches Some(values) && values.contains(room)
}

/// Decodes `token` as a JWT signed with HS256 under `secret`, whose claims are read as claims with
/// further claims inside and whose header may carry JSON fields: `biscuit`'s
/// `JWT::<ClaimsSet<Value>, Value>::new_encoded(token)`, then
/// `decode(&Secret::bytes_from_str(secret), SignatureAlgorithm::HS256)`. Gives the audience of
/// the registered claims as a list, and the claims; both are named by [`hs256_decoded`] and
/// depend on the token and the secret alone.
#[verifier::external_body]
fn decode_hs256(token: &str, secret: &str) -> (decoded: Option<
    (Option<Vec<String>>, ClaimsSet<ClaimsSet<serde_json::Value>>),
>)
    ensures
        match decoded {
            None => hs256_decoded(token@, secret@) is None,
            Some((audience, claims)) => hs256_decoded(token@, secret@) == Some(
                (audience_view(audience), claims),
            ),
        },
{
    let jwt: JWT<ClaimsSet<serde_json::Value>, serde_json::Value> = JWT::new_encoded(token);
    let decoded = jwt.decode(&Secret::bytes_from_str(secret), SignatureAlgorithm::HS256).ok()?;
    let (_, claims) = decoded.unwrap_decoded();
    let audience = match claims.registered.audience.clone() {
        None => None,
        Some(SingleOrMultiple::Single(value)) => Some(vec![value]),
        Some(SingleOrMultiple::Multiple(values)) => Some(values),
    };
    Some((audience, claims))
}

/// The claims as a JSON value (`serde_json::to_value`), or the serializer's error; which of the
/// two, and the value, are named by [`claims_json`] and depend on the claims alone.
#[verifier::external_body]
fn claims_to_json(claims: &ClaimsSet<ClaimsSet<serde_json::Value>>) -> (value: Result<
    serde_json::Value,
    serde_json::Error,
>)
    ensures
        match value {
            Ok(v) => claims_json(*claims) == Some(v),
            Err(_) => claims_json(*claims) is None,
        },
{
    serde_json::to_value(claims)
}

/// Whether the audience `audience` of a token admits the room whose identifier reads `room`.
pub fn audience_admits_room(audience: &Option<Vec<String>>, room: &str) -> (admitted: bool)
    ensures
        admitted == audience_admits(audience_view(*audience), room@),
{
    match audience {
        None => false,
        Some(values) => {
            let ghost view = audience_view(*audience)->0;
            let mut i: usize = 0;
            while i < values.len()
                invariant
                    audience_view(*audience) == Some(view),
                    view == Seq::new(values@.len(), |j: int| values@[j]@),
                    0 <= i <= values@.len(),
                    forall|j: int| 0 <= j < i ==> view[j] != room@,
                decreases values@.len() - i,
            {
                if str_eq(values[i].as_str(), room) {
                    assert(view[i as int] == room@);
                    assert(view.contains(room@));
                    return true;
                }
                i = i + 1;
            }
            assert(!view.contains(room@)) by {
                if view.contains(room@) {
                    let j = choose|j: int| 0 <= j < view.len() && view[j] == room@;
                    assert(view[j] != room@);
                }
            }
            false
        },
    }
}

/// Why a room token was refused.
#[derive(Debug)]
pub enum TokenError {
    /// The token does not decode as a JWT signed with HS256 under the room's secret.
    Undecodable,
    /// The token's audience does not list the room.
    WrongAudience,
    /// The decoded claims could not be written as JSON.
    Reencode(serde_json::Error),
}

/// The text of a token refusal, as the connection route reports it after "invalid token: ".
pub open spec fn token_error_text(error: TokenError) -> Seq<char> {
    match error {
        TokenError::Undecodable => "failed to decode JWT"@,
        TokenError::WrongAudience => "invalid audience in JWT"@,
        TokenError::Reencode(_) => "failed to reencode JWT"@,
    }
}

/// What a token presented to the room with identifier `id` and secret `secret` gives: its claims
/// as JSON, or the text of the refusal.
pub open spec fn room_token_outcome(id: RoomId, secret: Seq<char>, token: Seq<char>) -> Result<
    serde_json::Value,
    Seq<char>,
> {
    match hs256_decoded(token, secret) {
        None => Err("failed to decode JWT"@),
        Some((audience, decoded)) => if !audience_admits(audience, uuid_text(id)) {
            Err("invalid audience in JWT"@)
        } else {
            match claims_json(decoded) {
                Some(v) => Ok(v),
                None => Err("failed to reencode JWT"@),
            }
        },
    }
}

impl TokenError {
    /// The text of this refusal (see [`token_error_text`]).
    pub fn text(&self) -> (text: &'static str)
        ensures
            text@ == token_error_text(*self),
    {
        match self {
            TokenError::Undecodable => "failed to decode JWT",
            TokenError::WrongAudience => "invalid audience in JWT",
            TokenError::Reencode(_) => "failed to reencode JWT",
        }
    }
}

/// Decodes a token presented to join the room with identifier `id` and secret `secret`: it must be
/// a JWT signed with HS256 under the secret whose audience lists the room's identifier. Gives the
/// token's claims as JSON.
pub fn decode_room_token(id: RoomId, secret: &str, token: &str) -> (claims: Result<
    serde_json::Value,
    TokenError,
>)
    ensures
        match hs256_decoded(token@, secret@) {
            None => claims matches Err(TokenError::Undecodable),
            Some((audience, decoded)) => if !audience_admits(audience, uuid_text(id)) {
                claims matches Err(TokenError::WrongAudience)
            } else {
                match claims_json(decoded) {
                    Some(v) => claims == Ok::<serde_json::Value, TokenError>(v),
                    None => claims matches Err(TokenError::Reencode(_)),
                }
            },
        },
        match room_token_outcome(id, secret@, token@) {
            Ok(v) => claims == Ok::<serde_json::Value, TokenError>(v),
            Err(text) => claims matches Err(e) && token_error_text(e) == text,
        },
{
    let (audience, decoded) = match decode_hs256(token, secret) {
        Some(d) => d,
        None => return Err(TokenError::Undecodable),
    };
    let room = uuid_to_string(id);
    if !audience_admits_room(&audience, room.as_str()) {
        return Err(TokenError::WrongAudience);
    }
    match claims_to_json(&decoded) {
        Ok(value) => Ok(value),
        Err(e) => Err(TokenError::Reencode(e)),
    }
}

} // verus!
