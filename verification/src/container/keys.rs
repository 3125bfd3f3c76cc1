//! The additional room keys that room code may add for its own room.

use vstd::prelude::*;
use crate::maf_schemas::apps::MAX_ROOM_KEY_LENGTH;
use crate::text::{byte_len, utf8_len};

verus! {

/// The maximum number of additional room keys that can be added by room code.
pub const MAX_ADDITIONAL_KEYS: u8 = 1;

/// Why a key could not be added.
#[derive(Debug, Clone, Copy, PartialEq, Eq, Structural)]
pub enum AddKeyError {
    /// The room already has all the additional keys it may have.
    MaxKeysReached,
    /// The key is empty or longer than [`MAX_ROOM_KEY_LENGTH`] bytes.
    InvalidKey,
    /// The key could not be registered.
    Other,
}

/// The refusal of a request to add `key` when `added` keys have been added already, if any.
pub open spec fn add_key_refusal(added: u8, key: Seq<char>) -> Option<AddKeyError> {
    if added >= MAX_ADDITIONAL_KEYS {
        Some(AddKeyError::MaxKeysReached)
    } else if key.len() == 0 || utf8_len(key) > MAX_ROOM_KEY_LENGTH {
        Some(AddKeyError::InvalidKey)
    } else {
        None
    }
}

/// The count of additional keys added by a room's code since its container was created.
#[derive(Debug)]
pub struct AdditionalKeys {
    num_additional_keys: u8,
}

impl AdditionalKeys {
    /// The number of additional keys added so far.
    pub closed spec fn added(&self) -> u8 {
        self.num_additional_keys
    }

    /// No key added yet.
    pub fn new() -> (keys: Self)
        ensures
            keys.added() == 0,
    {
        AdditionalKeys { num_additional_keys: 0 }
    }

    /// The number of additional keys added so far.
    pub fn count(&self) -> (count: u8)
        ensures
            count == self.added(),
    {
        self.num_additional_keys
    }

    /// Accepts a request to add `key`, counting it, or refuses it (see [`add_key_refusal`]) and
    /// counts nothing. An accepted key is then handed to the room storage, whose answer is what
    /// the room code receives.
    pub fn accept_key(&mut self, key: &str) -> (result: Result<(), AddKeyError>)
        ensures
            match add_key_refusal(old(self).added(), key@) {
                Some(e) => result == Err::<(), AddKeyError>(e) && final(self).added() == old(
                    self,
                ).added(),
                None => result is Ok && final(self).added() == old(self).added() + 1,
            },
            old(self).added() <= MAX_ADDITIONAL_KEYS ==> final(self).added() <= MAX_ADDITIONAL_KEYS,
    {
        if self.num_additional_keys >= MAX_ADDITIONAL_KEYS {
            return Err(AddKeyError::MaxKeysReached);
        }
        if key.is_empty() || byte_len(key) > MAX_ROOM_KEY_LENGTH {
            return Err(AddKeyError::InvalidKey);
        }
        self.num_additional_keys = self.num_additional_keys + 1;
        Ok(())
    }
}

/// Room code can add at most [`MAX_ADDITIONAL_KEYS`] keys: once that many are added, every
/// further request is refused.
pub proof fn lemma_additional_keys_bounded(added: u8, key: Seq<char>)
    requires
        added >= MAX_ADDITIONAL_KEYS,
    ensures
        add_key_refusal(added, key) == Some(AddKeyError::MaxKeysReached),
{
}

} // verus!
