//! The keys a new room is registered under, and how concurrent requests to create the same room
//! are resolved.

use vstd::prelude::*;
use std::collections::HashMap;
use crate::maf_schemas::apps::{
    AppNameAndOrgSlug, JsonMetaEntry, RoomCreationStrategy, RoomId, RoomKey, RoomKeyAndApp,
};
use crate::server::app::App;
use crate::server::assoc::AssocList;
use crate::server::room_storage::KeyView;
use crate::text::to_owned_string;

verus! {

/// The lowercase hexadecimal digit of `d` (below 16).
pub open spec fn hex_digit(d: nat) -> char {
    if d < 10 {
        (48 + d) as char
    } else {
        (87 + d) as char
    }
}

/// The last `n` hexadecimal digits of `v`, most significant first.
pub open spec fn hex_digits(v: nat, n: nat) -> Seq<char>
    decreases n,
{
    if n == 0 {
        Seq::empty()
    } else {
        hex_digits(v / 16, (n - 1) as nat).push(hex_digit(v % 16))
    }
}

/// The text of a UUID in its hyphenated lowercase form, as `uuid::Uuid`'s `Display` writes it:
/// the 32 hexadecimal digits of its 128-bit value, most significant first, in groups of 8, 4, 4,
/// 4 and 12 joined by hyphens.
pub open spec fn uuid_text(id: u128) -> Seq<char> {
    let d = hex_digits(id as nat, 32);
    d.subrange(0, 8) + seq!['-'] + d.subrange(8, 12) + seq!['-'] + d.subrange(12, 16) + seq!['-']
        + d.subrange(16, 20) + seq!['-'] + d.subrange(20, 32)
}

/// The hyphenated lowercase text of the UUID whose 128-bit value is `id`
/// (`uuid::Uuid::from_u128(id).to_string()`, which reads the value's bytes most significant
/// first); see [`uuid_text`].
#[verifier::external_body]
pub(crate) fn uuid_to_string(id: u128) -> (text: String)
    ensures
        text@ == uuid_text(id),
{
    uuid::Uuid::from_u128(id).to_string()
}

/// The options of a request to create a room.
pub struct CreateRoomOptions<'a> {
    /// The app which this room belongs to.
    pub app: &'a App,
    pub creation_strategy: RoomCreationStrategy,
    /// If the room creation strategy is [`RoomCreationStrategy::AuthenticatedApiRequest`], this is
    /// the key that the service client specified for the room. If a custom room key is not
    /// specified, the room ID will be used as the only key.
    ///
    /// If the room creation strategy is [`RoomCreationStrategy::AutoCreate`], this should be
    /// `None`, and the room will be created with [`RoomKey::Default`] as its only key.
    pub room_key: Option<String>,
    /// Optional meta information to be stored in the room's meta storage.
    pub meta: Option<HashMap<String, JsonMetaEntry>>,
}

/// What a request to create a room does when the same room is already being created.
#[derive(Debug, Clone, Copy, PartialEq, Eq, Structural)]
pub enum ConcurrentCreation {
    /// Wait for the other creation to finish and return the room it created.
    WaitForRoom,
    /// Fail: the key is already being used by another creation.
    Reject,
}

impl<'a> CreateRoomOptions<'a> {
    /// The key under which concurrent creations of the same room are detected: the default key of
    /// the app for auto-created rooms (there is only one per app), the requested custom key for
    /// API-created rooms, and none for API-created rooms without a key.
    pub fn pending_key(&self) -> (key: Option<RoomKeyAndApp>)
        ensures
            self.creation_strategy == RoomCreationStrategy::AutoCreate ==> (key matches Some(k)
                && k.app_id.app@ == self.app.spec_name() && k.app_id.org@ == self.app.spec_org()
                && k.key == RoomKey::Default),
            self.creation_strategy == RoomCreationStrategy::AuthenticatedApiRequest ==> match self.room_key {
                Some(rk) => (key matches Some(k) && k.app_id.app@ == self.app.spec_name()
                    && k.app_id.org@ == self.app.spec_org() && k.key@ == Some(rk@)),
                None => key is None,
            },
    {
        match self.creation_strategy {
            RoomCreationStrategy::AutoCreate => Some(
                self.app.app_name_and_org_slug().with_room_key(RoomKey::Default),
            ),
            RoomCreationStrategy::AuthenticatedApiRequest => match &self.room_key {
                Some(key) => Some(
                    self.app.app_name_and_org_slug().with_room_key(RoomKey::Custom(key.clone())),
                ),
                None => None,
            },
        }
    }

    /// The keys of the new room besides the one made from its identifier: the default key for an
    /// auto-created room, the requested custom key (if any) for an API-created one.
    pub fn extra_keys(&self) -> (keys: Vec<RoomKey>)
        ensures
            self.creation_strategy == RoomCreationStrategy::AutoCreate ==> keys@ == seq![
                RoomKey::Default,
            ],
            self.creation_strategy == RoomCreationStrategy::AuthenticatedApiRequest ==> match self.room_key {
                Some(rk) => keys@.len() == 1 && keys@[0]@ == Some(rk@),
                None => keys@.len() == 0,
            },
    {
        let mut keys: Vec<RoomKey> = Vec::new();
        match self.creation_strategy {
            RoomCreationStrategy::AutoCreate => {
                keys.push(RoomKey::Default);
            },
            RoomCreationStrategy::AuthenticatedApiRequest => match &self.room_key {
                Some(key) => {
                    keys.push(RoomKey::Custom(key.clone()));
                },
                None => {},
            },
        }
        keys
    }
}

/// What a creation request does when the same room is being created: auto-created rooms are
/// waited for, API-created keys are refused.
pub fn on_concurrent_creation(strategy: RoomCreationStrategy) -> (action: ConcurrentCreation)
    ensures
        action == if strategy == RoomCreationStrategy::AutoCreate {
            ConcurrentCreation::WaitForRoom
        } else {
            ConcurrentCreation::Reject
        },
{
    match strategy {
        RoomCreationStrategy::AutoCreate => ConcurrentCreation::WaitForRoom,
        RoomCreationStrategy::AuthenticatedApiRequest => ConcurrentCreation::Reject,
    }
}

/// What a request to create a room does about the creations in progress.
#[derive(Debug, Clone, Copy, PartialEq, Eq, Structural)]
pub enum CreationClaim {
    /// No creation of the room is in progress: this request creates it, and later requests for
    /// the same room see it in progress until it is released.
    Proceed,
    /// The room is being created by another request: this one waits for it and then returns it.
    WaitForRoom,
    /// The room is being created by another request: this one is refused.
    Reject,
}

/// The decision on a creation request for a room whose creation is in progress (`in_progress`),
/// or not.
pub open spec fn claim_decision(in_progress: bool, strategy: RoomCreationStrategy) -> CreationClaim {
    if !in_progress {
        CreationClaim::Proceed
    } else if strategy == RoomCreationStrategy::AutoCreate {
        CreationClaim::WaitForRoom
    } else {
        CreationClaim::Reject
    }
}

/// The rooms (by app and key) whose creation is in progress.
pub struct PendingCreations {
    pending: AssocList<RoomKeyAndApp, ()>,
}

impl PendingCreations {
    /// The app and key of each room being created.
    pub closed spec fn keys(&self) -> Set<KeyView> {
        self.pending.map().dom()
    }

    /// The list behind the set is well formed.
    pub closed spec fn wf(&self) -> bool {
        self.pending.wf()
    }

    /// No creation in progress.
    pub fn new() -> (pending: Self)
        ensures
            pending.wf(),
            pending.keys() == Set::<KeyView>::empty(),
    {
        PendingCreations { pending: AssocList::new() }
    }

    /// Decides a request, made with `strategy`, to create the room `key`: it proceeds, and the
    /// room is then in progress, if no creation of it is in progress; otherwise it waits or is
    /// refused (see [`on_concurrent_creation`]) and nothing changes.
    pub fn claim(&mut self, key: &RoomKeyAndApp, strategy: RoomCreationStrategy) -> (decision:
        CreationClaim)
        requires
            old(self).wf(),
        ensures
            final(self).wf(),
            decision == claim_decision(old(self).keys().contains(key@), strategy),
            final(self).keys() == if decision == CreationClaim::Proceed {
                old(self).keys().insert(key@)
            } else {
                old(self).keys()
            },
    {
        match self.pending.find(key) {
            Some(_) => match on_concurrent_creation(strategy) {
                ConcurrentCreation::WaitForRoom => CreationClaim::WaitForRoom,
                ConcurrentCreation::Reject => CreationClaim::Reject,
            },
            None => {
                let copy = RoomKeyAndApp { app_id: key.app_id.duplicate(), key: key.key.duplicate() };
                self.pending.insert(copy, ());
                proof {
                    assert(self.keys() =~= old(self).keys().insert(key@));
                }
                CreationClaim::Proceed
            },
        }
    }

    /// Marks the creation of the room `key` as finished, whether it succeeded or not.
    pub fn release(&mut self, key: &RoomKeyAndApp)
        requires
            old(self).wf(),
        ensures
            final(self).wf(),
            final(self).keys() == old(self).keys().remove(key@),
    {
        match self.pending.find(key) {
            Some(i) => {
                self.pending.remove_at(i);
                proof {
                    assert(self.keys() =~= old(self).keys().remove(key@));
                }
            },
            None => {
                proof {
                    assert(self.keys() =~= old(self).keys().remove(key@));
                }
            },
        }
    }
}

/// At most one creation of a room is in progress: once a request for a room proceeds, every
/// further request for it waits (auto-created rooms) or is refused (API-created rooms) until the
/// creation is released, after which a request proceeds again.
pub proof fn lemma_one_creation_at_a_time(
    keys: Set<KeyView>,
    key: KeyView,
    first: RoomCreationStrategy,
    second: RoomCreationStrategy,
)
    requires
        claim_decision(keys.contains(key), first) == CreationClaim::Proceed,
    ensures
        claim_decision(keys.insert(key).contains(key), second) != CreationClaim::Proceed,
        claim_decision(keys.insert(key).contains(key), second) == if second
            == RoomCreationStrategy::AutoCreate {
            CreationClaim::WaitForRoom
        } else {
            CreationClaim::Reject
        },
        claim_decision(keys.insert(key).remove(key).contains(key), second)
            == CreationClaim::Proceed,
{
}

/// All keys of a room with identifier `id`: first the key made from the identifier's text, then
/// the extra keys in order.
pub fn room_keys(id: RoomId, extra_keys: Vec<RoomKey>) -> (keys: Vec<RoomKey>)
    ensures
        keys@.len() == extra_keys@.len() + 1,
        keys@[0]@ == Some(uuid_text(id)),
        keys@.subrange(1, keys@.len() as int) == extra_keys@,
{
    let mut keys: Vec<RoomKey> = Vec::new();
    keys.push(RoomKey::Custom(uuid_to_string(id)));
    let mut extra = extra_keys;
    keys.append(&mut extra);
    proof {
        assert(keys@.subrange(1, keys@.len() as int) =~= extra_keys@);
    }
    keys
}

} // verus!
