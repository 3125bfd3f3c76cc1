//! The bookkeeping of all live rooms on a server: rooms by identifier, the auto-created room of
//! each app, the API-created rooms of each app, rooms by app and key, and all rooms of each app.
//!
//! The maps hold the rooms as values of a type parameter; the server keeps its live room handles
//! there and serializes access to the maps.

use vstd::prelude::*;
use crate::maf_schemas::apps::{AppNameAndOrgSlug, RoomCreationStrategy, RoomId, RoomKey, RoomKeyAndApp};
use crate::server::assoc::{without_value, AssocList, IdSet, IndexKey};
use crate::server::room::uuid_text;

verus! {

impl IndexKey for AppNameAndOrgSlug {
    fn same_key(&self, other: &Self) -> (same: bool) {
        self.same_as(other)
    }
}

impl IndexKey for RoomKeyAndApp {
    fn same_key(&self, other: &Self) -> (same: bool) {
        self.app_id.same_as(&other.app_id) && self.key.same_as(&other.key)
    }
}

/// The view of an app identifier: its name and organization slug.
pub type AppView = (Seq<char>, Seq<char>);

/// The view of a room key and its app.
pub type KeyView = (AppView, Option<Seq<char>>);

/// A live room: the app it belongs to, its keys, the strategy it was created with and the room
/// itself.
pub struct RoomData<V> {
    pub app: AppNameAndOrgSlug,
    pub keys: Vec<RoomKey>,
    pub strategy: RoomCreationStrategy,
    pub room: V,
}

/// The set stored under `a` in `m`, or the empty set.
pub open spec fn set_of(m: Map<AppView, Set<RoomId>>, a: AppView) -> Set<RoomId> {
    if m.contains_key(a) {
        m[a]
    } else {
        Set::empty()
    }
}

/// Whether `k` is one of the keys `keys` of a room of app `app`.
pub open spec fn is_room_key(k: KeyView, app: AppView, keys: Seq<RoomKey>) -> bool {
    k.0 == app && exists|i: int| 0 <= i < keys.len() && (#[trigger] keys[i])@ == k.1
}

/// `m` with every key of `keys` (for app `app`) mapped to `id`.
pub open spec fn with_keys(
    m: Map<KeyView, RoomId>,
    app: AppView,
    keys: Seq<RoomKey>,
    id: RoomId,
) -> Map<KeyView, RoomId> {
    Map::new(
        |k: KeyView| m.contains_key(k) || is_room_key(k, app, keys),
        |k: KeyView|
            if is_room_key(k, app, keys) {
                id
            } else {
                m[k]
            },
    )
}

/// The sets of a map of identifier sets.
pub open spec fn set_view(m: Map<AppView, IdSet>) -> Map<AppView, Set<RoomId>> {
    Map::new(|k: AppView| m.contains_key(k), |k: AppView| m[k]@)
}

/// Every set of a map of identifier sets is well formed.
pub open spec fn sets_wf(m: Map<AppView, IdSet>) -> bool {
    forall|k: AppView| #[trigger] m.contains_key(k) ==> m[k].wf()
}

/// Adds `id` to the set stored under `app`, storing a new set if there is none.
fn add_to_set(list: &mut AssocList<AppNameAndOrgSlug, IdSet>, app: AppNameAndOrgSlug, id: RoomId)
    requires
        old(list).wf(),
        sets_wf(old(list).map()),
    ensures
        final(list).wf(),
        sets_wf(final(list).map()),
        set_view(final(list).map()) == set_view(old(list).map()).insert(
            app@,
            set_of(set_view(old(list).map()), app@).insert(id),
        ),
{
    let ghost old_map = list.map();
    match list.find(&app) {
        Some(i) => {
            let mut set = list.replace_value(i, IdSet::new());
            set.insert(id);
            list.replace_value(i, set);
        },
        None => {
            let mut set = IdSet::new();
            set.insert(id);
            list.insert(app, set);
        },
    }
    proof {
        assert(set_view(list.map()) =~= set_view(old_map).insert(
            app@,
            set_of(set_view(old_map), app@).insert(id),
        ));
    }
}

/// Removes `id` from the set stored under `app`. Where there is no such set, an empty one is
/// stored if `or_default` holds, and nothing changes otherwise.
fn remove_from_set(
    list: &mut AssocList<AppNameAndOrgSlug, IdSet>,
    app: &AppNameAndOrgSlug,
    id: RoomId,
    or_default: bool,
)
    requires
        old(list).wf(),
        sets_wf(old(list).map()),
    ensures
        final(list).wf(),
        sets_wf(final(list).map()),
        set_view(final(list).map()) == if or_default || old(list).map().contains_key(app@) {
            set_view(old(list).map()).insert(app@, set_of(set_view(old(list).map()), app@).remove(id))
        } else {
            set_view(old(list).map())
        },
{
    let ghost old_map = list.map();
    match list.find(app) {
        Some(i) => {
            let mut set = list.replace_value(i, IdSet::new());
            set.remove(id);
            list.replace_value(i, set);
        },
        None => {
            if or_default {
                list.insert(app.duplicate(), IdSet::new());
                assert(Set::<RoomId>::empty().remove(id) =~= Set::<RoomId>::empty());
            }
        },
    }
    proof {
        if or_default || old_map.contains_key(app@) {
            assert(set_view(list.map()) =~= set_view(old_map).insert(
                app@,
                set_of(set_view(old_map), app@).remove(id),
            ));
        } else {
            assert(set_view(list.map()) =~= set_view(old_map));
        }
    }
}

/// Maps every key of `keys` (for app `app`) to `id`.
fn insert_keys(
    list: &mut AssocList<RoomKeyAndApp, RoomId>,
    app: &AppNameAndOrgSlug,
    keys: &Vec<RoomKey>,
    id: RoomId,
)
    requires
        old(list).wf(),
    ensures
        final(list).wf(),
        final(list).map() == with_keys(old(list).map(), app@, keys@, id),
{
    let ghost old_keys = list.map();
    let ghost app_view = app@;
    proof {
        assert(with_keys(old_keys, app_view, keys@.subrange(0, 0), id) =~= old_keys);
    }
    let mut i: usize = 0;
    while i < keys.len()
        invariant
            list.wf(),
            app@ == app_view,
            0 <= i <= keys@.len(),
            list.map() == with_keys(old_keys, app_view, keys@.subrange(0, i as int), id),
        decreases keys@.len() - i,
    {
        let key_and_app = app.with_room_key(keys[i].duplicate());
        assert(key_and_app@ == (app_view, keys@[i as int]@));
        list.insert(key_and_app, id);
        proof {
            let before = with_keys(old_keys, app_view, keys@.subrange(0, i as int), id);
            let after = with_keys(old_keys, app_view, keys@.subrange(0, i + 1), id);
            assert forall|k: KeyView|
                is_room_key(k, app_view, keys@.subrange(0, i + 1)) == (is_room_key(
                    k,
                    app_view,
                    keys@.subrange(0, i as int),
                ) || k == (app_view, keys@[i as int]@)) by {
                if is_room_key(k, app_view, keys@.subrange(0, i + 1)) {
                    let j = choose|j: int|
                        0 <= j < i + 1 && (#[trigger] keys@.subrange(0, i + 1)[j])@ == k.1;
                    if j < i {
                        assert(keys@.subrange(0, i as int)[j] == keys@.subrange(0, i + 1)[j]);
                    }
                }
                if is_room_key(k, app_view, keys@.subrange(0, i as int)) {
                    let j = choose|j: int|
                        0 <= j < i && (#[trigger] keys@.subrange(0, i as int)[j])@ == k.1;
                    assert(keys@.subrange(0, i + 1)[j] == keys@.subrange(0, i as int)[j]);
                }
                if k == (app_view, keys@[i as int]@) {
                    assert(keys@.subrange(0, i + 1)[i as int] == keys@[i as int]);
                }
            }
            let kv = (app_view, keys@[i as int]@);
            assert(list.map() == before.insert(kv, id));
            assert(keys@.subrange(0, i + 1)[i as int] == keys@[i as int]);
            assert(is_room_key(kv, app_view, keys@.subrange(0, i + 1)));
            assert forall|k: KeyView| #[trigger] list.map().contains_key(k) == after.contains_key(k) by {
                if is_room_key(k, app_view, keys@.subrange(0, i + 1)) {
                } else {
                }
            }
            assert forall|k: KeyView| #[trigger]
                list.map().contains_key(k) implies list.map()[k] == after[k] by {
                if k == kv {
                    assert(is_room_key(k, app_view, keys@.subrange(0, i + 1)));
                } else if is_room_key(k, app_view, keys@.subrange(0, i + 1)) {
                    assert(is_room_key(k, app_view, keys@.subrange(0, i as int)));
                } else {
                    assert(!is_room_key(k, app_view, keys@.subrange(0, i as int)));
                }
            }
            assert(list.map() =~= after);
        }
        i = i + 1;
    }
    proof {
        assert(keys@.subrange(0, keys@.len() as int) =~= keys@);
    }
}

/// The abstract content of [`RoomMaps`].
pub struct RoomMapsView<V> {
    /// The rooms by identifier.
    pub rooms: Map<RoomId, RoomData<V>>,
    /// The auto-created room of each app.
    pub auto_created: Map<AppView, RoomId>,
    /// The API-created rooms of each app.
    pub api_created: Map<AppView, Set<RoomId>>,
    /// The room of each app and room key.
    pub keys: Map<KeyView, RoomId>,
    /// The rooms of each app.
    pub app_rooms: Map<AppView, Set<RoomId>>,
}

/// The room with identifier `id`.
pub open spec fn spec_get<V>(v: RoomMapsView<V>, id: RoomId) -> Option<V> {
    if v.rooms.contains_key(id) {
        Some(v.rooms[id].room)
    } else {
        None
    }
}

/// The room of app `app` with key `key`.
pub open spec fn spec_get_by_key<V>(v: RoomMapsView<V>, app: AppView, key: Option<Seq<char>>) -> Option<V> {
    if v.keys.contains_key((app, key)) {
        spec_get(v, v.keys[(app, key)])
    } else {
        None
    }
}

/// The room auto-created for app `app`.
pub open spec fn spec_get_autocreated<V>(v: RoomMapsView<V>, app: AppView) -> Option<V> {
    if v.auto_created.contains_key(app) {
        spec_get(v, v.auto_created[app])
    } else {
        None
    }
}

/// The maps after registering room `room` with identifier `id` for app `app` under keys `keys`,
/// created with strategy `strategy`.
pub open spec fn spec_insert_room<V>(
    v: RoomMapsView<V>,
    id: RoomId,
    app: AppNameAndOrgSlug,
    keys: Vec<RoomKey>,
    strategy: RoomCreationStrategy,
    room: V,
) -> RoomMapsView<V> {
    RoomMapsView {
        rooms: v.rooms.insert(id, RoomData { app, keys, strategy, room }),
        auto_created: if strategy == RoomCreationStrategy::AutoCreate {
            v.auto_created.insert(app@, id)
        } else {
            v.auto_created
        },
        api_created: if strategy == RoomCreationStrategy::AuthenticatedApiRequest {
            v.api_created.insert(app@, set_of(v.api_created, app@).insert(id))
        } else {
            v.api_created
        },
        keys: with_keys(v.keys, app@, keys@, id),
        app_rooms: v.app_rooms.insert(app@, set_of(v.app_rooms, app@).insert(id)),
    }
}

/// The maps after removing the room with identifier `id`, which must be present: it leaves the
/// rooms, the rooms of its app (where that app has no set yet, an empty one is stored), the
/// API-created rooms of its app (where that app has a set), and every key and auto-created entry
/// that names it.
pub open spec fn spec_remove<V>(v: RoomMapsView<V>, id: RoomId) -> RoomMapsView<V> {
    let app = v.rooms[id].app@;
    RoomMapsView {
        rooms: v.rooms.remove(id),
        auto_created: without_value(v.auto_created, id),
        api_created: if v.api_created.contains_key(app) {
            v.api_created.insert(app, v.api_created[app].remove(id))
        } else {
            v.api_created
        },
        keys: without_value(v.keys, id),
        app_rooms: v.app_rooms.insert(app, set_of(v.app_rooms, app).remove(id)),
    }
}

/// Whether room `id` is present, belongs to app `app` and, where `api_only`, was created through
/// the API.
pub open spec fn room_matches<V>(v: RoomMapsView<V>, id: RoomId, app: AppView, api_only: bool) -> bool {
    &&& v.rooms.contains_key(id)
    &&& v.rooms[id].app@ == app
    &&& (api_only ==> v.rooms[id].strategy == RoomCreationStrategy::AuthenticatedApiRequest)
}

/// The rooms listed for app `app` that are present and belong to it.
pub open spec fn spec_rooms_for_app<V>(v: RoomMapsView<V>, app: AppView) -> Set<RoomId> {
    set_of(v.app_rooms, app).filter(|id: RoomId| room_matches(v, id, app, false))
}

/// The rooms listed as API-created for app `app` that are present, belong to it and were created
/// through the API.
pub open spec fn spec_api_rooms_for_app<V>(v: RoomMapsView<V>, app: AppView) -> Set<RoomId> {
    set_of(v.api_created, app).filter(|id: RoomId| room_matches(v, id, app, true))
}

/// Every room that is present and belongs to app `app`.
pub open spec fn live_rooms_of_app<V>(v: RoomMapsView<V>, app: AppView) -> Set<RoomId> {
    Set::new(|id: RoomId| room_matches(v, id, app, false))
}

/// Every room that is present, belongs to app `app` and was created through the API.
pub open spec fn live_api_rooms_of_app<V>(v: RoomMapsView<V>, app: AppView) -> Set<RoomId> {
    Set::new(|id: RoomId| room_matches(v, id, app, true))
}

/// Every present room is listed among the rooms of its app, and, where it was created through the
/// API, among the API-created rooms of its app.
pub open spec fn rooms_listed<V>(v: RoomMapsView<V>) -> bool {
    forall|id: RoomId| #[trigger]
        v.rooms.contains_key(id) ==> {
            &&& set_of(v.app_rooms, v.rooms[id].app@).contains(id)
            &&& (v.rooms[id].strategy == RoomCreationStrategy::AuthenticatedApiRequest ==> set_of(
                v.api_created,
                v.rooms[id].app@,
            ).contains(id))
        }
}

/// Where every present room is listed, the rooms listed for an app are exactly its present rooms,
/// and its API-created ones exactly its present rooms created through the API.
pub proof fn lemma_listing_is_exact<V>(v: RoomMapsView<V>, app: AppView)
    requires
        rooms_listed(v),
    ensures
        spec_rooms_for_app(v, app) == live_rooms_of_app(v, app),
        spec_api_rooms_for_app(v, app) == live_api_rooms_of_app(v, app),
{
    assert forall|id: RoomId| #[trigger] live_rooms_of_app(v, app).contains(id) implies spec_rooms_for_app(v, app).contains(id) by {
        assert(v.rooms.contains_key(id));
    }
    assert forall|id: RoomId| #[trigger] live_api_rooms_of_app(v, app).contains(id) implies spec_api_rooms_for_app(v, app).contains(id) by {
        assert(v.rooms.contains_key(id));
    }
    assert(spec_rooms_for_app(v, app) =~= live_rooms_of_app(v, app));
    assert(spec_api_rooms_for_app(v, app) =~= live_api_rooms_of_app(v, app));
}

/// The room with identifier `id`, where it belongs to app `app`.
pub open spec fn spec_get_for_app<V>(v: RoomMapsView<V>, id: RoomId, app: AppView) -> Option<V> {
    if v.rooms.contains_key(id) && v.rooms[id].app@ == app {
        Some(v.rooms[id].room)
    } else {
        None
    }
}

/// Every key and every auto-created entry names a room that is present.
pub open spec fn lookups_consistent<V>(v: RoomMapsView<V>) -> bool {
    &&& forall|k: KeyView| #[trigger] v.keys.contains_key(k) ==> v.rooms.contains_key(v.keys[k])
    &&& forall|a: AppView| #[trigger]
        v.auto_created.contains_key(a) ==> v.rooms.contains_key(v.auto_created[a])
}

/// All rooms on a server, looked up by identifier, by key and by app.
pub struct RoomMaps<V> {
    /// All rooms on the server, by their unique [`RoomId`].
    rooms: AssocList<RoomId, RoomData<V>>,
    /// The room that was automatically created for each app created with the
    /// [`RoomCreationStrategy::AutoCreate`] strategy.
    auto_created_rooms: AssocList<AppNameAndOrgSlug, RoomId>,
    /// The rooms created for each app through the MAF Platform API.
    api_created_rooms: AssocList<AppNameAndOrgSlug, IdSet>,
    /// The room of each app and room key.
    keys_to_rooms: AssocList<RoomKeyAndApp, RoomId>,
    /// All rooms created for each app.
    app_to_rooms: AssocList<AppNameAndOrgSlug, IdSet>,
}

impl<V> View for RoomMaps<V> {
    type V = RoomMapsView<V>;

    closed spec fn view(&self) -> RoomMapsView<V> {
        RoomMapsView {
            rooms: self.rooms_map(),
            auto_created: self.auto_map(),
            api_created: self.api_map(),
            keys: self.keys_map(),
            app_rooms: self.app_rooms_map(),
        }
    }
}

impl<V> RoomMaps<V> {
    /// The rooms by identifier.
    pub closed spec fn rooms_map(&self) -> Map<RoomId, RoomData<V>> {
        self.rooms.map()
    }

    /// The auto-created room of each app.
    pub closed spec fn auto_map(&self) -> Map<AppView, RoomId> {
        self.auto_created_rooms.map()
    }

    /// The API-created rooms of each app.
    pub closed spec fn api_map(&self) -> Map<AppView, Set<RoomId>> {
        set_view(self.api_created_rooms.map())
    }

    /// The room of each app and room key.
    pub closed spec fn keys_map(&self) -> Map<KeyView, RoomId> {
        self.keys_to_rooms.map()
    }

    /// The rooms of each app.
    pub closed spec fn app_rooms_map(&self) -> Map<AppView, Set<RoomId>> {
        set_view(self.app_to_rooms.map())
    }

    /// The maps are well formed, every key and every auto-created room names a live room, and
    /// every live room is listed under its app (and, where created through the API, among the
    /// API-created rooms of its app).
    pub closed spec fn wf(&self) -> bool {
        &&& self.rooms.wf()
        &&& self.auto_created_rooms.wf()
        &&& self.api_created_rooms.wf()
        &&& self.keys_to_rooms.wf()
        &&& self.app_to_rooms.wf()
        &&& sets_wf(self.api_created_rooms.map())
        &&& sets_wf(self.app_to_rooms.map())
        &&& forall|k: KeyView| #[trigger]
            self.keys_map().contains_key(k) ==> self.rooms_map().contains_key(self.keys_map()[k])
        &&& forall|a: AppView| #[trigger]
            self.auto_map().contains_key(a) ==> self.rooms_map().contains_key(self.auto_map()[a])
        &&& rooms_listed(self@)
    }

    /// In well-formed maps every key and every auto-created entry names a room that is present,
    /// and every present room is listed under its app.
    pub proof fn lemma_wf_consistent(&self)
        requires
            self.wf(),
        ensures
            lookups_consistent(self@),
            rooms_listed(self@),
    {
    }

    /// Empty maps.
    pub fn new() -> (maps: Self)
        ensures
            maps.wf(),
            maps.rooms_map() == Map::<RoomId, RoomData<V>>::empty(),
            maps.auto_map() == Map::<AppView, RoomId>::empty(),
            maps.api_map() == Map::<AppView, Set<RoomId>>::empty(),
            maps.keys_map() == Map::<KeyView, RoomId>::empty(),
            maps.app_rooms_map() == Map::<AppView, Set<RoomId>>::empty(),
            maps@.rooms == Map::<RoomId, RoomData<V>>::empty(),
            maps@.keys == Map::<KeyView, RoomId>::empty(),
            maps@.auto_created == Map::<AppView, RoomId>::empty(),
            maps@.api_created == Map::<AppView, Set<RoomId>>::empty(),
            maps@.app_rooms == Map::<AppView, Set<RoomId>>::empty(),
    {
        let maps = RoomMaps {
            rooms: AssocList::new(),
            auto_created_rooms: AssocList::new(),
            api_created_rooms: AssocList::new(),
            keys_to_rooms: AssocList::new(),
            app_to_rooms: AssocList::new(),
        };
        assert(maps.api_map() =~= Map::<AppView, Set<RoomId>>::empty());
        assert(maps.app_rooms_map() =~= Map::<AppView, Set<RoomId>>::empty());
        assert(maps.rooms_map() =~= Map::<RoomId, RoomData<V>>::empty());
        maps
    }

    /// Registers a newly created room under its identifier, its app, each of its keys, and as the
    /// auto-created or an API-created room of its app, following the strategy it was created with.
    pub fn insert_room(
        &mut self,
        id: RoomId,
        app: AppNameAndOrgSlug,
        keys: Vec<RoomKey>,
        strategy: RoomCreationStrategy,
        room: V,
    )
        requires
            old(self).wf(),
        ensures
            final(self).wf(),
            final(self).rooms_map() == old(self).rooms_map().insert(
                id,
                RoomData { app, keys, strategy, room },
            ),
            final(self).app_rooms_map() == old(self).app_rooms_map().insert(
                app@,
                set_of(old(self).app_rooms_map(), app@).insert(id),
            ),
            final(self).auto_map() == if strategy == RoomCreationStrategy::AutoCreate {
                old(self).auto_map().insert(app@, id)
            } else {
                old(self).auto_map()
            },
            final(self).api_map() == if strategy == RoomCreationStrategy::AuthenticatedApiRequest {
                old(self).api_map().insert(app@, set_of(old(self).api_map(), app@).insert(id))
            } else {
                old(self).api_map()
            },
            final(self).keys_map() == with_keys(old(self).keys_map(), app@, keys@, id),
            final(self)@ == spec_insert_room(old(self)@, id, app, keys, strategy, room),
            lookups_consistent(final(self)@),
    {
        let ghost app_view = app@;
        let ghost key_seq = keys@;
        add_to_set(&mut self.app_to_rooms, app.duplicate(), id);
        match strategy {
            RoomCreationStrategy::AutoCreate => {
                self.auto_created_rooms.insert(app.duplicate(), id);
            },
            RoomCreationStrategy::AuthenticatedApiRequest => {
                add_to_set(&mut self.api_created_rooms, app.duplicate(), id);
            },
        }
        insert_keys(&mut self.keys_to_rooms, &app, &keys, id);
        self.rooms.insert(id, RoomData { app, keys, strategy, room });
        proof {
            assert forall|k: KeyView| #[trigger]
                self.keys_map().contains_key(k) implies self.rooms_map().contains_key(
                self.keys_map()[k],
            ) by {
                if !is_room_key(k, app_view, key_seq) {
                    assert(old(self).keys_map().contains_key(k));
                }
            }
            assert forall|a: AppView| #[trigger]
                self.auto_map().contains_key(a) implies self.rooms_map().contains_key(
                self.auto_map()[a],
            ) by {
                if a != app_view || strategy != RoomCreationStrategy::AutoCreate {
                    assert(old(self).auto_map().contains_key(a));
                }
            }
            assert forall|r: RoomId| #[trigger] self@.rooms.contains_key(r) implies {
                &&& set_of(self@.app_rooms, self@.rooms[r].app@).contains(r)
                &&& (self@.rooms[r].strategy == RoomCreationStrategy::AuthenticatedApiRequest
                    ==> set_of(self@.api_created, self@.rooms[r].app@).contains(r))
            } by {
                if r != id {
                    assert(old(self)@.rooms.contains_key(r));
                    assert(self@.rooms[r] == old(self)@.rooms[r]);
                }
            }
        }
    }

    /// Removes the room with identifier `id` from all maps and gives it back, or gives back `None`
    /// and changes nothing if there is no such room.
    ///
    /// The room leaves the rooms of its app (where that app has no set yet, an empty one is
    /// stored), the API-created rooms of its app (where that app has a set), and every key and
    /// auto-created entry that names it.
    pub fn remove(&mut self, id: RoomId) -> (removed: Option<V>)
        requires
            old(self).wf(),
        ensures
            final(self).wf(),
            !old(self).rooms_map().contains_key(id) ==> {
                &&& removed is None
                &&& final(self).rooms_map() == old(self).rooms_map()
                &&& final(self).auto_map() == old(self).auto_map()
                &&& final(self).api_map() == old(self).api_map()
                &&& final(self).keys_map() == old(self).keys_map()
                &&& final(self).app_rooms_map() == old(self).app_rooms_map()
            },
            old(self).rooms_map().contains_key(id) ==> {
                let app = old(self).rooms_map()[id].app@;
                &&& removed == Some(old(self).rooms_map()[id].room)
                &&& final(self).rooms_map() == old(self).rooms_map().remove(id)
                &&& final(self).app_rooms_map() == old(self).app_rooms_map().insert(
                    app,
                    set_of(old(self).app_rooms_map(), app).remove(id),
                )
                &&& final(self).auto_map() == without_value(old(self).auto_map(), id)
                &&& final(self).api_map() == if old(self).api_map().contains_key(app) {
                    old(self).api_map().insert(app, old(self).api_map()[app].remove(id))
                } else {
                    old(self).api_map()
                }
                &&& final(self).keys_map() == without_value(old(self).keys_map(), id)
            },
            old(self)@.rooms.contains_key(id) ==> removed == spec_get(old(self)@, id)
                && final(self)@ == spec_remove(old(self)@, id),
            !old(self)@.rooms.contains_key(id) ==> removed is None && final(self)@ == old(self)@,
            lookups_consistent(final(self)@),
    {
        let i = match self.rooms.find(&id) {
            Some(i) => i,
            None => return None,
        };
        let (_, data) = self.rooms.remove_at(i);
        remove_from_set(&mut self.app_to_rooms, &data.app, id, true);
        self.auto_created_rooms.remove_value(id);
        remove_from_set(&mut self.api_created_rooms, &data.app, id, false);
        self.keys_to_rooms.remove_value(id);
        proof {
            assert forall|k: KeyView| #[trigger]
                self.keys_map().contains_key(k) implies self.rooms_map().contains_key(
                self.keys_map()[k],
            ) by {
                assert(old(self).keys_map().contains_key(k));
            }
            assert forall|a: AppView| #[trigger]
                self.auto_map().contains_key(a) implies self.rooms_map().contains_key(
                self.auto_map()[a],
            ) by {
                assert(old(self).auto_map().contains_key(a));
            }
            assert forall|r: RoomId| #[trigger] self@.rooms.contains_key(r) implies {
                &&& set_of(self@.app_rooms, self@.rooms[r].app@).contains(r)
                &&& (self@.rooms[r].strategy == RoomCreationStrategy::AuthenticatedApiRequest
                    ==> set_of(self@.api_created, self@.rooms[r].app@).contains(r))
            } by {
                assert(old(self)@.rooms.contains_key(r));
                assert(self@.rooms[r] == old(self)@.rooms[r]);
            }
        }
        Some(data.room)
    }

    /// The room with identifier `id`.
    pub fn get(&self, id: RoomId) -> (room: Option<&V>)
        requires
            self.wf(),
        ensures
            room is None <==> !self.rooms_map().contains_key(id),
            room matches Some(r) ==> *r == self.rooms_map()[id].room,
            room is None <==> spec_get(self@, id) is None,
            room matches Some(r) ==> spec_get(self@, id) == Some(*r),
    {
        match self.rooms.get(&id) {
            Some(data) => Some(&data.room),
            None => None,
        }
    }

    /// The room of `app` with key `key`.
    pub fn get_by_key(&self, app: &AppNameAndOrgSlug, key: RoomKey) -> (room: Option<&V>)
        requires
            self.wf(),
        ensures
            room is None <==> !self.keys_map().contains_key((app@, key@)),
            room matches Some(r) ==> *r == self.rooms_map()[self.keys_map()[(app@, key@)]].room,
            room is None <==> spec_get_by_key(self@, app@, key@) is None,
            room matches Some(r) ==> spec_get_by_key(self@, app@, key@) == Some(*r),
    {
        let key_and_app = app.with_room_key(key);
        match self.keys_to_rooms.get(&key_and_app) {
            Some(id) => self.get(*id),
            None => None,
        }
    }

    /// The rooms of `set` that are present and belong to `app` (and, where `api_only`, were
    /// created through the API), each once, in the order of the set's elements.
    fn present_rooms(&self, set: &IdSet, app: &AppNameAndOrgSlug, api_only: bool) -> (rooms: Vec<&V>)
        requires
            self.wf(),
            set.wf(),
        ensures
            exists|ids: Seq<RoomId>|
                {
                    &&& ids.no_duplicates()
                    &&& ids.to_set() == set@.filter(|id: RoomId| room_matches(self@, id, app@, api_only))
                    &&& ids.len() == rooms@.len()
                    &&& forall|i: int|
                        0 <= i < ids.len() ==> Some(*rooms@[i]) == spec_get(self@, #[trigger] ids[i])
                },
    {
        let mut rooms: Vec<&V> = Vec::new();
        let ghost mut ids: Seq<RoomId> = Seq::empty();
        let members = set.as_vec();
        let mut i: usize = 0;
        while i < members.len()
            invariant
                self.wf(),
                members@ == set.elements(),
                set@ == members@.to_set(),
                0 <= i <= members@.len(),
                ids.no_duplicates(),
                ids.len() == rooms@.len(),
                forall|j: int|
                    0 <= j < ids.len() ==> Some(*rooms@[j]) == spec_get(self@, #[trigger] ids[j]),
                members@.no_duplicates(),
                forall|x: RoomId|
                    ids.contains(x) == (members@.subrange(0, i as int).contains(x)
                        && room_matches(self@, x, app@, api_only)),
            decreases members@.len() - i,
        {
            let id = members[i];
            let ghost prev = ids;
            let found = match self.rooms.get(&id) {
                Some(data) => if data.app.same_as(app) && (!api_only || data.strategy
                    == RoomCreationStrategy::AuthenticatedApiRequest) {
                    Some(&data.room)
                } else {
                    None
                },
                None => None,
            };
            match found {
                Some(room) => {
                    proof {
                        assert(!ids.contains(id)) by {
                            if ids.contains(id) {
                                let j = choose|j: int|
                                    0 <= j < i && members@.subrange(0, i as int)[j] == id;
                                assert(members@[j] == id);
                            }
                        }
                        ids = ids.push(id);
                    }
                    rooms.push(room);
                },
                None => {},
            }
            proof {
                let next = members@.subrange(0, i + 1);
                assert(next =~= members@.subrange(0, i as int).push(id));
                assert forall|x: RoomId|
                    ids.contains(x) == (next.contains(x) && room_matches(self@, x, app@, api_only)) by {
                    if next.contains(x) && x != id {
                        let j = choose|j: int| 0 <= j < next.len() && next[j] == x;
                        assert(members@.subrange(0, i as int)[j] == x);
                    }
                    if x == id {
                        assert(next[i as int] == id);
                    }
                    if prev.contains(x) {
                        let j = choose|j: int| 0 <= j < prev.len() && prev[j] == x;
                        assert(ids[j] == x);
                    }
                    if ids.contains(x) && x != id {
                        let j = choose|j: int| 0 <= j < ids.len() && ids[j] == x;
                        assert(prev[j] == x);
                    }
                    if ids.contains(x) && x == id {
                        assert(room_matches(self@, id, app@, api_only));
                    }
                    if x == id && room_matches(self@, id, app@, api_only) {
                        assert(ids[ids.len() - 1] == id);
                    }
                }
            }
            i = i + 1;
        }
        proof {
            assert(members@.subrange(0, members@.len() as int) =~= members@);
            assert forall|x: RoomId|
                set@.filter(|id: RoomId| room_matches(self@, id, app@, api_only)).contains(x)
                    == ids.to_set().contains(x) by {
                if ids.contains(x) {
                    assert(ids.to_set().contains(x));
                }
            }
            assert(set@.filter(|id: RoomId| room_matches(self@, id, app@, api_only)) =~= ids.to_set());
        }
        rooms
    }

    /// The rooms of `set_of(m, app)` for a map `m` of identifier sets that are present and belong
    /// to `app` (and, where `api_only`, were created through the API).
    fn rooms_of_set_map(
        &self,
        sets: &AssocList<AppNameAndOrgSlug, IdSet>,
        app: &AppNameAndOrgSlug,
        api_only: bool,
    ) -> (rooms: Vec<&V>)
        requires
            self.wf(),
            sets.wf(),
            sets_wf(sets.map()),
        ensures
            exists|ids: Seq<RoomId>|
                {
                    &&& ids.no_duplicates()
                    &&& ids.to_set() == set_of(set_view(sets.map()), app@).filter(
                        |id: RoomId| room_matches(self@, id, app@, api_only),
                    )
                    &&& ids.len() == rooms@.len()
                    &&& forall|i: int|
                        0 <= i < ids.len() ==> Some(*rooms@[i]) == spec_get(self@, #[trigger] ids[i])
                },
    {
        match sets.get(app) {
            None => {
                let rooms: Vec<&V> = Vec::new();
                proof {
                    let ids = Seq::<RoomId>::empty();
                    assert(set_of(set_view(sets.map()), app@).filter(
                        |id: RoomId| room_matches(self@, id, app@, api_only),
                    ) =~= ids.to_set());
                    assert(ids.no_duplicates());
                }
                rooms
            },
            Some(set) => {
                proof {
                    assert(sets.map().contains_key(app@));
                    assert(set.wf());
                    assert(set_of(set_view(sets.map()), app@) == set@);
                }
                self.present_rooms(set, app, api_only)
            },
        }
    }

    /// All rooms of `app` that are present, each once, in no particular order.
    pub fn get_rooms_for_app(&self, app: &AppNameAndOrgSlug) -> (rooms: Vec<&V>)
        requires
            self.wf(),
        ensures
            exists|ids: Seq<RoomId>|
                {
                    &&& ids.no_duplicates()
                    &&& ids.to_set() == spec_rooms_for_app(self@, app@)
                    &&& ids.to_set() == live_rooms_of_app(self@, app@)
                    &&& ids.len() == rooms@.len()
                    &&& forall|i: int|
                        0 <= i < ids.len() ==> Some(*rooms@[i]) == spec_get(self@, #[trigger] ids[i])
                },
    {
        proof {
            lemma_listing_is_exact(self@, app@);
        }
        self.rooms_of_set_map(&self.app_to_rooms, app, false)
    }

    /// The API-created rooms of `app` that are present, each once, in no particular order.
    pub fn get_api_created_rooms(&self, app: &AppNameAndOrgSlug) -> (rooms: Vec<&V>)
        requires
            self.wf(),
        ensures
            exists|ids: Seq<RoomId>|
                {
                    &&& ids.no_duplicates()
                    &&& ids.to_set() == spec_api_rooms_for_app(self@, app@)
                    &&& ids.to_set() == live_api_rooms_of_app(self@, app@)
                    &&& ids.len() == rooms@.len()
                    &&& forall|i: int|
                        0 <= i < ids.len() ==> Some(*rooms@[i]) == spec_get(self@, #[trigger] ids[i])
                },
    {
        proof {
            lemma_listing_is_exact(self@, app@);
        }
        self.rooms_of_set_map(&self.api_created_rooms, app, true)
    }

    /// The room with identifier `id`, if it belongs to `app`.
    pub fn get_for_app(&self, id: RoomId, app: &AppNameAndOrgSlug) -> (room: Option<&V>)
        requires
            self.wf(),
        ensures
            room is None <==> spec_get_for_app(self@, id, app@) is None,
            room matches Some(r) ==> spec_get_for_app(self@, id, app@) == Some(*r),
    {
        match self.rooms.get(&id) {
            Some(data) => if data.app.same_as(app) {
                Some(&data.room)
            } else {
                None
            },
            None => None,
        }
    }

    /// The room that was automatically created for `app`.
    pub fn get_autocreated_room(&self, app: &AppNameAndOrgSlug) -> (room: Option<&V>)
        requires
            self.wf(),
        ensures
            room is None <==> !self.auto_map().contains_key(app@),
            room matches Some(r) ==> *r == self.rooms_map()[self.auto_map()[app@]].room,
            room is None <==> spec_get_autocreated(self@, app@) is None,
            room matches Some(r) ==> spec_get_autocreated(self@, app@) == Some(*r),
    {
        match self.auto_created_rooms.get(app) {
            Some(id) => self.get(*id),
            None => None,
        }
    }
}

/// After a room is registered, it is found by its identifier, by each of its keys, and, where it
/// was auto-created, as the auto-created room of its app.
pub proof fn lemma_lookup_after_insert<V>(
    v: RoomMapsView<V>,
    id: RoomId,
    app: AppNameAndOrgSlug,
    keys: Vec<RoomKey>,
    strategy: RoomCreationStrategy,
    room: V,
    i: int,
)
    requires
        0 <= i < keys@.len(),
    ensures
        spec_get(spec_insert_room(v, id, app, keys, strategy, room), id) == Some(room),
        spec_get_by_key(spec_insert_room(v, id, app, keys, strategy, room), app@, keys@[i]@)
            == Some(room),
        strategy == RoomCreationStrategy::AutoCreate ==> spec_get_autocreated(
            spec_insert_room(v, id, app, keys, strategy, room),
            app@,
        ) == Some(room),
        spec_get_for_app(spec_insert_room(v, id, app, keys, strategy, room), id, app@) == Some(
            room,
        ),
        spec_rooms_for_app(spec_insert_room(v, id, app, keys, strategy, room), app@).contains(id),
        strategy == RoomCreationStrategy::AuthenticatedApiRequest ==> spec_api_rooms_for_app(
            spec_insert_room(v, id, app, keys, strategy, room),
            app@,
        ).contains(id),
{
    assert(is_room_key((app@, keys@[i]@), app@, keys@));
}

/// A room registered under the keys that [`room_keys`](crate::server::room::room_keys) gives for
/// its identifier is found by the text of its identifier, as a key of its app.
pub proof fn lemma_found_by_identifier_key<V>(
    v: RoomMapsView<V>,
    id: RoomId,
    app: AppNameAndOrgSlug,
    keys: Vec<RoomKey>,
    strategy: RoomCreationStrategy,
    room: V,
)
    requires
        keys@.len() > 0,
        keys@[0]@ == Some(uuid_text(id)),
    ensures
        spec_get_by_key(
            spec_insert_room(v, id, app, keys, strategy, room),
            app@,
            Some(uuid_text(id)),
        ) == Some(room),
{
    lemma_lookup_after_insert(v, id, app, keys, strategy, room, 0);
}

/// A request that waited for a concurrent auto-creation finds the room that was created: once a
/// room is registered for its app as auto-created under the default key, the default key and the
/// app's auto-created room both give it.
pub proof fn lemma_waiter_finds_auto_created_room<V>(
    v: RoomMapsView<V>,
    id: RoomId,
    app: AppNameAndOrgSlug,
    keys: Vec<RoomKey>,
    room: V,
    i: int,
)
    requires
        0 <= i < keys@.len(),
        keys@[i] == RoomKey::Default,
    ensures
        spec_get_by_key(
            spec_insert_room(v, id, app, keys, RoomCreationStrategy::AutoCreate, room),
            app@,
            RoomKey::Default@,
        ) == Some(room),
        spec_get_autocreated(
            spec_insert_room(v, id, app, keys, RoomCreationStrategy::AutoCreate, room),
            app@,
        ) == Some(room),
{
    lemma_lookup_after_insert(v, id, app, keys, RoomCreationStrategy::AutoCreate, room, i);
}

/// Registering a room with a new identifier leaves every other lookup as it was: keys that are not
/// keys of the new room, and the auto-created rooms of other apps (and of its own app, unless it
/// is auto-created).
pub proof fn lemma_insert_keeps_other_lookups<V>(
    v: RoomMapsView<V>,
    id: RoomId,
    app: AppNameAndOrgSlug,
    keys: Vec<RoomKey>,
    strategy: RoomCreationStrategy,
    room: V,
    other_app: AppView,
    key: Option<Seq<char>>,
    other_id: RoomId,
)
    requires
        lookups_consistent(v),
        !v.rooms.contains_key(id),
    ensures
        other_id != id ==> spec_get(spec_insert_room(v, id, app, keys, strategy, room), other_id)
            == spec_get(v, other_id),
        !is_room_key((other_app, key), app@, keys@) ==> spec_get_by_key(
            spec_insert_room(v, id, app, keys, strategy, room),
            other_app,
            key,
        ) == spec_get_by_key(v, other_app, key),
        (other_app != app@ || strategy != RoomCreationStrategy::AutoCreate)
            ==> spec_get_autocreated(spec_insert_room(v, id, app, keys, strategy, room), other_app)
            == spec_get_autocreated(v, other_app),
{
    let after = spec_insert_room(v, id, app, keys, strategy, room);
    if v.keys.contains_key((other_app, key)) {
        assert(v.rooms.contains_key(v.keys[(other_app, key)]));
    }
    if v.auto_created.contains_key(other_app) {
        assert(v.rooms.contains_key(v.auto_created[other_app]));
    }
}

/// After a room is removed, it is no longer found: not by its identifier, not by any key, not as an
/// auto-created room, and not among the rooms or the API-created rooms of any app. Every other
/// lookup gives what it gave before.
pub proof fn lemma_lookup_after_remove<V>(
    v: RoomMapsView<V>,
    id: RoomId,
    app: AppView,
    key: Option<Seq<char>>,
    other_id: RoomId,
)
    requires
        lookups_consistent(v),
        v.rooms.contains_key(id),
    ensures
        spec_get(spec_remove(v, id), id) is None,
        other_id != id ==> spec_get(spec_remove(v, id), other_id) == spec_get(v, other_id),
        spec_get_by_key(spec_remove(v, id), app, key) == if v.keys.contains_key((app, key))
            && v.keys[(app, key)] == id {
            None
        } else {
            spec_get_by_key(v, app, key)
        },
        spec_get_autocreated(spec_remove(v, id), app) == if v.auto_created.contains_key(app)
            && v.auto_created[app] == id {
            None
        } else {
            spec_get_autocreated(v, app)
        },
        !spec_rooms_for_app(spec_remove(v, id), app).contains(id),
        !spec_api_rooms_for_app(spec_remove(v, id), app).contains(id),
        lookups_consistent(spec_remove(v, id)),
{
}

/// Removing a room right after registering it with a new identifier, under keys that no room had
/// and (if it is auto-created) for an app without an auto-created room, undoes the registration in
/// the rooms, the keys and the auto-created rooms.
pub proof fn lemma_remove_undoes_insert<V>(
    v: RoomMapsView<V>,
    id: RoomId,
    app: AppNameAndOrgSlug,
    keys: Vec<RoomKey>,
    strategy: RoomCreationStrategy,
    room: V,
)
    requires
        lookups_consistent(v),
        !v.rooms.contains_key(id),
        forall|i: int| 0 <= i < keys@.len() ==> !v.keys.contains_key((app@, (#[trigger] keys@[i])@)),
        strategy == RoomCreationStrategy::AutoCreate ==> !v.auto_created.contains_key(app@),
    ensures
        spec_remove(spec_insert_room(v, id, app, keys, strategy, room), id).rooms == v.rooms,
        spec_remove(spec_insert_room(v, id, app, keys, strategy, room), id).keys == v.keys,
        spec_remove(spec_insert_room(v, id, app, keys, strategy, room), id).auto_created
            == v.auto_created,
{
    let after = spec_remove(spec_insert_room(v, id, app, keys, strategy, room), id);
    assert(after.rooms =~= v.rooms);
    assert forall|k: KeyView| v.keys.contains_key(k) implies v.keys[k] != id && !is_room_key(
        k,
        app@,
        keys@,
    ) by {
        assert(v.rooms.contains_key(v.keys[k]));
        if is_room_key(k, app@, keys@) {
            let i = choose|i: int| 0 <= i < keys@.len() && (#[trigger] keys@[i])@ == k.1;
            assert(!v.keys.contains_key((app@, keys@[i]@)));
        }
    }
    assert(after.keys =~= v.keys);
    assert forall|a: AppView| v.auto_created.contains_key(a) implies v.auto_created[a] != id by {
        assert(v.rooms.contains_key(v.auto_created[a]));
    }
    assert(after.auto_created =~= v.auto_created);
}

} // verus!
