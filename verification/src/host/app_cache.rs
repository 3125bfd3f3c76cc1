//! The host's cache of apps loaded from the database, kept in a least-recently-used cache of
//! bounded size.

use vstd::prelude::*;
use core::hash::{BuildHasher, Hash};
use lru_cache::LruCache;
use crate::maf_schemas::apps::AppNameAndOrgSlug;
use crate::server::app::App;
use crate::server::room_storage::AppView;

verus! {

/// A least-recently-used cache (`lru_cache::LruCache`).
#[verifier::external_type_specification]
#[verifier::external_body]
#[verifier::reject_recursive_types(K)]
#[verifier::reject_recursive_types(V)]
#[verifier::reject_recursive_types(S)]
pub struct ExLruCache<K: Eq + Hash, V, S: BuildHasher>(LruCache<K, V, S>);

/// A cache of apps by their identifier.
pub type AppLru = LruCache<AppNameAndOrgSlug, App>;

/// The entries a cache holds, each as the view of its identifier and its app, from the least
/// recently used to the most recently used.
pub uninterp spec fn cache_entries(cache: AppLru) -> Seq<(AppView, App)>;

/// The number of apps a cache can hold, as it was created with.
pub uninterp spec fn cache_capacity(cache: AppLru) -> nat;

/// Whether `entries` holds an entry under `k`.
pub open spec fn holds_key(entries: Seq<(AppView, App)>, k: AppView) -> bool {
    exists|i: int| 0 <= i < entries.len() && (#[trigger] entries[i]).0 == k
}

/// The position of the entry under `k` in `entries`, where there is one.
pub open spec fn index_of_key(entries: Seq<(AppView, App)>, k: AppView) -> int {
    choose|i: int| 0 <= i < entries.len() && (#[trigger] entries[i]).0 == k
}

/// No two entries have the same identifier.
pub open spec fn keys_distinct(entries: Seq<(AppView, App)>) -> bool {
    forall|i: int, j: int|
        0 <= i < j < entries.len() ==> (#[trigger] entries[i]).0 != (#[trigger] entries[j]).0
}

/// The apps of `entries`, by identifier.
pub open spec fn entries_map(entries: Seq<(AppView, App)>) -> Map<AppView, App> {
    Map::new(|k: AppView| holds_key(entries, k), |k: AppView| entries[index_of_key(entries, k)].1)
}

/// The entries after the one under `k`, if any, is used: it moves to the most recent end.
pub open spec fn refreshed(entries: Seq<(AppView, App)>, k: AppView) -> Seq<(AppView, App)> {
    if holds_key(entries, k) {
        let i = index_of_key(entries, k);
        entries.remove(i).push(entries[i])
    } else {
        entries
    }
}

/// The entries after `v` is stored under `k` in a cache of capacity `capacity`: the entry is
/// stored (replacing the one under `k`) as the most recently used, and if there are then more
/// entries than the capacity, the least recently used one is dropped.
pub open spec fn inserted(entries: Seq<(AppView, App)>, k: AppView, v: App, capacity: nat) -> Seq<
    (AppView, App),
> {
    let stored = if holds_key(entries, k) {
        entries.remove(index_of_key(entries, k)).push((k, v))
    } else {
        entries.push((k, v))
    };
    if stored.len() > capacity {
        stored.subrange(1, stored.len() as int)
    } else {
        stored
    }
}

/// An empty cache that holds at most `capacity` apps (`LruCache::new`).
#[verifier::external_body]
fn new_lru(capacity: usize) -> (lru: AppLru)
    ensures
        cache_entries(lru) =~= Seq::empty(),
        cache_capacity(lru) == capacity,
{
    LruCache::new(capacity)
}

/// A copy of the app cached under `id`, if any (`LruCache::get_mut`, which also marks the entry as
/// the most recently used).
#[verifier::external_body]
fn lru_get(cache: &mut AppLru, id: &AppNameAndOrgSlug) -> (app: Option<App>)
    ensures
        cache_entries(*final(cache)) == refreshed(cache_entries(*old(cache)), id@),
        cache_capacity(*final(cache)) == cache_capacity(*old(cache)),
        app is Some <==> holds_key(cache_entries(*old(cache)), id@),
        app matches Some(a) ==> a == cache_entries(*old(cache))[index_of_key(
            cache_entries(*old(cache)),
            id@,
        )].1,
{
    cache.get_mut(id).map(|app| app.duplicate())
}

/// Caches `app` under `id` (`LruCache::insert`): the entry is stored (replacing the one under
/// `id`) as the most recently used, and if the cache then holds more apps than its capacity, its
/// least recently used entry is dropped. What the call returns (the replaced app) is not used.
#[verifier::external_body]
fn lru_insert(cache: &mut AppLru, id: AppNameAndOrgSlug, app: App)
    ensures
        cache_capacity(*final(cache)) == cache_capacity(*old(cache)),
        cache_entries(*final(cache)) == inserted(
            cache_entries(*old(cache)),
            id@,
            app,
            cache_capacity(*old(cache)),
        ),
{
    let _ = cache.insert(id, app);
}

/// How many apps the host keeps in its cache.
pub const APP_CACHE_SIZE: usize = 500;

/// The apps the host has loaded, by identifier, at most [`APP_CACHE_SIZE`] of them.
pub struct AppCache {
    cache: AppLru,
}

impl AppCache {
    /// The entries held, from the least recently used to the most recently used.
    pub closed spec fn entries(&self) -> Seq<(AppView, App)> {
        cache_entries(self.cache)
    }

    /// The apps held, by the view of their identifier.
    pub open spec fn apps(&self) -> Map<AppView, App> {
        entries_map(self.entries())
    }

    /// The cache holds entries under distinct identifiers, no more than its capacity of
    /// [`APP_CACHE_SIZE`].
    pub closed spec fn wf(&self) -> bool {
        &&& cache_capacity(self.cache) == APP_CACHE_SIZE
        &&& keys_distinct(self.entries())
        &&& self.entries().len() <= APP_CACHE_SIZE
    }

    /// An empty cache.
    pub fn new() -> (cache: Self)
        ensures
            cache.wf(),
            cache.entries() == Seq::<(AppView, App)>::empty(),
            cache.apps() == Map::<AppView, App>::empty(),
    {
        let cache = AppCache { cache: new_lru(APP_CACHE_SIZE) };
        assert(cache.apps() =~= Map::<AppView, App>::empty());
        cache
    }

    /// The app cached under `id`, if any; its entry becomes the most recently used. The cached
    /// apps stay as they are.
    pub fn get(&mut self, id: &AppNameAndOrgSlug) -> (app: Option<App>)
        requires
            old(self).wf(),
        ensures
            final(self).wf(),
            final(self).entries() == refreshed(old(self).entries(), id@),
            final(self).apps() == old(self).apps(),
            app is Some <==> old(self).apps().contains_key(id@),
            app matches Some(a) ==> a == old(self).apps()[id@],
    {
        let result = lru_get(&mut self.cache, id);
        proof {
            lemma_refreshed(old(self).entries(), id@);
        }
        result
    }

    /// Caches `app` under `id`, as the most recently used entry. It is held afterwards; every
    /// other app held afterwards was held before; where the cache was full and held nothing under
    /// `id`, exactly one app is dropped: the least recently used one.
    pub fn remember(&mut self, id: AppNameAndOrgSlug, app: App)
        requires
            old(self).wf(),
        ensures
            final(self).wf(),
            final(self).entries() == inserted(old(self).entries(), id@, app, APP_CACHE_SIZE as nat),
            final(self).apps().contains_key(id@),
            final(self).apps()[id@] == app,
            forall|k: AppView|
                k != id@ && #[trigger] final(self).apps().contains_key(k) ==> old(
                    self,
                ).apps().contains_key(k) && final(self).apps()[k] == old(self).apps()[k],
            old(self).entries().len() < APP_CACHE_SIZE || old(self).apps().contains_key(id@)
                ==> final(self).apps() == old(self).apps().insert(id@, app),
            old(self).entries().len() == APP_CACHE_SIZE && !old(self).apps().contains_key(id@)
                ==> final(self).apps() == old(self).apps().insert(id@, app).remove(
                old(self).entries()[0].0,
            ),
    {
        let ghost key = id@;
        lru_insert(&mut self.cache, id, app);
        proof {
            lemma_inserted(old(self).entries(), key, app, APP_CACHE_SIZE as nat);
        }
    }
}

/// With distinct identifiers, the entry at position `i` is the one found under its identifier.
proof fn lemma_index_of_key(entries: Seq<(AppView, App)>, i: int)
    requires
        keys_distinct(entries),
        0 <= i < entries.len(),
    ensures
        holds_key(entries, entries[i].0),
        index_of_key(entries, entries[i].0) == i,
{
    assert(holds_key(entries, entries[i].0));
    let j = index_of_key(entries, entries[i].0);
    if j < i {
        assert(entries[j].0 != entries[i].0);
    } else if j > i {
        assert(entries[i].0 != entries[j].0);
    }
}

/// Using an entry keeps the identifiers distinct and the apps as they are.
proof fn lemma_refreshed(entries: Seq<(AppView, App)>, k: AppView)
    requires
        keys_distinct(entries),
    ensures
        keys_distinct(refreshed(entries, k)),
        refreshed(entries, k).len() == entries.len(),
        entries_map(refreshed(entries, k)) == entries_map(entries),
{
    if holds_key(entries, k) {
        let i = index_of_key(entries, k);
        let r = refreshed(entries, k);
        assert(r.len() == entries.len());
        // r[j] is entries[j] before i, entries[j + 1] from i on, and entries[i] last.
        assert forall|a: int, b: int| 0 <= a < b < r.len() implies (#[trigger] r[a]).0
            != (#[trigger] r[b]).0 by {
            let ia = if a < i { a } else { a + 1 };
            let ib = if b == r.len() - 1 { i } else if b < i { b } else { b + 1 };
            assert(r[a] == entries[ia]);
            assert(r[b] == entries[ib]);
            assert(ia != ib);
            if ia < ib {
                assert(entries[ia].0 != entries[ib].0);
            } else {
                assert(entries[ib].0 != entries[ia].0);
            }
        }
        assert forall|x: AppView| #[trigger] holds_key(r, x) == holds_key(entries, x) by {
            if holds_key(entries, x) {
                let j = choose|j: int| 0 <= j < entries.len() && (#[trigger] entries[j]).0 == x;
                let p = if j == i { r.len() - 1 } else if j < i { j } else { j - 1 };
                assert(r[p] == entries[j]);
            }
            if holds_key(r, x) {
                let p = choose|p: int| 0 <= p < r.len() && (#[trigger] r[p]).0 == x;
                let j = if p == r.len() - 1 { i } else if p < i { p } else { p + 1 };
                assert(r[p] == entries[j]);
            }
        }
        assert forall|x: AppView| holds_key(entries, x) implies #[trigger] entries_map(r)[x]
            == entries_map(entries)[x] by {
            let j = index_of_key(entries, x);
            lemma_index_of_key(entries, j);
            let p = if j == i { r.len() - 1 } else if j < i { j } else { j - 1 };
            assert(r[p] == entries[j]);
            lemma_index_of_key(r, p);
        }
        assert(entries_map(r) =~= entries_map(entries));
    }
}

/// Storing an entry in a cache of positive capacity that holds at most its capacity keeps the
/// identifiers distinct and the capacity respected; the stored app is held; every other app held
/// was held before; and where the cache was full and held nothing under `k`, the least recently
/// used app is dropped.
proof fn lemma_inserted(entries: Seq<(AppView, App)>, k: AppView, v: App, capacity: nat)
    requires
        keys_distinct(entries),
        entries.len() <= capacity,
        capacity > 0,
    ensures
        keys_distinct(inserted(entries, k, v, capacity)),
        inserted(entries, k, v, capacity).len() <= capacity,
        entries_map(inserted(entries, k, v, capacity)).contains_key(k),
        entries_map(inserted(entries, k, v, capacity))[k] == v,
        forall|x: AppView|
            x != k && #[trigger] entries_map(inserted(entries, k, v, capacity)).contains_key(x)
                ==> entries_map(entries).contains_key(x) && entries_map(
                inserted(entries, k, v, capacity),
            )[x] == entries_map(entries)[x],
        entries.len() < capacity || holds_key(entries, k) ==> entries_map(
            inserted(entries, k, v, capacity),
        ) == entries_map(entries).insert(k, v),
        entries.len() == capacity && !holds_key(entries, k) ==> entries_map(
            inserted(entries, k, v, capacity),
        ) == entries_map(entries).insert(k, v).remove(entries[0].0),
{
    let held = holds_key(entries, k);
    let i = index_of_key(entries, k);
    let stored = if held {
        entries.remove(i).push((k, v))
    } else {
        entries.push((k, v))
    };
    // Position in `entries` of the entry at position `p < stored.len() - 1` of `stored`.
    let src = |p: int| if held && p >= i { p + 1 } else { p };
    assert forall|p: int| 0 <= p < stored.len() - 1 implies stored[p] == entries[src(p)]
        && 0 <= src(p) < entries.len() && (held ==> src(p) != i) by {}
    assert(stored[stored.len() - 1] == (k, v));
    assert forall|p: int| 0 <= p < stored.len() - 1 implies (#[trigger] stored[p]).0 != k by {
        if held {
            lemma_index_of_key(entries, src(p));
            assert(entries[src(p)].0 != entries[i].0) by {
                if src(p) < i {
                } else {
                }
            }
        } else {
            assert(!holds_key(entries, k));
            assert(entries[src(p)].0 != k);
        }
    }
    assert(keys_distinct(stored)) by {
        assert forall|a: int, b: int| 0 <= a < b < stored.len() implies (#[trigger] stored[a]).0
            != (#[trigger] stored[b]).0 by {
            if b < stored.len() - 1 {
                assert(src(a) < src(b));
                assert(entries[src(a)].0 != entries[src(b)].0);
            }
        }
    }
    assert(stored.len() <= capacity + 1);
    let result = inserted(entries, k, v, capacity);
    let dropped = stored.len() > capacity;
    assert(result == if dropped {
        stored.subrange(1, stored.len() as int)
    } else {
        stored
    });
    let off: int = if dropped { 1 } else { 0 };
    assert forall|p: int| 0 <= p < result.len() implies result[p] == stored[p + off] by {}
    assert(keys_distinct(result)) by {
        assert forall|a: int, b: int| 0 <= a < b < result.len() implies (#[trigger] result[a]).0
            != (#[trigger] result[b]).0 by {
            assert(result[a] == stored[a + off]);
            assert(result[b] == stored[b + off]);
        }
    }
    // The stored entry is the last of the result.
    let last = result.len() - 1;
    assert(result[last] == (k, v));
    lemma_index_of_key(result, last);
    // Which identifiers the result holds, and their apps.
    assert forall|x: AppView| x != k && #[trigger] holds_key(result, x) implies holds_key(
        entries,
        x,
    ) && entries_map(result)[x] == entries_map(entries)[x] by {
        let p = index_of_key(result, x);
        lemma_index_of_key(result, p);
        assert(p + off < stored.len() - 1);
        let j = src(p + off);
        assert(result[p] == entries[j]);
        lemma_index_of_key(entries, j);
    }
    if dropped {
        assert(!held) by {
            if held {
                assert(stored.len() == entries.len());
            }
        }
        assert(src(0) == 0);
    }
    assert forall|x: AppView|
        x != k && holds_key(entries, x) && !(dropped && x == entries[0].0) implies #[trigger]
        holds_key(result, x) by {
        let j = index_of_key(entries, x);
        lemma_index_of_key(entries, j);
        assert(!(held && j == i)) by {
            if held && j == i {
                lemma_index_of_key(entries, i);
            }
        }
        let q = if held && j > i { j - 1 } else { j };
        assert(stored[q] == entries[j]);
        if dropped {
            assert(j != 0);
            assert(q >= 1);
        }
        assert(result[q - off] == entries[j]);
    }
    if dropped {
        assert(!holds_key(result, entries[0].0)) by {
            if holds_key(result, entries[0].0) {
                let p = index_of_key(result, entries[0].0);
                assert(result[p] == stored[p + 1]);
                assert(stored[p + 1] == entries[p + 1] || p + 1 == stored.len() - 1);
                if p + 1 < stored.len() - 1 {
                    assert(entries[0].0 != entries[p + 1].0);
                } else {
                    assert(!holds_key(entries, k));
                    assert(entries[0].0 != k);
                }
            }
        }
        assert(entries_map(result) =~= entries_map(entries).insert(k, v).remove(entries[0].0));
    } else {
        assert(entries_map(result) =~= entries_map(entries).insert(k, v));
    }
}

} // verus!
