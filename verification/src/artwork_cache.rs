//! The bounded artwork caches of the application state: source artwork by identity, the
//! display-ready copies derived from it, and the requests that fill them.
use vstd::prelude::*;

use crate::action::Command;
use crate::artwork::{key_view, spec_fingerprint, Artwork, ArtworkKey, ArtworkMediaType};
use crate::backend::BackendCommand;
use crate::capabilities::Capability;
use crate::domain::{AlbumId, TrackId};
use crate::keyed::ArtworkMap;
use crate::navigation::{first_album, spec_artwork_key_for_track, find_album};
use crate::state::{AppState, ArtworkCacheEntry, RenderableArtworkCacheEntry, Route};
use crate::text::{has_prefix, starts_with_text};

verus! {

/// How many artworks each cache keeps.
pub const MAX_ARTWORK_CACHE_ENTRIES: usize = 16;

/// Whether some key of `keys` has identity `q`.
pub open spec fn names(keys: Seq<ArtworkKey>, q: (u8, Seq<char>)) -> bool {
    exists|i: int| 0 <= i < keys.len() && #[trigger] key_view(keys[i]) == q
}

/// `keys` without the keys whose identity is `q`, in order.
pub open spec fn without_key(keys: Seq<ArtworkKey>, q: (u8, Seq<char>)) -> Seq<ArtworkKey>
    decreases keys.len(),
{
    if keys.len() == 0 {
        Seq::empty()
    } else {
        let prev = without_key(keys.drop_last(), q);
        if key_view(keys.last()) == q {
            prev
        } else {
            prev.push(keys.last())
        }
    }
}

/// `keys` without the keys named by any of `gone`, in order.
pub open spec fn without_keys(keys: Seq<ArtworkKey>, gone: Seq<ArtworkKey>) -> Seq<ArtworkKey>
    decreases gone.len(),
{
    if gone.len() == 0 {
        keys
    } else {
        without_key(without_keys(keys, gone.drop_last()), key_view(gone.last()))
    }
}

proof fn lemma_without_key(keys: Seq<ArtworkKey>, q: (u8, Seq<char>))
    ensures
        !names(without_key(keys, q), q),
        without_key(keys, q).len() <= keys.len(),
    decreases keys.len(),
{
    if keys.len() > 0 {
        lemma_without_key(keys.drop_last(), q);
        let prev = without_key(keys.drop_last(), q);
        if key_view(keys.last()) != q {
            assert forall|i: int| 0 <= i < prev.len() + 1 implies key_view(#[trigger] prev.push(keys.last())[i]) != q by {
                if i < prev.len() {
                    assert(prev.push(keys.last())[i] == prev[i]);
                }
            }
        }
    }
}

/// Removes every key with identity `key` from `order`.
fn drop_key(order: &mut Vec<ArtworkKey>, key: &ArtworkKey)
    ensures
        final(order)@ == without_key(old(order)@, key_view(*key)),
{
    let mut kept: Vec<ArtworkKey> = Vec::new();
    let mut i: usize = 0;
    while i < order.len()
        invariant
            i <= order@.len(),
            kept@ == without_key(order@.take(i as int), key_view(*key)),
        decreases order.len() - i,
    {
        assert(order@.take(i + 1).drop_last() =~= order@.take(i as int));
        if !order[i].same(key) {
            kept.push(order[i].duplicate());
        }
        i = i + 1;
    }
    assert(order@.take(order@.len() as int) =~= order@);
    *order = kept;
}

/// The keys evicted when `order` is cut back to the cache size.
pub open spec fn evicted(order: Seq<ArtworkKey>) -> Seq<ArtworkKey> {
    if order.len() > MAX_ARTWORK_CACHE_ENTRIES {
        order.take(order.len() - MAX_ARTWORK_CACHE_ENTRIES)
    } else {
        Seq::empty()
    }
}

/// The keys kept when `order` is cut back to the cache size.
pub open spec fn retained(order: Seq<ArtworkKey>) -> Seq<ArtworkKey> {
    if order.len() > MAX_ARTWORK_CACHE_ENTRIES {
        order.skip(order.len() - MAX_ARTWORK_CACHE_ENTRIES)
    } else {
        order
    }
}

/// `m` after the keys named by `gone` are dropped from it.
pub open spec fn dropped<V>(m: ArtworkMap<V>, old_m: ArtworkMap<V>, gone: Seq<ArtworkKey>) -> bool {
    &&& m.wf()
    &&& forall|q: (u8, Seq<char>)| #[trigger] m.get_spec(q) == if names(gone, q) {
        None
    } else {
        old_m.get_spec(q)
    }
}

/// `new` is `old` with `entry` stored under `key` as the newest source artwork and the
/// oldest keys beyond the cache size evicted from every artwork cache and request record.
pub open spec fn cache_inserted(old: AppState, new: AppState, key: ArtworkKey, entry: ArtworkCacheEntry) -> bool {
    let order = without_key(old.artwork_cache_order@, key_view(key)).push(key);
    let gone = evicted(order);
    &&& new.caches_wf()
    &&& new.artwork_cache_order@ == retained(order)
    &&& new.artwork_cache_order@.len() <= MAX_ARTWORK_CACHE_ENTRIES
    &&& !names(gone, key_view(key))
    &&& forall|q: (u8, Seq<char>)| #[trigger] new.artwork_cache.get_spec(q) == if names(gone, q) {
        None
    } else if q == key_view(key) {
        Some(entry)
    } else {
        old.artwork_cache.get_spec(q)
    }
    &&& dropped(new.artwork_request_tracks, old.artwork_request_tracks, gone)
    &&& dropped(new.artwork_retry_attempts, old.artwork_retry_attempts, gone)
    &&& dropped(new.renderable_artwork_cache, old.renderable_artwork_cache, gone)
    &&& new.renderable_artwork_cache_order@ == without_keys(old.renderable_artwork_cache_order@, gone)
    &&& new == (AppState {
        artwork_cache: new.artwork_cache,
        artwork_cache_order: new.artwork_cache_order,
        artwork_request_tracks: new.artwork_request_tracks,
        artwork_retry_attempts: new.artwork_retry_attempts,
        renderable_artwork_cache: new.renderable_artwork_cache,
        renderable_artwork_cache_order: new.renderable_artwork_cache_order,
        ..old
    })
}

/// Stores a source artwork entry under `key` as the newest, then evicts the oldest keys
/// beyond the cache size from every artwork cache and request record.
pub fn insert_artwork_cache(state: &mut AppState, key: ArtworkKey, entry: ArtworkCacheEntry)
    requires
        old(state).caches_wf(),
    ensures
        cache_inserted(*old(state), *final(state), key, entry),
{
    let ghost s0 = *state;
    let ghost kv = key_view(key);
    drop_key(&mut state.artwork_cache_order, &key);
    proof {
        lemma_without_key(s0.artwork_cache_order@, kv);
    }
    state.artwork_cache_order.push(key.duplicate());
    let ghost order = state.artwork_cache_order@;
    let _n = state.artwork_cache_order.len();
    let ghost ge = entry;
    state.artwork_cache.insert(key, entry);
    let ghost cut: int = if order.len() > MAX_ARTWORK_CACHE_ENTRIES {
        order.len() - MAX_ARTWORK_CACHE_ENTRIES
    } else {
        0
    };
    proof {
        assert(order.len() <= usize::MAX);
        assert(!names(order.take(0), kv));
        assert(order.skip(0) =~= order);
        assert(without_keys(s0.renderable_artwork_cache_order@, order.take(0)) == s0.renderable_artwork_cache_order@) by {
            assert(order.take(0) =~= Seq::<ArtworkKey>::empty());
        }
    }
    let mut k: usize = 0;
    while state.artwork_cache_order.len() > MAX_ARTWORK_CACHE_ENTRIES
        invariant
            state.caches_wf(),
            0 <= k <= cut,
            order.len() >= 1,
            order.len() <= usize::MAX,
            key_view(order.last()) == kv,
            !names(order.drop_last(), kv),
            cut == (if order.len() > MAX_ARTWORK_CACHE_ENTRIES {
                order.len() - MAX_ARTWORK_CACHE_ENTRIES
            } else {
                0int
            }),
            state.artwork_cache_order@ == order.skip(k as int),
            forall|q: (u8, Seq<char>)| #[trigger] state.artwork_cache.get_spec(q) == if names(order.take(k as int), q) {
                None
            } else if q == kv {
                Some(ge)
            } else {
                s0.artwork_cache.get_spec(q)
            },
            forall|q: (u8, Seq<char>)| #[trigger] state.artwork_request_tracks.get_spec(q) == if names(order.take(k as int), q) {
                None
            } else {
                s0.artwork_request_tracks.get_spec(q)
            },
            forall|q: (u8, Seq<char>)| #[trigger] state.artwork_retry_attempts.get_spec(q) == if names(order.take(k as int), q) {
                None
            } else {
                s0.artwork_retry_attempts.get_spec(q)
            },
            forall|q: (u8, Seq<char>)| #[trigger] state.renderable_artwork_cache.get_spec(q) == if names(order.take(k as int), q) {
                None
            } else {
                s0.renderable_artwork_cache.get_spec(q)
            },
            state.renderable_artwork_cache_order@ == without_keys(s0.renderable_artwork_cache_order@, order.take(k as int)),
            *state == (AppState {
                artwork_cache: state.artwork_cache,
                artwork_cache_order: state.artwork_cache_order,
                artwork_request_tracks: state.artwork_request_tracks,
                artwork_retry_attempts: state.artwork_retry_attempts,
                renderable_artwork_cache: state.renderable_artwork_cache,
                renderable_artwork_cache_order: state.renderable_artwork_cache_order,
                ..s0
            }),
        decreases state.artwork_cache_order@.len(),
    {
        let oldest = state.artwork_cache_order.remove(0);
        let ghost ok = key_view(oldest);
        proof {
            assert(oldest == order[k as int]);
            assert(order.take(k + 1) =~= order.take(k as int).push(oldest));
            assert(state.artwork_cache_order@ =~= order.skip(k + 1));
            assert forall|q: (u8, Seq<char>)| names(order.take(k + 1), q) == (names(order.take(k as int), q) || q == ok) by {
                if names(order.take(k + 1), q) {
                    let i = choose|i: int| 0 <= i < k + 1 && #[trigger] key_view(order.take(k + 1)[i]) == q;
                    if i < k {
                        assert(key_view(order.take(k as int)[i]) == q);
                    }
                }
                if names(order.take(k as int), q) {
                    let i = choose|i: int| 0 <= i < k && #[trigger] key_view(order.take(k as int)[i]) == q;
                    assert(key_view(order.take(k + 1)[i]) == q);
                }
                if q == ok {
                    assert(key_view(order.take(k + 1)[k as int]) == q);
                }
            }
            assert(k < order.len() - 1);
            assert(order.drop_last()[k as int] == oldest);
            assert(ok != kv);
        }
        state.artwork_cache.remove(&oldest);
        state.artwork_request_tracks.remove(&oldest);
        state.artwork_retry_attempts.remove(&oldest);
        state.renderable_artwork_cache.remove(&oldest);
        drop_key(&mut state.renderable_artwork_cache_order, &oldest);
        proof {
            assert(order.take(k + 1).drop_last() =~= order.take(k as int));
        }
        k = k + 1;
    }
    proof {
        assert(k == cut);
        assert(order.take(cut) == evicted(order));
        assert(order.skip(cut) == retained(order));
        if names(evicted(order), kv) {
            let i = choose|i: int| 0 <= i < evicted(order).len() && #[trigger] key_view(evicted(order)[i]) == kv;
            assert(key_view(order.drop_last()[i]) == kv);
        }
    }
}

/// `new` is `old` with `entry` stored under `key` as the newest display-ready artwork and
/// the oldest keys beyond the cache size evicted from the display-ready cache.
pub open spec fn renderable_inserted(old: AppState, new: AppState, key: ArtworkKey, entry: RenderableArtworkCacheEntry) -> bool {
    let order = without_key(old.renderable_artwork_cache_order@, key_view(key)).push(key);
    let gone = evicted(order);
    &&& new.caches_wf()
    &&& new.renderable_artwork_cache_order@ == retained(order)
    &&& new.renderable_artwork_cache_order@.len() <= MAX_ARTWORK_CACHE_ENTRIES
    &&& !names(gone, key_view(key))
    &&& forall|q: (u8, Seq<char>)| #[trigger] new.renderable_artwork_cache.get_spec(q) == if names(gone, q) {
        None
    } else if q == key_view(key) {
        Some(entry)
    } else {
        old.renderable_artwork_cache.get_spec(q)
    }
    &&& new == (AppState {
        renderable_artwork_cache: new.renderable_artwork_cache,
        renderable_artwork_cache_order: new.renderable_artwork_cache_order,
        ..old
    })
}

/// Stores a display-ready entry under `key` as the newest, then evicts the oldest keys
/// beyond the cache size from the display-ready cache.
pub fn insert_renderable_artwork_cache(state: &mut AppState, key: ArtworkKey, entry: RenderableArtworkCacheEntry)
    requires
        old(state).caches_wf(),
    ensures
        renderable_inserted(*old(state), *final(state), key, entry),
{
    let ghost s0 = *state;
    let ghost kv = key_view(key);
    drop_key(&mut state.renderable_artwork_cache_order, &key);
    proof {
        lemma_without_key(s0.renderable_artwork_cache_order@, kv);
    }
    state.renderable_artwork_cache_order.push(key.duplicate());
    let ghost order = state.renderable_artwork_cache_order@;
    let _n = state.renderable_artwork_cache_order.len();
    let ghost ge = entry;
    state.renderable_artwork_cache.insert(key, entry);
    let ghost cut: int = if order.len() > MAX_ARTWORK_CACHE_ENTRIES {
        order.len() - MAX_ARTWORK_CACHE_ENTRIES
    } else {
        0
    };
    proof {
        assert(!names(order.take(0), kv));
        assert(order.skip(0) =~= order);
    }
    let mut k: usize = 0;
    while state.renderable_artwork_cache_order.len() > MAX_ARTWORK_CACHE_ENTRIES
        invariant
            state.caches_wf(),
            0 <= k <= cut,
            order.len() >= 1,
            order.len() <= usize::MAX,
            key_view(order.last()) == kv,
            !names(order.drop_last(), kv),
            cut == (if order.len() > MAX_ARTWORK_CACHE_ENTRIES {
                order.len() - MAX_ARTWORK_CACHE_ENTRIES
            } else {
                0int
            }),
            state.renderable_artwork_cache_order@ == order.skip(k as int),
            forall|q: (u8, Seq<char>)| #[trigger] state.renderable_artwork_cache.get_spec(q) == if names(order.take(k as int), q) {
                None
            } else if q == kv {
                Some(ge)
            } else {
                s0.renderable_artwork_cache.get_spec(q)
            },
            *state == (AppState {
                renderable_artwork_cache: state.renderable_artwork_cache,
                renderable_artwork_cache_order: state.renderable_artwork_cache_order,
                ..s0
            }),
        decreases state.renderable_artwork_cache_order@.len(),
    {
        let oldest = state.renderable_artwork_cache_order.remove(0);
        let ghost ok = key_view(oldest);
        proof {
            assert(oldest == order[k as int]);
            assert(order.take(k + 1) =~= order.take(k as int).push(oldest));
            assert(state.renderable_artwork_cache_order@ =~= order.skip(k + 1));
            assert forall|q: (u8, Seq<char>)| names(order.take(k + 1), q) == (names(order.take(k as int), q) || q == ok) by {
                if names(order.take(k + 1), q) {
                    let i = choose|i: int| 0 <= i < k + 1 && #[trigger] key_view(order.take(k + 1)[i]) == q;
                    if i < k {
                        assert(key_view(order.take(k as int)[i]) == q);
                    }
                }
                if names(order.take(k as int), q) {
                    let i = choose|i: int| 0 <= i < k && #[trigger] key_view(order.take(k as int)[i]) == q;
                    assert(key_view(order.take(k + 1)[i]) == q);
                }
                if q == ok {
                    assert(key_view(order.take(k + 1)[k as int]) == q);
                }
            }
            assert(k < order.len() - 1);
            assert(order.drop_last()[k as int] == oldest);
        }
        state.renderable_artwork_cache.remove(&oldest);
        k = k + 1;
    }
    proof {
        assert(order.take(cut) == evicted(order));
        assert(order.skip(cut) == retained(order));
        if names(evicted(order), kv) {
            let i = choose|i: int| 0 <= i < evicted(order).len() && #[trigger] key_view(evicted(order)[i]) == kv;
            assert(key_view(order.drop_last()[i]) == kv);
        }
    }
}

/// The source fingerprint a display-ready entry was made from.
pub open spec fn entry_fingerprint(e: RenderableArtworkCacheEntry) -> u64 {
    match e {
        RenderableArtworkCacheEntry::Loading { source_fingerprint } => source_fingerprint,
        RenderableArtworkCacheEntry::Ready { source_fingerprint, .. } => source_fingerprint,
        RenderableArtworkCacheEntry::Unavailable { source_fingerprint, .. } => source_fingerprint,
    }
}

/// Whether a display-ready entry for `key` was made from the source with this fingerprint.
pub open spec fn spec_renderable_is_cached(state: AppState, key: ArtworkKey, source_fingerprint: u64) -> bool {
    match state.renderable_artwork_cache.get_spec(key_view(key)) {
        Some(e) => entry_fingerprint(e) == source_fingerprint,
        None => false,
    }
}

pub fn renderable_artwork_is_cached(state: &AppState, key: &ArtworkKey, source_fingerprint: u64) -> (r: bool)
    requires
        state.caches_wf(),
    ensures
        r == spec_renderable_is_cached(*state, *key, source_fingerprint),
{
    match state.renderable_artwork_cache.get(key) {
        Some(RenderableArtworkCacheEntry::Loading { source_fingerprint: cached }) => *cached == source_fingerprint,
        Some(RenderableArtworkCacheEntry::Ready { source_fingerprint: cached, .. }) => *cached == source_fingerprint,
        Some(RenderableArtworkCacheEntry::Unavailable { source_fingerprint: cached, .. }) => *cached == source_fingerprint,
        None => false,
    }
}

/// An artwork by its media type and bytes.
pub open spec fn artwork_view(a: Artwork) -> (ArtworkMediaType, Seq<u8>) {
    (a.media_type, a.bytes@)
}

/// Whether a stored display-ready entry is ready and made from this source.
pub open spec fn ready_for(e: RenderableArtworkCacheEntry, source_fingerprint: u64) -> bool {
    e matches RenderableArtworkCacheEntry::Ready { source_fingerprint: f, .. } && f == source_fingerprint
}

/// Whether a stored display-ready entry is ready, made from this source, and shows `a`.
pub open spec fn ready_with(e: RenderableArtworkCacheEntry, source_fingerprint: u64, a: Artwork) -> bool {
    match e {
        RenderableArtworkCacheEntry::Ready { source_fingerprint: f, artwork } => f == source_fingerprint
            && artwork_view(artwork) == artwork_view(a),
        _ => false,
    }
}

/// A display-ready artwork already made from the source with this fingerprint: that of
/// the first such stored entry.
pub fn renderable_artwork_for_source(state: &AppState, source_fingerprint: u64) -> (r: Option<Artwork>)
    ensures
        r is None <==> forall|i: int|
            0 <= i < state.renderable_artwork_cache.val_seq().len() ==> !ready_for(
                #[trigger] state.renderable_artwork_cache.val_seq()[i],
                source_fingerprint,
            ),
        r matches Some(a) ==> exists|i: int|
            0 <= i < state.renderable_artwork_cache.val_seq().len() && ready_with(
                #[trigger] state.renderable_artwork_cache.val_seq()[i],
                source_fingerprint,
                a,
            ),
{
    let values = state.renderable_artwork_cache.values();
    let mut i: usize = 0;
    while i < values.len()
        invariant
            values@ == state.renderable_artwork_cache.val_seq(),
            i <= values@.len(),
            forall|j: int| 0 <= j < i ==> !ready_for(#[trigger] values@[j], source_fingerprint),
        decreases values.len() - i,
    {
        match &values[i] {
            RenderableArtworkCacheEntry::Ready { source_fingerprint: f, artwork } => {
                if *f == source_fingerprint {
                    let a = artwork.duplicate();
                    assert(ready_with(values@[i as int], source_fingerprint, a));
                    return Some(a);
                }
            },
            _ => {},
        }
        i = i + 1;
    }
    None
}

/// Whether an artwork result still belongs to what is shown: a track key for the current
/// track, an album key for the current track's album or the open album.
pub open spec fn spec_artwork_key_is_current(state: AppState, key: ArtworkKey) -> bool {
    match key {
        ArtworkKey::Track(track_id) => match state.playback.current_track {
            Some(t) => t.id@ == track_id@,
            None => false,
        },
        ArtworkKey::Album(album_id) => {
            (match state.playback.current_track {
                Some(t) => key_view(spec_artwork_key_for_track(state, t.id)) == key_view(key),
                None => false,
            }) || (match state.navigation.active {
                Route::AlbumDetail { album_id: active } => active@ == album_id@,
                _ => false,
            })
        },
        ArtworkKey::Playlist(_) => false,
    }
}

pub fn artwork_key_is_current(state: &AppState, key: &ArtworkKey) -> (r: bool)
    ensures
        r == spec_artwork_key_is_current(*state, *key),
{
    match key {
        ArtworkKey::Track(track_id) => match &state.playback.current_track {
            Some(t) => t.id.same(track_id),
            None => false,
        },
        ArtworkKey::Album(album_id) => {
            let playing = match &state.playback.current_track {
                Some(t) => state.artwork_key_for_track(&t.id).same(key),
                None => false,
            };
            playing || match &state.navigation.active {
                Route::AlbumDetail { album_id: active } => active.same(album_id),
                _ => false,
            }
        },
        ArtworkKey::Playlist(_) => false,
    }
}

/// `new` is `old` after a conversion of the source artwork for `key` finished.
pub open spec fn conversion_applied(old: AppState, new: AppState, key: ArtworkKey, source_fingerprint: u64, result: Result<Artwork, String>) -> bool {
    ({
        let current = match old.artwork_cache.get_spec(key_view(key)) {
            Some(ArtworkCacheEntry::Ready(source)) => spec_fingerprint(source) == source_fingerprint,
            _ => false,
        };
        &&& !current ==> new == old
        &&& current ==> {
            let order = without_key(old.renderable_artwork_cache_order@, key_view(key)).push(key);
            let gone = evicted(order);
            &&& new.renderable_artwork_cache_order@ == retained(order)
            &&& new.renderable_artwork_cache.get_spec(key_view(key)) == Some(match result {
                Ok(artwork) => RenderableArtworkCacheEntry::Ready { source_fingerprint, artwork },
                Err(message) => RenderableArtworkCacheEntry::Unavailable { source_fingerprint, message },
            })
            &&& forall|q: (u8, Seq<char>)| q != key_view(key) ==> #[trigger] new.renderable_artwork_cache.get_spec(q) == if names(gone, q) {
                None
            } else {
                old.renderable_artwork_cache.get_spec(q)
            }
            &&& new == (AppState {
                renderable_artwork_cache: new.renderable_artwork_cache,
                renderable_artwork_cache_order: new.renderable_artwork_cache_order,
                ..old
            })
        }
    })
}

/// Records the outcome of converting a source artwork to a displayable one, if the
/// source it was made from is still the cached source for `key`.
pub fn apply_artwork_conversion(state: &mut AppState, key: ArtworkKey, source_fingerprint: u64, result: Result<Artwork, String>)
    requires
        old(state).caches_wf(),
    ensures
        final(state).caches_wf(),
        conversion_applied(*old(state), *final(state), key, source_fingerprint, result),
{
    let current = match state.artwork_cache.get(&key) {
        Some(ArtworkCacheEntry::Ready(source)) => source.fingerprint() == source_fingerprint,
        _ => false,
    };
    if !current {
        return;
    }
    let entry = match result {
        Ok(artwork) => RenderableArtworkCacheEntry::Ready { source_fingerprint, artwork },
        Err(message) => RenderableArtworkCacheEntry::Unavailable { source_fingerprint, message },
    };
    insert_renderable_artwork_cache(state, key, entry);
}

/// `new` holds `v` under `kv` and what `old` holds under every other key.
pub open spec fn map_updated<V>(new: ArtworkMap<V>, old: ArtworkMap<V>, kv: (u8, Seq<char>), v: Option<V>) -> bool {
    &&& new.wf()
    &&& new.get_spec(kv) == v
    &&& forall|q: (u8, Seq<char>)| q != kv ==> #[trigger] new.get_spec(q) == old.get_spec(q)
}

/// `new` is `old` with a transient source entry for `key` dropped, so that it can be
/// requested again; any other entry stays.
pub open spec fn transient_cleared(old: AppState, new: AppState, key: ArtworkKey) -> bool {
    if old.artwork_cache.get_spec(key_view(key)) matches Some(ArtworkCacheEntry::Transient(_)) {
        &&& map_updated(new.artwork_cache, old.artwork_cache, key_view(key), None)
        &&& new.artwork_cache_order@ == without_key(old.artwork_cache_order@, key_view(key))
        &&& new == (AppState { artwork_cache: new.artwork_cache, artwork_cache_order: new.artwork_cache_order, ..old })
    } else {
        new == old
    }
}

/// `new` is `old` with a request for `key` started: the track asked for and a first
/// attempt recorded, and the key's cache entry marked as loading.
pub open spec fn request_started(old: AppState, new: AppState, key: ArtworkKey, track_id: TrackId) -> bool {
    exists|started: AppState|
        #![trigger cache_inserted(started, new, key, ArtworkCacheEntry::Loading)]
        map_updated(started.artwork_request_tracks, old.artwork_request_tracks, key_view(key), Some(track_id))
            && map_updated(started.artwork_retry_attempts, old.artwork_retry_attempts, key_view(key), Some(0u8))
            && started == (AppState {
                artwork_request_tracks: started.artwork_request_tracks,
                artwork_retry_attempts: started.artwork_retry_attempts,
                ..old
            }) && cache_inserted(started, new, key, ArtworkCacheEntry::Loading)
}

/// `new` and `r` are what asking for a track's artwork under `key` gives: a transient
/// entry is dropped first; then nothing more happens if the key is cached or artwork
/// cannot be read, and otherwise the request is started and the command returned.
pub open spec fn track_artwork_requested(old: AppState, new: AppState, r: Seq<Command>, key: ArtworkKey, track_id: TrackId) -> bool {
    exists|cleared: AppState|
        #![trigger transient_cleared(old, cleared, key)]
        transient_cleared(old, cleared, key) && if cleared.artwork_cache.get_spec(key_view(key)) is Some
            || !cleared.capabilities@.contains(Capability::ArtworkRead) {
            r.len() == 0 && new == cleared
        } else {
            r == seq![Command::Backend(BackendCommand::LoadTrackArtwork { key, track_id })]
                && request_started(cleared, new, key, track_id)
        }
}

/// Asks the backend for a track's artwork under `key` unless it is cached (a transient
/// failure does not count) or the backend cannot read artwork.
pub fn request_track_artwork(state: &mut AppState, key: ArtworkKey, track_id: TrackId) -> (r: Vec<Command>)
    requires
        old(state).caches_wf(),
    ensures
        final(state).caches_wf(),
        track_artwork_requested(*old(state), *final(state), r@, key, track_id),
{
    let ghost s0 = *state;
    let transient = match state.artwork_cache.get(&key) {
        Some(ArtworkCacheEntry::Transient(_)) => true,
        _ => false,
    };
    if transient {
        state.artwork_cache.remove(&key);
        drop_key(&mut state.artwork_cache_order, &key);
    }
    let ghost cleared = *state;
    assert(transient_cleared(s0, cleared, key));
    if state.artwork_cache.contains_key(&key) || !state.capabilities.supports(Capability::ArtworkRead) {
        let r = Vec::new();
        assert(transient_cleared(s0, cleared, key) && r@.len() == 0 && *state == cleared);
        return r;
    }
    state.artwork_request_tracks.insert(key.duplicate(), track_id.duplicate());
    state.artwork_retry_attempts.insert(key.duplicate(), 0);
    let ghost started = *state;
    insert_artwork_cache(state, key.duplicate(), ArtworkCacheEntry::Loading);
    assert(cache_inserted(started, *state, key, ArtworkCacheEntry::Loading));
    assert(request_started(cleared, *state, key, track_id));
    let r = crate::action::single(Command::Backend(BackendCommand::LoadTrackArtwork { key, track_id }));
    assert(transient_cleared(s0, cleared, key));
    r
}

/// Whether a track identity names a Music.app track stably.
pub open spec fn stable_track_id(id: Seq<char>) -> bool {
    has_prefix(id, crate::domain::persistent_prefix()) || has_prefix(id, crate::domain::database_prefix())
}

/// The position of the first track with a stable identity, or -1.
pub open spec fn first_stable(tracks: Seq<crate::domain::Track>) -> int
    decreases tracks.len(),
{
    if tracks.len() == 0 {
        -1
    } else if first_stable(tracks.drop_last()) >= 0 {
        first_stable(tracks.drop_last())
    } else if stable_track_id(tracks.last().id@) {
        tracks.len() - 1
    } else {
        -1
    }
}

fn find_stable(tracks: &Vec<crate::domain::Track>) -> (r: Option<usize>)
    ensures
        first_stable(tracks@) == match r {
            Some(i) => i as int,
            None => -1,
        },
        r matches Some(i) ==> i < tracks@.len(),
{
    let mut i: usize = 0;
    while i < tracks.len()
        invariant
            i <= tracks@.len(),
            first_stable(tracks@.take(i as int)) == -1,
        decreases tracks.len() - i,
    {
        assert(tracks@.take(i + 1).drop_last() =~= tracks@.take(i as int));
        let id = tracks[i].id.as_str();
        proof {
            reveal_strlit("musicapp:persistent:");
            reveal_strlit("musicapp:database:");
            assert("musicapp:persistent:"@ =~= crate::domain::persistent_prefix());
            assert("musicapp:database:"@ =~= crate::domain::database_prefix());
        }
        if starts_with_text(id, "musicapp:persistent:") || starts_with_text(id, "musicapp:database:") {
            proof {
                lemma_first_stable_prefix(tracks@, i + 1);
            }
            return Some(i);
        }
        i = i + 1;
    }
    assert(tracks@.take(tracks@.len() as int) =~= tracks@);
    None
}

proof fn lemma_first_stable_prefix(tracks: Seq<crate::domain::Track>, n: int)
    requires
        0 <= n <= tracks.len(),
        first_stable(tracks.take(n)) >= 0,
    ensures
        first_stable(tracks) == first_stable(tracks.take(n)),
    decreases tracks.len() - n,
{
    if n < tracks.len() {
        assert(tracks.take(n + 1).drop_last() =~= tracks.take(n));
        lemma_first_stable_prefix(tracks, n + 1);
    } else {
        assert(tracks.take(n) =~= tracks);
    }
}

/// The note cached for an album none of whose tracks has a stable identity.
pub open spec fn no_stable_identity() -> Seq<char> {
    "No stable local artwork identity"@
}

/// `new` and `r` are what asking for an album's artwork gives (see
/// `request_album_artwork`).
pub open spec fn album_artwork_requested(old: AppState, new: AppState, r: Seq<Command>, album_id: AlbumId) -> bool {
    let key = ArtworkKey::Album(album_id);
    let entry = old.artwork_cache.get_spec(key_view(key));
    let transient = entry matches Some(ArtworkCacheEntry::Transient(_));
    let a = first_album(old.albums@, album_id@);
    let t = if a >= 0 {
        first_stable(old.albums@[a].tracks@)
    } else {
        -1
    };
    if (entry is Some && !transient) || !old.capabilities@.contains(Capability::ArtworkRead) {
        r.len() == 0 && new == old
    } else if t < 0 {
        r.len() == 0 && match new.artwork_cache.get_spec(key_view(key)) {
            Some(ArtworkCacheEntry::Unavailable(message)) => message@ == no_stable_identity()
                && cache_inserted(old, new, key, ArtworkCacheEntry::Unavailable(message)),
            _ => false,
        }
    } else {
        let track_id = old.albums@[a].tracks@[t].id;
        exists|cleared: AppState|
            #![trigger transient_cleared(old, cleared, key)]
            transient_cleared(old, cleared, key) && r == seq![
                Command::Backend(BackendCommand::LoadTrackArtwork { key, track_id }),
            ] && request_started(cleared, new, key, track_id)
    }
}

/// Asks for an album's artwork through its first track with a stable identity, unless
/// it is cached (a transient failure does not count) or the backend cannot read artwork;
/// an album without such a track is cached as unavailable.
pub fn request_album_artwork(state: &mut AppState, album_id: AlbumId) -> (r: Vec<Command>)
    requires
        old(state).caches_wf(),
    ensures
        final(state).caches_wf(),
        album_artwork_requested(*old(state), *final(state), r@, album_id),
{
    let key = ArtworkKey::Album(album_id.duplicate());
    let transient = match state.artwork_cache.get(&key) {
        Some(ArtworkCacheEntry::Transient(_)) => true,
        _ => false,
    };
    if (state.artwork_cache.contains_key(&key) && !transient) || !state.capabilities.supports(Capability::ArtworkRead) {
        return Vec::new();
    }
    let track_id = match find_album(&state.albums, &album_id) {
        Some(a) => match find_stable(&state.albums[a].tracks) {
            Some(t) => Some(state.albums[a].tracks[t].id.duplicate()),
            None => None,
        },
        None => None,
    };
    match track_id {
        None => {
            let message = "No stable local artwork identity".to_owned();
            proof {
                reveal_strlit("No stable local artwork identity");
            }
            let ghost m = message;
            insert_artwork_cache(state, key, ArtworkCacheEntry::Unavailable(message));
            assert(m@ == no_stable_identity());
            Vec::new()
        },
        Some(track_id) => {
            let ghost s0 = *state;
            let r = request_track_artwork(state, key, track_id);
            proof {
                let cleared = choose|cleared: AppState| #[trigger] transient_cleared(s0, cleared, key) && if cleared.artwork_cache.get_spec(key_view(key)) is Some
                    || !cleared.capabilities@.contains(Capability::ArtworkRead) {
                    r@.len() == 0 && *state == cleared
                } else {
                    r@ == seq![Command::Backend(BackendCommand::LoadTrackArtwork { key, track_id })]
                        && request_started(cleared, *state, key, track_id)
                };
                assert(cleared.artwork_cache.get_spec(key_view(key)) is None);
            }
            r
        },
    }
}

/// Artwork just stored under a key is what the cache holds for that key, and the cache never
/// holds more than its bound.
pub proof fn law_inserted_artwork_is_cached(old: AppState, new: AppState, key: ArtworkKey, entry: ArtworkCacheEntry)
    requires
        cache_inserted(old, new, key, entry),
    ensures
        new.artwork_cache.get_spec(key_view(key)) == Some(entry),
        new.artwork_cache_order@.len() <= MAX_ARTWORK_CACHE_ENTRIES,
{
    assert(new.artwork_cache.get_spec(key_view(key)) == Some(entry));
}

} // verus!
