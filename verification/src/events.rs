//! What each backend event does to the application state, and the commands it leads to.
use vstd::prelude::*;

use crate::action::{single, Command};
use crate::artwork::{key_view, spec_fingerprint, Artwork, ArtworkKey, ArtworkMediaType, ArtworkResult};
use crate::artwork_cache::{
    artwork_key_is_current, artwork_view, cache_inserted, insert_artwork_cache,
    insert_renderable_artwork_cache, map_updated, names, renderable_artwork_for_source,
    renderable_artwork_is_cached, renderable_inserted, ready_for, spec_artwork_key_is_current,
    spec_renderable_is_cached,
};
use crate::state::{ArtworkCacheEntry, RenderableArtworkCacheEntry};
use crate::text::{has_prefix, starts_with_text};
use crate::backend::{BackendEvent, BackendUpdate};
use crate::capabilities::Capabilities;
use crate::context_menu::noticed;
use crate::domain::{
    BackendAvailability, BackendSnapshot, CollectionLoadState, PlaybackSnapshot, Playlist,
    PlaylistId, PlaylistLoadState, Track, TrackId,
};
use crate::library::{playlists_replaced, replace_playlists};
use crate::menus::{rebuild_library_views, views_rebuilt};
use crate::navigation::{clamp_selections, clamped, last_row, playlist_position};
use crate::playlists::first_with_id;
use crate::search::{
    index_rebuilt, index_view, kept_entries, merge_library_tracks, merged_library, rebuild_search_index,
    refresh_search, refresh_track_search_entries, searched, track_index_view,
};
use crate::state::{LocalSearchIndexEntry, LocalSearchResult};
use crate::domain::{Album, Artist, RecentlyPlayedEntry};
use crate::state::{AppState, BackendStatus, ViewStatus};
use crate::text::{push_decimal, push_text, spec_decimal};

verus! {

/// `new` is `old` with the search index, the library views and the search results
/// recomputed in turn.
pub open spec fn derived_rebuilt(old: AppState, new: AppState) -> bool {
    exists|c: AppState, d: AppState|
        #![trigger index_rebuilt(old, c), views_rebuilt(c, d)]
        index_rebuilt(old, c) && views_rebuilt(c, d) && searched(d, new)
}

fn rebuild_derived(state: &mut AppState)
    ensures
        derived_rebuilt(*old(state), *final(state)),
{
    rebuild_search_index(state);
    let ghost c = *state;
    rebuild_library_views(state);
    let ghost d = *state;
    refresh_search(state);
    assert(index_rebuilt(*old(state), c) && views_rebuilt(c, d) && searched(d, *state));
}

/// `state` with a playback report installed.
pub open spec fn with_playback(state: AppState, availability: BackendAvailability, playback: PlaybackSnapshot) -> AppState {
    AppState { backend_availability: availability, playback, ..state }
}

/// `state` with the lists of a snapshot installed, before its playlists are.
pub open spec fn with_snapshot_lists(state: AppState, s: BackendSnapshot) -> AppState {
    AppState {
        backend_availability: s.availability,
        playback: s.playback,
        queue: s.queue,
        library: s.library,
        artists: s.artists,
        albums: s.albums,
        recently_added: s.recently_added,
        recently_played: s.recently_played,
        stations: s.stations,
        ..state
    }
}

/// `new` is `old` with a whole snapshot installed and everything derived from it rebuilt.
pub open spec fn snapshot_installed(old: AppState, new: AppState, s: BackendSnapshot) -> bool {
    exists|b: AppState|
        #![trigger playlists_replaced(with_snapshot_lists(old, s), b, s.playlists@)]
        playlists_replaced(with_snapshot_lists(old, s), b, s.playlists@) && derived_rebuilt(
            AppState { library_status: s.library_status, playlist_status: s.playlist_status, ..b },
            new,
        )
}

fn install_snapshot(state: &mut AppState, s: BackendSnapshot)
    ensures
        snapshot_installed(*old(state), *final(state), s),
{
    let ghost gs = s;
    let BackendSnapshot {
        availability,
        playback,
        queue,
        library,
        artists,
        albums,
        recently_added,
        recently_played,
        stations,
        playlists,
        library_status,
        playlist_status,
    } = s;
    state.backend_availability = availability;
    state.playback = playback;
    state.queue = queue;
    state.library = library;
    state.artists = artists;
    state.albums = albums;
    state.recently_added = recently_added;
    state.recently_played = recently_played;
    state.stations = stations;
    assert(*state == with_snapshot_lists(*old(state), gs));
    replace_playlists(state, playlists);
    let ghost b = *state;
    state.library_status = library_status;
    state.playlist_status = playlist_status;
    rebuild_derived(state);
    assert(playlists_replaced(with_snapshot_lists(*old(state), gs), b, gs.playlists@));
}

/// The notice shown while the library refreshes.
pub open spec fn refreshing_notice() -> Seq<char> {
    "Refreshing library…"@
}

pub open spec fn refresh_failed_notice() -> Seq<char> {
    "Library refresh failed; cached data remains"@
}

pub open spec fn refresh_complete_notice() -> Seq<char> {
    "Library refresh complete"@
}

pub open spec fn removed_notice() -> Seq<char> {
    "Removed track from playlist"@
}

pub open spec fn removal_stale_notice() -> Seq<char> {
    "Playlist changed before removal could be applied; reload it"@
}

pub open spec fn removal_failed_notice() -> Seq<char> {
    "Remove failed: Music.app rejected the operation"@
}

pub open spec fn load_failed_notice(message: Seq<char>) -> Seq<char> {
    "Failed to load playlist: "@ + message
}

/// Whether the library is showing cached contents that a scan is refreshing.
pub open spec fn refreshing_cache(status: CollectionLoadState) -> bool {
    status is Cached || status is Refreshing
}

/// `state` after a playlists report is installed: the view is loaded, the playlist list
/// is loaded in full, and a cached library counts as refreshing.
pub open spec fn playlists_marked(b: AppState) -> AppState {
    AppState {
        view_status: ViewStatus::Loaded,
        playlist_status: CollectionLoadState::Loaded { total: b.playlists@.len() as usize },
        library_status: if refreshing_cache(b.library_status) {
            CollectionLoadState::Refreshing { loaded: 0, total: 0 }
        } else {
            b.library_status
        },
        ..b
    }
}

/// `new` is `old` after a report of the playlists list: the playback report and the
/// playlists are installed and marked, and the search index and results are rebuilt
/// before the selections are clamped.
pub open spec fn playlists_installed(old: AppState, new: AppState, availability: BackendAvailability, playback: PlaybackSnapshot, fresh: Seq<Playlist>) -> bool {
    exists|b: AppState, c: AppState, d: AppState|
        #![trigger playlists_replaced(with_playback(old, availability, playback), b, fresh), index_rebuilt(playlists_marked(b), c), searched(c, d)]
        playlists_replaced(with_playback(old, availability, playback), b, fresh) && index_rebuilt(playlists_marked(b), c)
            && searched(c, d) && clamped(d, new)
}

fn install_playlists(state: &mut AppState, availability: BackendAvailability, playback: PlaybackSnapshot, fresh: Vec<Playlist>)
    ensures
        playlists_installed(*old(state), *final(state), availability, playback, fresh@),
{
    let ghost ga = availability;
    let ghost gp = playback;
    let ghost gf = fresh@;
    state.backend_availability = availability;
    state.playback = playback;
    replace_playlists(state, fresh);
    let ghost b = *state;
    state.view_status = ViewStatus::Loaded;
    state.playlist_status = CollectionLoadState::Loaded { total: state.playlists.len() };
    let refreshing = match state.library_status {
        CollectionLoadState::Cached { .. } | CollectionLoadState::Refreshing { .. } => true,
        _ => false,
    };
    if refreshing {
        state.library_status = CollectionLoadState::Refreshing { loaded: 0, total: 0 };
    }
    let ghost b2 = *state;
    rebuild_search_index(state);
    let ghost c = *state;
    refresh_search(state);
    let ghost d = *state;
    clamp_selections(state);
    assert(b2 == playlists_marked(b));
    assert(playlists_replaced(with_playback(*old(state), ga, gp), b, gf) && index_rebuilt(b2, c) && searched(c, d) && clamped(d, *state));
}

/// The load state of a playlist after a batch of its tracks arrived.
pub open spec fn batch_state(loaded: usize, total: usize, complete: bool) -> PlaylistLoadState {
    if complete && total == 0 {
        PlaylistLoadState::Empty
    } else if complete {
        PlaylistLoadState::Loaded { total }
    } else if loaded == 0 {
        PlaylistLoadState::Loading { loaded, total: Some(total) }
    } else {
        PlaylistLoadState::PartiallyLoaded { loaded, total }
    }
}

/// `new` is `old` with the playlist at `i` changed as `changed` allows and every other
/// playlist kept.
pub open spec fn playlist_changed(old: AppState, new: AppState, i: int) -> bool {
    &&& new.playlists@.len() == old.playlists@.len()
    &&& forall|k: int| 0 <= k < old.playlists@.len() && k != i ==> #[trigger] new.playlists@[k] == old.playlists@[k]
}

/// `new` is `old` after a batch of a playlist's tracks: a batch that starts the load
/// replaces the tracks, a later one appends; the count and load state follow the batch.
pub open spec fn batch_applied(old: AppState, new: AppState, playlist_id: PlaylistId, tracks: Seq<Track>, loaded: usize, total: usize, complete: bool) -> bool {
    let i = first_with_id(old.playlists@, playlist_id@);
    if i >= 0 {
        let p = old.playlists@[i];
        let q = new.playlists@[i];
        &&& playlist_changed(old, new, i)
        &&& q == (Playlist { tracks: q.tracks, track_count: total, contents_state: batch_state(loaded, total, complete), ..p })
        &&& q.tracks@ == (if loaded == tracks.len() {
            Seq::empty()
        } else {
            p.tracks@
        }) + tracks
        &&& new == (AppState { playlists: new.playlists, ..old })
    } else {
        new == old
    }
}

fn apply_playlist_batch(state: &mut AppState, playlist_id: PlaylistId, tracks: Vec<Track>, loaded: usize, total: usize, complete: bool)
    ensures
        batch_applied(*old(state), *final(state), playlist_id, tracks@, loaded, total, complete),
{
    let i = match playlist_position(state, &playlist_id) {
        None => return,
        Some(i) => i,
    };
    let ghost p = state.playlists@[i as int];
    let mut list: Vec<Track> = Vec::new();
    if loaded != tracks.len() {
        std::mem::swap(&mut list, &mut state.playlists[i].tracks);
    }
    let ghost start = list@;
    let mut tracks = tracks;
    let ghost gt = tracks@;
    let mut rest: Vec<Track> = Vec::new();
    while tracks.len() > 0
        invariant
            gt == tracks@ + rest@.reverse(),
        decreases tracks@.len(),
    {
        let t = tracks.pop().unwrap();
        let ghost before = rest@;
        rest.push(t);
        assert(rest@.reverse() =~= seq![t] + before.reverse());
    }
    assert(rest@.reverse() =~= gt);
    while rest.len() > 0
        invariant
            list@ + rest@.reverse() == start + gt,
        decreases rest@.len(),
    {
        let ghost before = rest@;
        let t = rest.pop().unwrap();
        list.push(t);
        assert(before.reverse() =~= seq![t] + rest@.reverse());
    }
    assert(list@ =~= start + gt);
    let count = total;
    let st = if complete && total == 0 {
        PlaylistLoadState::Empty
    } else if complete {
        PlaylistLoadState::Loaded { total }
    } else if loaded == 0 {
        PlaylistLoadState::Loading { loaded, total: Some(total) }
    } else {
        PlaylistLoadState::PartiallyLoaded { loaded, total }
    };
    std::mem::swap(&mut list, &mut state.playlists[i].tracks);
    state.playlists[i].track_count = count;
    state.playlists[i].contents_state = st;
}

/// `new` is `old` after a playlist failed to load: the first playlist with that identity
/// records the failure, and the user is told.
pub open spec fn load_failure_applied(old: AppState, new: AppState, playlist_id: PlaylistId, message: Seq<char>) -> bool {
    let i = first_with_id(old.playlists@, playlist_id@);
    &&& i >= 0 ==> {
        let p = old.playlists@[i];
        &&& playlist_changed(old, new, i)
        &&& new.playlists@[i] == (Playlist { contents_state: new.playlists@[i].contents_state, ..p })
        &&& new.playlists@[i].contents_state matches PlaylistLoadState::Error(m) && m@ == message
    }
    &&& i < 0 ==> new.playlists == old.playlists
    &&& new == (AppState { playlists: new.playlists, notification: new.notification, ..old })
    &&& new.notification matches Some(m) && m@ == load_failed_notice(message)
}

fn apply_load_failure(state: &mut AppState, playlist_id: PlaylistId, message: String)
    ensures
        load_failure_applied(*old(state), *final(state), playlist_id, message@),
{
    match playlist_position(state, &playlist_id) {
        Some(i) => {
            state.playlists[i].contents_state = PlaylistLoadState::Error(message.clone());
        },
        None => {},
    }
    let mut text = "Failed to load playlist: ".to_owned();
    proof {
        reveal_strlit("Failed to load playlist: ");
    }
    push_text(&mut text, message.as_str());
    state.notification = Some(text);
}

/// The load state of a playlist after one of its rows was removed.
pub open spec fn after_removal(state: PlaylistLoadState, remaining: nat, count: usize) -> PlaylistLoadState {
    if remaining == 0 && state.spec_is_complete() {
        PlaylistLoadState::Empty
    } else if state.spec_is_complete() {
        PlaylistLoadState::Loaded { total: count }
    } else {
        state
    }
}

/// `new` is `old` after the backend removed row `index` of a playlist: when the row still
/// holds the expected track it is dropped, the count and load state follow, the selection
/// stays within the rows and the user is told; otherwise the user is asked to reload.
pub open spec fn removal_applied(old: AppState, new: AppState, playlist_id: PlaylistId, index: usize, expected: TrackId) -> bool {
    let i = first_with_id(old.playlists@, playlist_id@);
    if i >= 0 && index < old.playlists@[i].tracks@.len() && old.playlists@[i].tracks@[index as int].id@ == expected@ {
        let p = old.playlists@[i];
        let q = new.playlists@[i];
        let count = if p.track_count > 0 {
            (p.track_count - 1) as usize
        } else {
            0
        };
        &&& playlist_changed(old, new, i)
        &&& q.tracks@ == p.tracks@.remove(index as int)
        &&& q == (Playlist {
            tracks: q.tracks,
            track_count: count,
            contents_state: after_removal(p.contents_state, q.tracks@.len(), count),
            ..p
        })
        &&& new.content_selection == (if old.content_selection <= last_row(q.tracks@.len()) {
            old.content_selection
        } else {
            last_row(q.tracks@.len()) as usize
        })
        &&& new == (AppState {
            playlists: new.playlists,
            content_selection: new.content_selection,
            notification: new.notification,
            ..old
        })
        &&& new.notification matches Some(m) && m@ == removed_notice()
    } else {
        noticed(old, new, removal_stale_notice())
    }
}

fn apply_removal(state: &mut AppState, playlist_id: PlaylistId, index: usize, expected: TrackId)
    ensures
        removal_applied(*old(state), *final(state), playlist_id, index, expected),
{
    let i = match playlist_position(state, &playlist_id) {
        Some(i) => i,
        None => {
            state.notification = Some("Playlist changed before removal could be applied; reload it".to_owned());
            proof {
                reveal_strlit("Playlist changed before removal could be applied; reload it");
            }
            return;
        },
    };
    if index >= state.playlists[i].tracks.len() || !state.playlists[i].tracks[index].id.same(&expected) {
        state.notification = Some("Playlist changed before removal could be applied; reload it".to_owned());
        proof {
            reveal_strlit("Playlist changed before removal could be applied; reload it");
        }
        return;
    }
    let mut list: Vec<Track> = Vec::new();
    std::mem::swap(&mut list, &mut state.playlists[i].tracks);
    list.remove(index);
    let remaining = list.len();
    std::mem::swap(&mut list, &mut state.playlists[i].tracks);
    let count = if state.playlists[i].track_count > 0 {
        state.playlists[i].track_count - 1
    } else {
        0
    };
    state.playlists[i].track_count = count;
    let complete = state.playlists[i].contents_state.is_complete();
    if remaining == 0 && complete {
        state.playlists[i].contents_state = PlaylistLoadState::Empty;
    } else if complete {
        state.playlists[i].contents_state = PlaylistLoadState::Loaded { total: count };
    }
    let last = if remaining > 0 {
        remaining - 1
    } else {
        0
    };
    if state.content_selection > last {
        state.content_selection = last;
    }
    state.notification = Some("Removed track from playlist".to_owned());
    proof {
        reveal_strlit("Removed track from playlist");
    }
}

/// `new` is `old` after a backend error: a pending playlist removal is reported as
/// rejected; during startup the error becomes the backend's and the view's state; later
/// it marks the backend as failing; the message is shown in the last two cases.
pub open spec fn error_applied(old: AppState, new: AppState, message: String) -> bool {
    if old.playlist_track_removal_in_flight {
        &&& new == (AppState { playlist_track_removal_in_flight: false, notification: new.notification, ..old })
        &&& new.notification matches Some(m) && m@ == removal_failed_notice()
    } else if old.backend_status == BackendStatus::Initializing {
        &&& new.backend_status matches BackendStatus::Error { message: m } && m@ == message@
        &&& new.view_status matches ViewStatus::Error(m) && m@ == message@
        &&& new == (AppState {
            backend_status: new.backend_status,
            view_status: new.view_status,
            notification: Some(message),
            ..old
        })
    } else {
        &&& new.backend_availability matches BackendAvailability::Error(m) && m@ == message@
        &&& new == (AppState { backend_availability: new.backend_availability, notification: Some(message), ..old })
    }
}

fn apply_error(state: &mut AppState, message: String)
    ensures
        error_applied(*old(state), *final(state), message),
{
    if state.playlist_track_removal_in_flight {
        state.playlist_track_removal_in_flight = false;
        state.notification = Some("Remove failed: Music.app rejected the operation".to_owned());
        proof {
            reveal_strlit("Remove failed: Music.app rejected the operation");
        }
        return;
    }
    let initializing = match state.backend_status {
        BackendStatus::Initializing => true,
        _ => false,
    };
    if initializing {
        state.backend_status = BackendStatus::Error { message: message.clone() };
        state.view_status = ViewStatus::Error(message.clone());
    } else {
        state.backend_availability = BackendAvailability::Error(message.clone());
    }
    state.notification = Some(message);
}

/// The index entries of playlists, in order.
pub open spec fn playlist_entries(index: Seq<LocalSearchIndexEntry>) -> Seq<LocalSearchIndexEntry>
    decreases index.len(),
{
    if index.len() == 0 {
        Seq::empty()
    } else {
        let prev = playlist_entries(index.drop_last());
        if index.last().result is Playlist {
            prev.push(index.last())
        } else {
            prev
        }
    }
}

/// `new` is `old` with the library lists emptied and only the playlists kept in the search
/// index, when `clear` holds; `old` itself otherwise.
pub open spec fn batch_cleared(old: AppState, new: AppState, clear: bool) -> bool {
    if clear {
        &&& new.library@.len() == 0
        &&& new.artists@.len() == 0
        &&& new.albums@.len() == 0
        &&& new.recently_added@.len() == 0
        &&& new.recently_played@.len() == 0
        &&& new.search_index@ == playlist_entries(old.search_index@)
        &&& new == (AppState {
            library: new.library,
            artists: new.artists,
            albums: new.albums,
            recently_added: new.recently_added,
            recently_played: new.recently_played,
            search_index: new.search_index,
            ..old
        })
    } else {
        new == old
    }
}

fn clear_library(state: &mut AppState)
    ensures
        batch_cleared(*old(state), *final(state), true),
{
    state.library.clear();
    state.artists.clear();
    state.albums.clear();
    state.recently_added.clear();
    state.recently_played.clear();
    let mut kept: Vec<LocalSearchIndexEntry> = Vec::new();
    let mut i: usize = 0;
    while i < state.search_index.len()
        invariant
            i <= state.search_index@.len(),
            kept@ == playlist_entries(state.search_index@.take(i as int)),
        decreases state.search_index.len() - i,
    {
        assert(state.search_index@.take(i + 1).drop_last() =~= state.search_index@.take(i as int));
        let e = &state.search_index[i];
        match &e.result {
            LocalSearchResult::Playlist(id) => {
                kept.push(LocalSearchIndexEntry {
                    result: LocalSearchResult::Playlist(id.duplicate()),
                    normalized_text: e.normalized_text.clone(),
                });
            },
            _ => {},
        }
        i = i + 1;
    }
    assert(state.search_index@.take(state.search_index@.len() as int) =~= state.search_index@);
    state.search_index = kept;
}

/// The library status after a batch.
pub open spec fn batch_status(loaded: usize, total: usize, complete: bool, refreshing: bool) -> CollectionLoadState {
    if complete {
        CollectionLoadState::Loaded { total }
    } else if refreshing {
        CollectionLoadState::Refreshing { loaded, total }
    } else {
        CollectionLoadState::Loading { loaded, total }
    }
}

/// `new` is `old` with a batch's tracks taken in: the authoritative list when the batch
/// carries one, otherwise the batch merged into the library and its search entries
/// replaced.
pub open spec fn batch_merged(old: AppState, new: AppState, tracks: Seq<Track>, authoritative: Option<Vec<Track>>) -> bool {
    match authoritative {
        Some(all) => new == (AppState { library: all, ..old }),
        None => {
            &&& new.library@ == merged_library(old.library@, tracks, tracks.len())
            &&& new.search_index@.map_values(|e: LocalSearchIndexEntry| index_view(e)) == kept_entries(
                old.search_index@,
                tracks,
            ).map_values(|e: LocalSearchIndexEntry| index_view(e)) + tracks.map_values(|t: Track| track_index_view(t))
            &&& new == (AppState { library: new.library, search_index: new.search_index, ..old })
        },
    }
}

/// `new` is `old` with a batch's status recorded and, for the final batch, the derived
/// lists installed and a finished refresh announced.
pub open spec fn batch_recorded(
    old: AppState,
    new: AppState,
    loaded: usize,
    total: usize,
    complete: bool,
    refreshing: bool,
    artists: Vec<Artist>,
    albums: Vec<Album>,
    recently_added: Vec<Album>,
    recently_played: Vec<RecentlyPlayedEntry>,
) -> bool {
    let status = batch_status(loaded, total, complete, refreshing);
    if complete {
        &&& new == (AppState {
            library_status: status,
            artists,
            albums,
            recently_added,
            recently_played,
            notification: new.notification,
            ..old
        })
        &&& if refreshing {
            new.notification matches Some(m) && m@ == refresh_complete_notice()
        } else {
            new.notification == old.notification
        }
    } else {
        new == (AppState { library_status: status, ..old })
    }
}

/// `new` is `old` after taking in a batch: the playback report, the clearing of a fresh
/// load, the batch's tracks, and its status.
pub open spec fn batch_taken_in(
    old: AppState,
    new: AppState,
    availability: BackendAvailability,
    playback: PlaybackSnapshot,
    tracks: Seq<Track>,
    authoritative: Option<Vec<Track>>,
    loaded: usize,
    total: usize,
    complete: bool,
    artists: Vec<Artist>,
    albums: Vec<Album>,
    recently_added: Vec<Album>,
    recently_played: Vec<RecentlyPlayedEntry>,
) -> bool {
    let a = with_playback(old, availability, playback);
    let refreshing = refreshing_cache(old.library_status);
    exists|b: AppState, c: AppState|
        #![trigger batch_cleared(a, b, starts_fresh(loaded, tracks.len(), refreshing)), batch_merged(b, c, tracks, authoritative)]
        batch_cleared(a, b, starts_fresh(loaded, tracks.len(), refreshing)) && batch_merged(b, c, tracks, authoritative)
            && batch_recorded(c, new, loaded, total, complete, refreshing, artists, albums, recently_added, recently_played)
}

/// `new` is `old` after the views derived from a batch are brought up to date: the search
/// index for the final batch, the views when `rebuild` holds, the search results, the view
/// state, and the selections clamped when `rebuild` holds.
pub open spec fn batch_derived(old: AppState, new: AppState, complete: bool, rebuild: bool) -> bool {
    exists|e: AppState, f: AppState, g: AppState|
        #![trigger step_rebuilt(old, e, complete), views_step(e, f, rebuild), searched(f, g)]
        step_rebuilt(old, e, complete) && views_step(e, f, rebuild) && searched(f, g) && {
            let h = AppState {
                view_status: if g.library@.len() == 0 && complete {
                    ViewStatus::Empty
                } else {
                    ViewStatus::Loaded
                },
                ..g
            };
            if rebuild {
                clamped(h, new)
            } else {
                new == h
            }
        }
}

/// `new` is `old` after a batch of the library scan (see `apply_library_batch`).
pub open spec fn library_batch_applied(
    old: AppState,
    new: AppState,
    availability: BackendAvailability,
    playback: PlaybackSnapshot,
    tracks: Seq<Track>,
    authoritative: Option<Vec<Track>>,
    loaded: usize,
    total: usize,
    complete: bool,
    artists: Vec<Artist>,
    albums: Vec<Album>,
    recently_added: Vec<Album>,
    recently_played: Vec<RecentlyPlayedEntry>,
) -> bool {
    exists|d: AppState|
        #![trigger batch_derived(d, new, complete, rebuilds(refreshing_cache(old.library_status), complete))]
        batch_taken_in(
            old,
            d,
            availability,
            playback,
            tracks,
            authoritative,
            loaded,
            total,
            complete,
            artists,
            albums,
            recently_added,
            recently_played,
        ) && batch_derived(d, new, complete, rebuilds(refreshing_cache(old.library_status), complete))
}

/// Whether a batch starts a fresh load: it is the first batch and cached data is not
/// being refreshed.
pub open spec fn starts_fresh(loaded: usize, count: nat, refreshing: bool) -> bool {
    loaded == count && !refreshing
}

/// Whether a batch rebuilds the views and clamps the selections.
pub open spec fn rebuilds(refreshing: bool, complete: bool) -> bool {
    !refreshing || complete
}

/// The search index rebuilt when `rebuild` holds, unchanged otherwise.
pub open spec fn step_rebuilt(old: AppState, new: AppState, rebuild: bool) -> bool {
    if rebuild {
        index_rebuilt(old, new)
    } else {
        new == old
    }
}

/// The library views rebuilt when `rebuild` holds, unchanged otherwise.
pub open spec fn views_step(old: AppState, new: AppState, rebuild: bool) -> bool {
    if rebuild {
        views_rebuilt(old, new)
    } else {
        new == old
    }
}

fn take_in_batch(
    state: &mut AppState,
    availability: BackendAvailability,
    playback: PlaybackSnapshot,
    tracks: Vec<Track>,
    authoritative: Option<Vec<Track>>,
    loaded: usize,
    total: usize,
    complete: bool,
    artists: Vec<Artist>,
    albums: Vec<Album>,
    recently_added: Vec<Album>,
    recently_played: Vec<RecentlyPlayedEntry>,
)
    ensures
        batch_taken_in(
            *old(state),
            *final(state),
            availability,
            playback,
            tracks@,
            authoritative,
            loaded,
            total,
            complete,
            artists,
            albums,
            recently_added,
            recently_played,
        ),
{
    let ghost gauth = authoritative;
    let ghost gartists = artists;
    let ghost galbums = albums;
    let ghost gra = recently_added;
    let ghost grp = recently_played;
    let ghost ga = availability;
    let ghost gp = playback;
    let refreshing = match state.library_status {
        CollectionLoadState::Cached { .. } | CollectionLoadState::Refreshing { .. } => true,
        _ => false,
    };
    state.backend_availability = availability;
    state.playback = playback;
    let ghost a = *state;
    let clear = loaded == tracks.len() && !refreshing;
    if clear {
        clear_library(state);
    }
    let ghost b = *state;
    match authoritative {
        Some(all) => {
            state.library = all;
        },
        None => {
            merge_library_tracks(state, tracks.as_slice());
            refresh_track_search_entries(state, tracks.as_slice());
        },
    }
    let ghost c = *state;
    state.library_status = if complete {
        CollectionLoadState::Loaded { total }
    } else if refreshing {
        CollectionLoadState::Refreshing { loaded, total }
    } else {
        CollectionLoadState::Loading { loaded, total }
    };
    if complete {
        state.artists = artists;
        state.albums = albums;
        state.recently_added = recently_added;
        state.recently_played = recently_played;
        if refreshing {
            state.notification = Some("Library refresh complete".to_owned());
            proof {
                reveal_strlit("Library refresh complete");
            }
        }
    }
    assert(batch_cleared(a, b, starts_fresh(loaded, tracks@.len(), refreshing)));
    assert(batch_merged(b, c, tracks@, gauth));
    assert(batch_recorded(c, *state, loaded, total, complete, refreshing, gartists, galbums, gra, grp));
    assert(a == with_playback(*old(state), ga, gp));
    assert(refreshing == refreshing_cache(old(state).library_status));
}

fn derive_after_batch(state: &mut AppState, complete: bool, rebuild: bool)
    ensures
        batch_derived(*old(state), *final(state), complete, rebuild),
{
    if complete {
        rebuild_search_index(state);
    }
    let ghost e = *state;
    if rebuild {
        rebuild_library_views(state);
    }
    let ghost f = *state;
    refresh_search(state);
    let ghost g = *state;
    state.view_status = if state.library.len() == 0 && complete {
        ViewStatus::Empty
    } else {
        ViewStatus::Loaded
    };
    if rebuild {
        clamp_selections(state);
    }
    assert(step_rebuilt(*old(state), e, complete) && views_step(e, f, rebuild) && searched(f, g));
}

/// Applies a batch of the library scan: a batch that starts a fresh load (not a refresh of
/// cached data) clears the library first; the batch's tracks are taken in; the status is
/// recorded and the final batch installs the derived lists; the search index is rebuilt
/// for the final batch, the views unless cached data is being refreshed, then the search
/// results; the view state follows, and the selections are clamped unless cached data is
/// being refreshed.
pub fn apply_library_batch(
    state: &mut AppState,
    availability: BackendAvailability,
    playback: PlaybackSnapshot,
    tracks: Vec<Track>,
    authoritative: Option<Vec<Track>>,
    loaded: usize,
    total: usize,
    complete: bool,
    artists: Vec<Artist>,
    albums: Vec<Album>,
    recently_added: Vec<Album>,
    recently_played: Vec<RecentlyPlayedEntry>,
)
    ensures
        library_batch_applied(
            *old(state),
            *final(state),
            availability,
            playback,
            tracks@,
            authoritative,
            loaded,
            total,
            complete,
            artists,
            albums,
            recently_added,
            recently_played,
        ),
{
    let refreshing = match state.library_status {
        CollectionLoadState::Cached { .. } | CollectionLoadState::Refreshing { .. } => true,
        _ => false,
    };
    let rebuild = !refreshing || complete;
    take_in_batch(
        state,
        availability,
        playback,
        tracks,
        authoritative,
        loaded,
        total,
        complete,
        artists,
        albums,
        recently_added,
        recently_played,
    );
    let ghost d = *state;
    derive_after_batch(state, complete, rebuild);
    assert(batch_derived(d, *state, complete, rebuilds(refreshing_cache(old(state).library_status), complete)));
}

/// The prefix of the messages of failed Music.app artwork queries, which may succeed when
/// asked again.
pub open spec fn query_failed_prefix() -> Seq<char> {
    "Music.app artwork query failed:"@
}

/// Whether an artwork result is a failure worth one retry.
pub open spec fn transient_failure(result: ArtworkResult) -> bool {
    match result {
        ArtworkResult::Transient(_) => true,
        ArtworkResult::Invalid(m) => has_prefix(m@, query_failed_prefix()),
        _ => false,
    }
}

/// The note cached for artwork Music.app does not have.
pub open spec fn missing_note() -> Seq<char> {
    "No local Music.app artwork"@
}

/// The note cached for artwork over the size limit.
pub open spec fn too_large_note(encoded_bytes: usize) -> Seq<char> {
    "Artwork exceeds the 2 MiB limit ("@ + spec_decimal(encoded_bytes as nat) + " bytes)"@
}

/// Whether `entry` is what a result is cached as.
pub open spec fn cached_as(result: ArtworkResult, entry: ArtworkCacheEntry) -> bool {
    match result {
        ArtworkResult::Ready(artwork) => entry == ArtworkCacheEntry::Ready(artwork),
        ArtworkResult::Missing => entry matches ArtworkCacheEntry::Unavailable(m) && m@ == missing_note(),
        ArtworkResult::TooLarge { encoded_bytes } => entry matches ArtworkCacheEntry::Unavailable(m) && m@ == too_large_note(
            encoded_bytes,
        ),
        ArtworkResult::Transient(m) => entry == ArtworkCacheEntry::Transient(m),
        ArtworkResult::Invalid(m) => entry == ArtworkCacheEntry::Unavailable(m),
    }
}

/// `new` and `r` are what preparing a display-ready copy of a ready result gives: PNG
/// artwork is stored as it is, JPEG artwork reuses a copy made from the same source or
/// is marked as converting and a conversion is asked for; nothing happens when a copy
/// made from this source is already stored, or for other formats and results.
pub open spec fn display_prepared(old: AppState, new: AppState, r: Seq<Command>, key: ArtworkKey, result: ArtworkResult) -> bool {
    match result {
        ArtworkResult::Ready(artwork) => {
            let fp = spec_fingerprint(artwork);
            let stored = new.renderable_artwork_cache.get_spec(key_view(key));
            if spec_renderable_is_cached(old, key, fp) || artwork.media_type == ArtworkMediaType::Gif
                || artwork.media_type == ArtworkMediaType::Unknown {
                r.len() == 0 && new == old
            } else if artwork.media_type == ArtworkMediaType::Png {
                &&& r.len() == 0
                &&& stored matches Some(RenderableArtworkCacheEntry::Ready { source_fingerprint, artwork: a }) && source_fingerprint
                    == fp && artwork_view(a) == artwork_view(artwork)
                &&& renderable_inserted(old, new, key, stored.unwrap())
            } else if exists|i: int|
                0 <= i < old.renderable_artwork_cache.val_seq().len() && ready_for(
                    #[trigger] old.renderable_artwork_cache.val_seq()[i],
                    fp,
                ) {
                &&& r.len() == 0
                &&& stored matches Some(RenderableArtworkCacheEntry::Ready { source_fingerprint, artwork: a }) && source_fingerprint
                    == fp && exists|i: int|
                    0 <= i < old.renderable_artwork_cache.val_seq().len() && crate::artwork_cache::ready_with(
                        #[trigger] old.renderable_artwork_cache.val_seq()[i],
                        fp,
                        a,
                    )
                &&& renderable_inserted(old, new, key, stored.unwrap())
            } else {
                &&& r.len() == 1
                &&& r[0] matches Command::ConvertArtwork { key: k, source_fingerprint: f, source } && k == key && f == fp
                    && artwork_view(source) == artwork_view(artwork)
                &&& renderable_inserted(old, new, key, RenderableArtworkCacheEntry::Loading { source_fingerprint: fp })
            }
        },
        _ => r.len() == 0 && new == old,
    }
}

fn prepare_display(state: &mut AppState, key: &ArtworkKey, artwork: &Artwork) -> (r: Vec<Command>)
    requires
        old(state).caches_wf(),
    ensures
        final(state).caches_wf(),
        display_prepared(*old(state), *final(state), r@, *key, ArtworkResult::Ready(*artwork)),
{
    let fp = artwork.fingerprint();
    if renderable_artwork_is_cached(state, key, fp) {
        return Vec::new();
    }
    match artwork.media_type {
        ArtworkMediaType::Png => {
            insert_renderable_artwork_cache(
                state,
                key.duplicate(),
                RenderableArtworkCacheEntry::Ready { source_fingerprint: fp, artwork: artwork.duplicate() },
            );
            Vec::new()
        },
        ArtworkMediaType::Jpeg => {
            match renderable_artwork_for_source(state, fp) {
                Some(cached) => {
                    insert_renderable_artwork_cache(
                        state,
                        key.duplicate(),
                        RenderableArtworkCacheEntry::Ready { source_fingerprint: fp, artwork: cached },
                    );
                    Vec::new()
                },
                None => {
                    insert_renderable_artwork_cache(
                        state,
                        key.duplicate(),
                        RenderableArtworkCacheEntry::Loading { source_fingerprint: fp },
                    );
                    single(Command::ConvertArtwork { key: key.duplicate(), source_fingerprint: fp, source: artwork.duplicate() })
                },
            }
        },
        _ => Vec::new(),
    }
}

/// The state an artwork result starts from: the playback report is taken only when the
/// key is still current.
pub open spec fn artwork_base(old: AppState, availability: BackendAvailability, playback: PlaybackSnapshot, key: ArtworkKey) -> AppState {
    if spec_artwork_key_is_current(old, key) {
        with_playback(old, availability, playback)
    } else {
        old
    }
}

/// `new` and `r` are what caching an artwork result for `key` gives: a ready result gets
/// a display-ready copy, the result is cached, and the request record for the key is
/// dropped.
pub open spec fn result_cached(old: AppState, new: AppState, r: Seq<Command>, key: ArtworkKey, result: ArtworkResult) -> bool {
    exists|b: AppState, c: AppState|
        #![trigger display_prepared(old, b, r, key, result), cache_inserted(b, c, key, c.artwork_cache.get_spec(key_view(key)).unwrap())]
        display_prepared(old, b, r, key, result) && c.artwork_cache.get_spec(key_view(key)) is Some && cached_as(
            result,
            c.artwork_cache.get_spec(key_view(key)).unwrap(),
        ) && cache_inserted(b, c, key, c.artwork_cache.get_spec(key_view(key)).unwrap()) && map_updated(
            new.artwork_request_tracks,
            c.artwork_request_tracks,
            key_view(key),
            None,
        ) && map_updated(new.artwork_retry_attempts, c.artwork_retry_attempts, key_view(key), None) && new == (AppState {
            artwork_request_tracks: new.artwork_request_tracks,
            artwork_retry_attempts: new.artwork_retry_attempts,
            ..c
        })
}

fn cache_result(state: &mut AppState, key: ArtworkKey, result: ArtworkResult) -> (r: Vec<Command>)
    requires
        old(state).caches_wf(),
    ensures
        final(state).caches_wf(),
        result_cached(*old(state), *final(state), r@, key, result),
{
    let ghost gr = result;
    let ghost kv = key_view(key);
    let commands = match &result {
        ArtworkResult::Ready(artwork) => prepare_display(state, &key, artwork),
        _ => Vec::new(),
    };
    let ghost b = *state;
    let entry = match result {
        ArtworkResult::Ready(artwork) => ArtworkCacheEntry::Ready(artwork),
        ArtworkResult::Missing => {
            proof {
                reveal_strlit("No local Music.app artwork");
            }
            ArtworkCacheEntry::Unavailable("No local Music.app artwork".to_owned())
        },
        ArtworkResult::TooLarge { encoded_bytes } => {
            let mut m = "Artwork exceeds the 2 MiB limit (".to_owned();
            push_decimal(&mut m, encoded_bytes as u64);
            push_text(&mut m, " bytes)");
            proof {
                reveal_strlit("Artwork exceeds the 2 MiB limit (");
                reveal_strlit(" bytes)");
            }
            ArtworkCacheEntry::Unavailable(m)
        },
        ArtworkResult::Transient(m) => ArtworkCacheEntry::Transient(m),
        ArtworkResult::Invalid(m) => ArtworkCacheEntry::Unavailable(m),
    };
    let ghost ge = entry;
    assert(cached_as(gr, ge));
    insert_artwork_cache(state, key.duplicate(), entry);
    let ghost c = *state;
    state.artwork_request_tracks.remove(&key);
    state.artwork_retry_attempts.remove(&key);
    assert(c.artwork_cache.get_spec(kv) == Some(ge));
    assert(display_prepared(*old(state), b, commands@, key, gr));
    assert(cache_inserted(b, c, key, c.artwork_cache.get_spec(kv).unwrap()));
    commands
}

/// `new` and `r` are what an artwork result for `key` gives (see `apply_artwork_update`).
pub open spec fn artwork_applied(
    old: AppState,
    new: AppState,
    r: Seq<Command>,
    availability: BackendAvailability,
    playback: PlaybackSnapshot,
    key: ArtworkKey,
    result: ArtworkResult,
) -> bool {
    let stale = !spec_artwork_key_is_current(old, key);
    let a = artwork_base(old, availability, playback, key);
    let kv = key_view(key);
    let attempts = match a.artwork_retry_attempts.get_spec(kv) {
        Some(n) => n,
        None => 0u8,
    };
    let requested = a.artwork_request_tracks.get_spec(kv);
    if transient_failure(result) && !stale && attempts == 0 && requested is Some {
        &&& r == seq![Command::RetryArtwork { key, track_id: requested.unwrap() }]
        &&& map_updated(new.artwork_retry_attempts, a.artwork_retry_attempts, kv, Some(1u8))
        &&& new == (AppState { artwork_retry_attempts: new.artwork_retry_attempts, ..a })
    } else {
        result_cached(a, new, r, key, result)
    }
}

/// Applies an artwork result: the playback report is taken only when the key is still
/// current; a first transient failure of a current request is retried once; otherwise the
/// result is cached as `result_cached` says.
pub fn apply_artwork_update(
    state: &mut AppState,
    availability: BackendAvailability,
    playback: PlaybackSnapshot,
    key: ArtworkKey,
    result: ArtworkResult,
) -> (r: Vec<Command>)
    requires
        old(state).caches_wf(),
    ensures
        final(state).caches_wf(),
        artwork_applied(*old(state), *final(state), r@, availability, playback, key, result),
{
    let ghost s0 = *state;
    let ghost gav = availability;
    let ghost gpb = playback;
    let stale = !artwork_key_is_current(state, &key);
    if !stale {
        state.backend_availability = availability;
        state.playback = playback;
    }
    assert(*state == artwork_base(s0, gav, gpb, key));
    let transient = match &result {
        ArtworkResult::Transient(_) => true,
        ArtworkResult::Invalid(m) => {
            proof {
                reveal_strlit("Music.app artwork query failed:");
            }
            starts_with_text(m.as_str(), "Music.app artwork query failed:")
        },
        _ => false,
    };
    let attempts = match state.artwork_retry_attempts.get(&key) {
        Some(n) => *n,
        None => 0,
    };
    if transient && !stale && attempts == 0 {
        let requested = match state.artwork_request_tracks.get(&key) {
            Some(t) => Some(t.duplicate()),
            None => None,
        };
        match requested {
            Some(track_id) => {
                state.artwork_retry_attempts.insert(key.duplicate(), 1);
                return single(Command::RetryArtwork { key, track_id });
            },
            None => {},
        }
    }
    cache_result(state, key, result)
}

/// A transient artwork failure of the current track's request is retried once: the first
/// report asks for the artwork again and records one attempt, and the same report a second
/// time is cached as the stable fallback, with the request and its attempt record dropped
/// and no further command.
pub proof fn law_transient_artwork_failure_retried_once(
    s0: AppState,
    s1: AppState,
    s2: AppState,
    r1: Seq<Command>,
    r2: Seq<Command>,
    availability: BackendAvailability,
    playback: PlaybackSnapshot,
    track_id: TrackId,
    result: ArtworkResult,
)
    requires
        s0.caches_wf(),
        transient_failure(result),
        s0.playback.current_track matches Some(t) && t.id@ == track_id@,
        playback.current_track matches Some(t) && t.id@ == track_id@,
        s0.artwork_retry_attempts.get_spec(key_view(ArtworkKey::Track(track_id))) is None,
        s0.artwork_request_tracks.get_spec(key_view(ArtworkKey::Track(track_id))) is Some,
        artwork_applied(s0, s1, r1, availability, playback, ArtworkKey::Track(track_id), result),
        artwork_applied(s1, s2, r2, availability, playback, ArtworkKey::Track(track_id), result),
    ensures
        r1 == seq![Command::RetryArtwork {
            key: ArtworkKey::Track(track_id),
            track_id: s0.artwork_request_tracks.get_spec(key_view(ArtworkKey::Track(track_id))).unwrap(),
        }],
        s1.artwork_retry_attempts.get_spec(key_view(ArtworkKey::Track(track_id))) == Some(1u8),
        s1.artwork_cache == s0.artwork_cache,
        r2.len() == 0,
        s2.artwork_cache.get_spec(key_view(ArtworkKey::Track(track_id))) matches Some(e) && cached_as(result, e),
        s2.artwork_retry_attempts.get_spec(key_view(ArtworkKey::Track(track_id))) is None,
        s2.artwork_request_tracks.get_spec(key_view(ArtworkKey::Track(track_id))) is None,
{
    let key = ArtworkKey::Track(track_id);
    let kv = key_view(key);
    assert(spec_artwork_key_is_current(s0, key));
    assert(spec_artwork_key_is_current(s1, key));
    let a = artwork_base(s1, availability, playback, key);
    assert(a.artwork_retry_attempts.get_spec(kv) == Some(1u8));
    assert(result_cached(a, s2, r2, key, result));
    let (b, c) = choose|b: AppState, c: AppState|
        display_prepared(a, b, r2, key, result) && c.artwork_cache.get_spec(kv) is Some && cached_as(
            result,
            c.artwork_cache.get_spec(kv).unwrap(),
        ) && cache_inserted(b, c, key, c.artwork_cache.get_spec(kv).unwrap()) && map_updated(
            s2.artwork_request_tracks,
            c.artwork_request_tracks,
            kv,
            None,
        ) && map_updated(s2.artwork_retry_attempts, c.artwork_retry_attempts, kv, None) && s2 == (AppState {
            artwork_request_tracks: s2.artwork_request_tracks,
            artwork_retry_attempts: s2.artwork_retry_attempts,
            ..c
        });
    assert(s2.artwork_cache == c.artwork_cache);
}

/// `new` is `old` after the backend became ready: its name and capabilities are recorded,
/// its snapshot installed, and the view is loaded.
pub open spec fn ready_applied(old: AppState, new: AppState, name: &str, capabilities: Capabilities, snapshot: BackendSnapshot) -> bool {
    &&& new.backend_status matches BackendStatus::Ready { name: n } && n@ == name@
    &&& exists|b: AppState|
        #![trigger snapshot_installed(AppState { backend_status: new.backend_status, capabilities, ..old }, b, snapshot)]
        snapshot_installed(AppState { backend_status: new.backend_status, capabilities, ..old }, b, snapshot) && new == (
        AppState { view_status: ViewStatus::Loaded, ..b })
}

/// `new` is `old` after a full snapshot: it is installed and the selections clamped.
pub open spec fn snapshot_applied(old: AppState, new: AppState, snapshot: BackendSnapshot) -> bool {
    exists|b: AppState| #![trigger snapshot_installed(old, b, snapshot)] snapshot_installed(old, b, snapshot) && clamped(b, new)
}

/// `new` is `old` with a playback report and a notice reading `text`.
pub open spec fn reported(old: AppState, new: AppState, availability: BackendAvailability, playback: PlaybackSnapshot, text: Seq<char>) -> bool {
    &&& new == (AppState { notification: new.notification, ..with_playback(old, availability, playback) })
    &&& new.notification matches Some(m) && m@ == text
}

/// `new` and `r` are what a backend event gives.
pub open spec fn event_applied(old: AppState, new: AppState, r: Seq<Command>, event: BackendEvent) -> bool {
    match event {
        BackendEvent::Ready { name, capabilities, snapshot } => r.len() == 0 && ready_applied(old, new, name, capabilities, snapshot),
        BackendEvent::Error(message) => r.len() == 0 && error_applied(old, new, message),
        BackendEvent::Update(update) => update_applied(old, new, r, update),
    }
}

/// `new` and `r` are what a backend update gives.
pub open spec fn update_applied(old: AppState, new: AppState, r: Seq<Command>, update: BackendUpdate) -> bool {
        match update {
            BackendUpdate::LibraryRefreshStarted { availability, playback } => {
                &&& r.len() == 0
                &&& reported(
                    AppState { library_status: CollectionLoadState::Refreshing { loaded: 0, total: 0 }, ..old },
                    new,
                    availability,
                    playback,
                    refreshing_notice(),
                )
            },
            BackendUpdate::LibraryRefreshFailed { availability, playback, message } => {
                &&& r.len() == 0
                &&& reported(
                    AppState { library_status: CollectionLoadState::Error(message), ..old },
                    new,
                    availability,
                    playback,
                    refresh_failed_notice(),
                )
            },
            BackendUpdate::Snapshot(snapshot) => r.len() == 0 && snapshot_applied(old, new, snapshot),
            BackendUpdate::Playback { availability, playback } => r.len() == 0 && new == with_playback(
                old,
                availability,
                playback,
            ),
            BackendUpdate::Stopped { availability, playback } => r.len() == 0 && new == with_playback(
                old,
                availability,
                playback,
            ),
            BackendUpdate::Playlists { availability, playback, playlists } => r.len() == 0 && playlists_installed(
                old,
                new,
                availability,
                playback,
                playlists@,
            ),
            BackendUpdate::LibraryBatch {
                availability,
                playback,
                tracks,
                authoritative_tracks,
                loaded,
                total,
                complete,
                artists,
                albums,
                recently_added,
                recently_played,
            } => r.len() == 0 && library_batch_applied(
                old,
                new,
                availability,
                playback,
                tracks@,
                authoritative_tracks,
                loaded,
                total,
                complete,
                artists,
                albums,
                recently_added,
                recently_played,
            ),
            BackendUpdate::PlaylistBatch { availability, playback, playlist_id, tracks, loaded, total, complete } => {
                &&& r.len() == 0
                &&& exists|b: AppState|
                    #![trigger batch_applied(with_playback(old, availability, playback), b, playlist_id, tracks@, loaded, total, complete)]
                    batch_applied(with_playback(old, availability, playback), b, playlist_id, tracks@, loaded, total, complete)
                        && clamped(b, new)
            },
            BackendUpdate::PlaylistLoadFailed { availability, playback, playlist_id, message } => r.len() == 0
                && load_failure_applied(with_playback(old, availability, playback), new, playlist_id, message@),
            BackendUpdate::PlaylistTrackRemoved { availability, playback, playlist_id, index, expected_track_id } => r.len()
                == 0 && removal_applied(
                with_playback(AppState { playlist_track_removal_in_flight: false, ..old }, availability, playback),
                new,
                playlist_id,
                index,
                expected_track_id,
            ),
            BackendUpdate::PlaybackContextFailed { availability, playback, message } => r.len() == 0 && new == (
            AppState { notification: Some(message), ..with_playback(old, availability, playback) }),
            BackendUpdate::Notice { availability, playback, message } => r.len() == 0 && new == (AppState {
                notification: Some(message),
                ..with_playback(old, availability, playback)
            }),
            BackendUpdate::Artwork { availability, playback, key, result } => artwork_applied(
                old,
                new,
                r,
                availability,
                playback,
                key,
                result,
            ),
        }
}

/// Applies a backend event to the application state and returns the commands it leads to.
pub fn apply_backend_event(state: &mut AppState, event: BackendEvent) -> (r: Vec<Command>)
    requires
        old(state).caches_wf(),
    ensures
        final(state).caches_wf(),
        event_applied(*old(state), *final(state), r@, event),
{
    match event {
        BackendEvent::Ready { name, capabilities, snapshot } => {
            apply_ready(state, name, capabilities, snapshot);
            Vec::new()
        },
        BackendEvent::Error(message) => {
            apply_error(state, message);
            Vec::new()
        },
        BackendEvent::Update(update) => apply_update(state, update),
    }
}

fn apply_ready(state: &mut AppState, name: &str, capabilities: Capabilities, snapshot: BackendSnapshot)
    requires
        old(state).caches_wf(),
    ensures
        final(state).caches_wf(),
        ready_applied(*old(state), *final(state), name, capabilities, snapshot),
{
    let ghost s0 = *state;
    let ghost gc = capabilities;
    let ghost gs = snapshot;
    state.backend_status = BackendStatus::Ready { name: name.to_owned() };
    state.capabilities = capabilities;
    install_snapshot(state, snapshot);
    let ghost b = *state;
    state.view_status = ViewStatus::Loaded;
    assert(snapshot_installed(AppState { backend_status: state.backend_status, capabilities: gc, ..s0 }, b, gs));
}

/// Applies a backend update to the application state and returns the commands it leads to.
#[verifier::rlimit(40)]
pub fn apply_update(state: &mut AppState, update: BackendUpdate) -> (r: Vec<Command>)
    requires
        old(state).caches_wf(),
    ensures
        final(state).caches_wf(),
        update_applied(*old(state), *final(state), r@, update),
{
    let ghost s0 = *state;
    match update {
        BackendUpdate::LibraryRefreshStarted { availability, playback } => {
            state.backend_availability = availability;
            state.playback = playback;
            state.library_status = CollectionLoadState::Refreshing { loaded: 0, total: 0 };
            state.notification = Some("Refreshing library…".to_owned());
            proof {
                reveal_strlit("Refreshing library…");
            }
            Vec::new()
        },
        BackendUpdate::LibraryRefreshFailed { availability, playback, message } => {
            state.backend_availability = availability;
            state.playback = playback;
            state.library_status = CollectionLoadState::Error(message);
            state.notification = Some("Library refresh failed; cached data remains".to_owned());
            proof {
                reveal_strlit("Library refresh failed; cached data remains");
            }
            Vec::new()
        },
        BackendUpdate::Snapshot(snapshot) => {
            let ghost gs = snapshot;
            install_snapshot(state, snapshot);
            let ghost b = *state;
            clamp_selections(state);
            assert(snapshot_installed(s0, b, gs));
            Vec::new()
        },
        BackendUpdate::Playback { availability, playback } => {
            state.backend_availability = availability;
            state.playback = playback;
            Vec::new()
        },
        BackendUpdate::Stopped { availability, playback } => {
            state.backend_availability = availability;
            state.playback = playback;
            Vec::new()
        },
        BackendUpdate::Playlists { availability, playback, playlists } => {
            install_playlists(state, availability, playback, playlists);
            Vec::new()
        },
        BackendUpdate::LibraryBatch {
            availability,
            playback,
            tracks,
            authoritative_tracks,
            loaded,
            total,
            complete,
            artists,
            albums,
            recently_added,
            recently_played,
        } => {
            apply_library_batch(
                state,
                availability,
                playback,
                tracks,
                authoritative_tracks,
                loaded,
                total,
                complete,
                artists,
                albums,
                recently_added,
                recently_played,
            );
            Vec::new()
        },
        BackendUpdate::PlaylistBatch { availability, playback, playlist_id, tracks, loaded, total, complete } => {
            let ghost gid = playlist_id;
            let ghost gt = tracks@;
            state.backend_availability = availability;
            state.playback = playback;
            let ghost a = *state;
            apply_playlist_batch(state, playlist_id, tracks, loaded, total, complete);
            let ghost b = *state;
            clamp_selections(state);
            assert(batch_applied(a, b, gid, gt, loaded, total, complete));
            Vec::new()
        },
        BackendUpdate::PlaylistLoadFailed { availability, playback, playlist_id, message } => {
            state.backend_availability = availability;
            state.playback = playback;
            apply_load_failure(state, playlist_id, message);
            Vec::new()
        },
        BackendUpdate::PlaylistTrackRemoved { availability, playback, playlist_id, index, expected_track_id } => {
            state.playlist_track_removal_in_flight = false;
            state.backend_availability = availability;
            state.playback = playback;
            apply_removal(state, playlist_id, index, expected_track_id);
            Vec::new()
        },
        BackendUpdate::PlaybackContextFailed { availability, playback, message } => {
            state.backend_availability = availability;
            state.playback = playback;
            state.notification = Some(message);
            Vec::new()
        },
        BackendUpdate::Notice { availability, playback, message } => {
            state.backend_availability = availability;
            state.playback = playback;
            state.notification = Some(message);
            Vec::new()
        },
        BackendUpdate::Artwork { availability, playback, key, result } => {
            apply_artwork_update(state, availability, playback, key, result)
        },
    }
}

} // verus!
