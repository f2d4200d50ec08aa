//! Moving between screens and within lists: the route history, the focused pane's
//! selection, and the length of the list each route shows.
use vstd::prelude::*;

use crate::artwork::ArtworkKey;
use crate::domain::{Album, AlbumId, Artist, ArtistId, Playlist, PlaylistId, TrackId};
use crate::playlists::{
    first_with_id, hierarchy_nodes, hierarchy_roots, nodes_view, visible_rows, PlaylistHierarchy,
    VisiblePlaylistEntry,
};
use crate::search::{refresh_search, searched};
use crate::state::{
    screen_position, AppState, CollectionKind, Focus, NavigationEntry, NavigationState, Route,
    Screen, SCREEN_COUNT,
};
use crate::views::view_of;

verus! {

/// The position of the first album whose identity is `id`, or -1.
pub open spec fn first_album(albums: Seq<Album>, id: Seq<char>) -> int
    decreases albums.len(),
{
    if albums.len() == 0 {
        -1
    } else if first_album(albums.drop_last(), id) >= 0 {
        first_album(albums.drop_last(), id)
    } else if albums.last().id@ == id {
        albums.len() - 1
    } else {
        -1
    }
}

/// The position of the first artist whose identity is `id`, or -1.
pub open spec fn first_artist(artists: Seq<Artist>, id: Seq<char>) -> int
    decreases artists.len(),
{
    if artists.len() == 0 {
        -1
    } else if first_artist(artists.drop_last(), id) >= 0 {
        first_artist(artists.drop_last(), id)
    } else if artists.last().id@ == id {
        artists.len() - 1
    } else {
        -1
    }
}

/// The position of the first album whose identity is `id`.
pub fn find_album(albums: &Vec<Album>, id: &AlbumId) -> (r: Option<usize>)
    ensures
        first_album(albums@, id@) == match r {
            Some(i) => i as int,
            None => -1,
        },
        r matches Some(i) ==> i < albums@.len(),
{
    let mut i: usize = 0;
    while i < albums.len()
        invariant
            i <= albums@.len(),
            first_album(albums@.take(i as int), id@) == -1,
        decreases albums.len() - i,
    {
        assert(albums@.take(i + 1).drop_last() =~= albums@.take(i as int));
        if albums[i].id.same(id) {
            proof {
                lemma_first_album_prefix(albums@, id@, i + 1);
            }
            return Some(i);
        }
        i = i + 1;
    }
    assert(albums@.take(albums@.len() as int) =~= albums@);
    None
}

proof fn lemma_first_album_prefix(albums: Seq<Album>, id: Seq<char>, n: int)
    requires
        0 <= n <= albums.len(),
        first_album(albums.take(n), id) >= 0,
    ensures
        first_album(albums, id) == first_album(albums.take(n), id),
    decreases albums.len() - n,
{
    if n < albums.len() {
        assert(albums.take(n + 1).drop_last() =~= albums.take(n));
        lemma_first_album_prefix(albums, id, n + 1);
    } else {
        assert(albums.take(n) =~= albums);
    }
}

/// The position of the first artist whose identity is `id`.
pub fn find_artist(artists: &Vec<Artist>, id: &ArtistId) -> (r: Option<usize>)
    ensures
        first_artist(artists@, id@) == match r {
            Some(i) => i as int,
            None => -1,
        },
        r matches Some(i) ==> i < artists@.len(),
{
    let mut i: usize = 0;
    while i < artists.len()
        invariant
            i <= artists@.len(),
            first_artist(artists@.take(i as int), id@) == -1,
        decreases artists.len() - i,
    {
        assert(artists@.take(i + 1).drop_last() =~= artists@.take(i as int));
        if artists[i].id.same(id) {
            proof {
                lemma_first_artist_prefix(artists@, id@, i + 1);
            }
            return Some(i);
        }
        i = i + 1;
    }
    assert(artists@.take(artists@.len() as int) =~= artists@);
    None
}

proof fn lemma_first_artist_prefix(artists: Seq<Artist>, id: Seq<char>, n: int)
    requires
        0 <= n <= artists.len(),
        first_artist(artists.take(n), id) >= 0,
    ensures
        first_artist(artists, id) == first_artist(artists.take(n), id),
    decreases artists.len() - n,
{
    if n < artists.len() {
        assert(artists.take(n + 1).drop_last() =~= artists.take(n));
        lemma_first_artist_prefix(artists, id, n + 1);
    } else {
        assert(artists.take(n) =~= artists);
    }
}

/// The first playlist whose identity is `id`.
pub fn playlist_by_id<'a>(state: &'a AppState, id: &PlaylistId) -> (r: Option<&'a Playlist>)
    ensures
        r is None <==> first_with_id(state.playlists@, id@) == -1,
        r matches Some(p) ==> 0 <= first_with_id(state.playlists@, id@) < state.playlists@.len()
            && *p == state.playlists@[first_with_id(state.playlists@, id@)],
{
    match playlist_position(state, id) {
        Some(i) => Some(&state.playlists[i]),
        None => None,
    }
}

/// The position of the first playlist whose identity is `id`.
pub fn playlist_position(state: &AppState, id: &PlaylistId) -> (r: Option<usize>)
    ensures
        first_with_id(state.playlists@, id@) == match r {
            Some(i) => i as int,
            None => -1,
        },
        r matches Some(i) ==> i < state.playlists@.len(),
{
    crate::playlists::first_position(state.playlists.as_slice(), id)
}

/// The playlist rows the Playlists screen shows: from the stored hierarchy, or from one
/// built on the spot when none is stored yet but playlists are.
pub open spec fn spec_visible_entries(state: AppState) -> Seq<VisiblePlaylistEntry> {
    if state.playlist_hierarchy.roots@.len() == 0 && state.playlists@.len() > 0 {
        visible_rows(hierarchy_nodes(state.playlists@), hierarchy_roots(state.playlists@), state.expanded_playlist_folders@)
    } else {
        visible_rows(nodes_view(state.playlist_hierarchy), state.playlist_hierarchy.roots@, state.expanded_playlist_folders@)
    }
}

/// The artwork a track is shown with: that of the first album holding the track, or the
/// track's own.
pub open spec fn spec_artwork_key_for_track(state: AppState, track_id: TrackId) -> ArtworkKey {
    let i = first_album_with_track(state.albums@, track_id@);
    if i >= 0 {
        ArtworkKey::Album(state.albums@[i].id)
    } else {
        ArtworkKey::Track(track_id)
    }
}

/// Whether some track of `tracks` has identity `id`.
pub open spec fn holds_track(tracks: Seq<crate::domain::Track>, id: Seq<char>) -> bool {
    exists|k: int| 0 <= k < tracks.len() && #[trigger] tracks[k].id@ == id
}

/// The position of the first album holding a track with identity `id`, or -1.
pub open spec fn first_album_with_track(albums: Seq<Album>, id: Seq<char>) -> int
    decreases albums.len(),
{
    if albums.len() == 0 {
        -1
    } else if first_album_with_track(albums.drop_last(), id) >= 0 {
        first_album_with_track(albums.drop_last(), id)
    } else if holds_track(albums.last().tracks@, id) {
        albums.len() - 1
    } else {
        -1
    }
}

/// Whether a track list holds a track with identity `id`.
pub fn tracks_hold(tracks: &Vec<crate::domain::Track>, id: &TrackId) -> (r: bool)
    ensures
        r == holds_track(tracks@, id@),
{
    let mut i: usize = 0;
    while i < tracks.len()
        invariant
            i <= tracks@.len(),
            forall|k: int| 0 <= k < i ==> tracks@[k].id@ != id@,
        decreases tracks.len() - i,
    {
        if tracks[i].id.same(id) {
            return true;
        }
        i = i + 1;
    }
    false
}

/// The first album holding a track is already found among the first `n` albums once it
/// is there.
pub proof fn lemma_first_album_with_track_prefix(albums: Seq<Album>, id: Seq<char>, n: int)
    requires
        0 <= n <= albums.len(),
        first_album_with_track(albums.take(n), id) >= 0,
    ensures
        first_album_with_track(albums, id) == first_album_with_track(albums.take(n), id),
    decreases albums.len() - n,
{
    if n < albums.len() {
        assert(albums.take(n + 1).drop_last() =~= albums.take(n));
        lemma_first_album_with_track_prefix(albums, id, n + 1);
    } else {
        assert(albums.take(n) =~= albums);
    }
}

impl AppState {
    /// The rows of the Playlists screen.
    pub fn visible_playlist_entries(&self) -> (r: Vec<VisiblePlaylistEntry>)
        ensures
            r@ == spec_visible_entries(*self),
    {
        if self.playlist_hierarchy.roots.len() == 0 && self.playlists.len() > 0 {
            PlaylistHierarchy::from_playlists(self.playlists.as_slice()).visible_entries(&self.expanded_playlist_folders)
        } else {
            self.playlist_hierarchy.visible_entries(&self.expanded_playlist_folders)
        }
    }

    /// The artwork identity for a track: the album holding it when one does.
    pub fn artwork_key_for_track(&self, track_id: &TrackId) -> (r: ArtworkKey)
        ensures
            r == spec_artwork_key_for_track(*self, *track_id),
    {
        let mut i: usize = 0;
        while i < self.albums.len()
            invariant
                i <= self.albums@.len(),
                first_album_with_track(self.albums@.take(i as int), track_id@) == -1,
            decreases self.albums.len() - i,
        {
            assert(self.albums@.take(i + 1).drop_last() =~= self.albums@.take(i as int));
            if tracks_hold(&self.albums[i].tracks, track_id) {
                proof {
                    lemma_first_album_with_track_prefix(self.albums@, track_id@, i + 1);
                }
                return ArtworkKey::Album(self.albums[i].id.duplicate());
            }
            i = i + 1;
        }
        assert(self.albums@.take(self.albums@.len() as int) =~= self.albums@);
        ArtworkKey::Track(track_id.duplicate())
    }
}

/// The identity of the selected row of the Playlists screen.
pub open spec fn spec_selected_playlist_id(state: AppState) -> Option<PlaylistId> {
    let rows = spec_visible_entries(state);
    if state.content_selection < rows.len() {
        Some(rows[state.content_selection as int].playlist_id)
    } else {
        None
    }
}

pub fn selected_playlist_id(state: &AppState) -> (r: Option<PlaylistId>)
    ensures
        r == spec_selected_playlist_id(*state),
{
    let rows = state.visible_playlist_entries();
    if state.content_selection < rows.len() {
        Some(rows[state.content_selection].playlist_id.duplicate())
    } else {
        None
    }
}

/// The number of rows the active route shows.
pub open spec fn spec_content_length(state: AppState) -> nat {
    match state.navigation.active {
        Route::NowPlaying => 0,
        Route::Section(screen) => match screen {
            Screen::ListenNow | Screen::Browse => 3,
            Screen::Radio => state.stations@.len(),
            Screen::RecentlyAdded => state.recently_added@.len(),
            Screen::RecentlyPlayed => state.recently_played@.len(),
            Screen::Albums => collection_length(state, CollectionKind::Albums),
            Screen::Artists => collection_length(state, CollectionKind::Artists),
            Screen::Songs => collection_length(state, CollectionKind::Songs),
            Screen::Search => state.search_results@.len(),
            Screen::MadeForYou => state.playlists@.len(),
            Screen::Playlists => spec_visible_entries(state).len(),
        },
        Route::ArtistDetail { artist_id } => {
            let i = first_artist(state.artists@, artist_id@);
            if i >= 0 {
                state.artists@[i].top_track_ids@.len()
            } else {
                0
            }
        },
        Route::AlbumDetail { album_id } => {
            let i = first_album(state.albums@, album_id@);
            if i >= 0 {
                state.albums@[i].tracks@.len()
            } else {
                0
            }
        },
        Route::PlaylistDetail { playlist_id } => {
            let i = first_with_id(state.playlists@, playlist_id@);
            if i >= 0 {
                state.playlists@[i].tracks@.len()
            } else {
                0
            }
        },
    }
}

/// The rows a collection shows: its presented rows once built, its source rows before.
pub open spec fn collection_length(state: AppState, collection: CollectionKind) -> nat {
    let v = view_of(state.library_views, collection);
    if v.source_len is Some {
        v.indices@.len()
    } else {
        crate::views::source_count(state, collection)
    }
}

pub fn content_length(state: &AppState) -> (r: usize)
    ensures
        r == spec_content_length(*state),
{
    match &state.navigation.active {
        Route::NowPlaying => 0,
        Route::Section(screen) => match screen {
            Screen::ListenNow | Screen::Browse => 3,
            Screen::Radio => state.stations.len(),
            Screen::RecentlyAdded => state.recently_added.len(),
            Screen::RecentlyPlayed => state.recently_played.len(),
            Screen::Albums => collection_rows(state, CollectionKind::Albums),
            Screen::Artists => collection_rows(state, CollectionKind::Artists),
            Screen::Songs => collection_rows(state, CollectionKind::Songs),
            Screen::Search => state.search_results.len(),
            Screen::MadeForYou => state.playlists.len(),
            Screen::Playlists => state.visible_playlist_entries().len(),
        },
        Route::ArtistDetail { artist_id } => match find_artist(&state.artists, artist_id) {
            Some(i) => state.artists[i].top_track_ids.len(),
            None => 0,
        },
        Route::AlbumDetail { album_id } => match find_album(&state.albums, album_id) {
            Some(i) => state.albums[i].tracks.len(),
            None => 0,
        },
        Route::PlaylistDetail { playlist_id } => match playlist_by_id(state, playlist_id) {
            Some(p) => p.tracks.len(),
            None => 0,
        },
    }
}

fn collection_rows(state: &AppState, collection: CollectionKind) -> (r: usize)
    ensures
        r == collection_length(*state, collection),
{
    let view = crate::views::collection_view(state, collection);
    if view.source_len.is_some() {
        view.indices.len()
    } else {
        crate::views::source_len(state, collection)
    }
}

/// `new` is `old` with `destination` opened: the current route and selection are
/// remembered to return to, and the selection starts at the first row.
pub open spec fn detail_opened(old: AppState, new: AppState, destination: Route) -> bool {
    &&& new.navigation.active == destination
    &&& new.navigation.history@ == old.navigation.history@.push(
        NavigationEntry { route: old.navigation.active, content_selection: old.content_selection },
    )
    &&& new == (AppState { navigation: new.navigation, content_selection: 0, ..old })
}

/// Opens a detail route, remembering the current route and selection to return to.
pub fn open_detail(state: &mut AppState, destination: Route)
    ensures
        detail_opened(*old(state), *final(state), destination),
{
    let entry = NavigationEntry {
        route: state.navigation.active.duplicate(),
        content_selection: state.content_selection,
    };
    state.navigation.history.push(entry);
    state.navigation.active = destination;
    state.content_selection = 0;
}

/// The state right after switching to a section, before any search refresh.
pub open spec fn entered_section(old: AppState, new: AppState, screen: Screen) -> bool {
    &&& new.navigation.active == Route::Section(screen)
    &&& new.navigation.history@.len() == 0
    &&& new == (AppState {
        navigation: new.navigation,
        sidebar_selection: screen_position(screen) as usize,
        focus: Focus::Content,
        content_selection: 0,
        search_input_active: screen == Screen::Search,
        ..old
    })
}

/// `new` is `old` after switching to `screen`.
pub open spec fn section_entered(old: AppState, new: AppState, screen: Screen) -> bool {
    &&& (screen != Screen::Search ==> entered_section(old, new, screen))
    &&& (screen == Screen::Search ==> exists|mid: AppState|
        entered_section(old, mid, screen) && searched(mid, new))
}

/// Switches to a section: the history is cleared, the sidebar follows, the content pane
/// is focused at its first row, and search input starts on the Search screen, whose
/// results are recomputed.
pub fn navigate_to_section(state: &mut AppState, screen: Screen)
    ensures
        section_entered(*old(state), *final(state), screen),
{
    state.navigation.active = Route::Section(screen);
    state.navigation.history = Vec::new();
    state.sidebar_selection = screen.position();
    state.focus = Focus::Content;
    state.content_selection = 0;
    let search = match screen {
        Screen::Search => true,
        _ => false,
    };
    state.search_input_active = search;
    if search {
        let ghost mid = *state;
        refresh_search(state);
        assert(entered_section(*old(state), mid, screen) && searched(mid, *state));
    }
}

/// `new` is `old` after stepping back.
pub open spec fn went_back(old: AppState, new: AppState) -> bool {
    &&& (old.navigation.history@.len() > 0 ==> {
        let entry = old.navigation.history@.last();
        &&& new.navigation.active == entry.route
        &&& new.navigation.history@ == old.navigation.history@.drop_last()
        &&& new == (AppState {
            navigation: new.navigation,
            content_selection: entry.content_selection,
            focus: Focus::Content,
            ..old
        })
    })
    &&& (old.navigation.history@.len() == 0 ==> new == (AppState {
        focus: if old.focus == Focus::Queue {
            Focus::Content
        } else {
            Focus::Sidebar
        },
        ..old
    }))
}

/// Returns to the previous route and selection; with no history, focus steps back
/// from the queue to the content, or from the content to the sidebar.
pub fn navigate_back(state: &mut AppState)
    ensures
        went_back(*old(state), *final(state)),
{
    if state.navigation.history.len() > 0 {
        let entry = state.navigation.history.pop().unwrap();
        state.navigation.active = entry.route;
        state.content_selection = entry.content_selection;
        state.focus = Focus::Content;
    } else if state.focus == Focus::Queue {
        state.focus = Focus::Content;
    } else {
        state.focus = Focus::Sidebar;
    }
}

/// The selection of the focused pane.
pub open spec fn focused_selection(state: AppState) -> usize {
    match state.focus {
        Focus::Sidebar => state.sidebar_selection,
        Focus::Content => state.content_selection,
        Focus::Queue => state.queue_selection,
    }
}

/// The number of rows of the focused pane.
pub open spec fn focused_length(state: AppState) -> nat {
    match state.focus {
        Focus::Sidebar => SCREEN_COUNT as nat,
        Focus::Content => spec_content_length(state),
        Focus::Queue => state.queue@.len(),
    }
}

/// `state` with the focused pane's selection replaced.
pub open spec fn with_focused_selection(state: AppState, v: usize) -> AppState {
    match state.focus {
        Focus::Sidebar => AppState { sidebar_selection: v, ..state },
        Focus::Content => AppState { content_selection: v, ..state },
        Focus::Queue => AppState { queue_selection: v, ..state },
    }
}

/// The last row of a list of `len` rows, or 0 when it is empty.
pub open spec fn last_row(len: nat) -> int {
    if len > 0 {
        len - 1
    } else {
        0
    }
}

fn focused_length_of(state: &AppState) -> (r: usize)
    ensures
        r == focused_length(*state),
{
    match state.focus {
        Focus::Sidebar => SCREEN_COUNT,
        Focus::Content => content_length(state),
        Focus::Queue => state.queue.len(),
    }
}

fn set_focused_selection(state: &mut AppState, v: usize)
    ensures
        *final(state) == with_focused_selection(*old(state), v),
{
    match state.focus {
        Focus::Sidebar => state.sidebar_selection = v,
        Focus::Content => state.content_selection = v,
        Focus::Queue => state.queue_selection = v,
    }
}

fn focused_selection_of(state: &AppState) -> (r: usize)
    ensures
        r == focused_selection(*state),
{
    match state.focus {
        Focus::Sidebar => state.sidebar_selection,
        Focus::Content => state.content_selection,
        Focus::Queue => state.queue_selection,
    }
}

/// `new` is `old` after moving the focused selection one row.
pub open spec fn moved(old: AppState, new: AppState, down: bool) -> bool {
    new == with_focused_selection(old, {
        let s = focused_selection(old);
        let len = focused_length(old);
        if len == 0 {
            0
        } else if down {
            if s + 1 <= len - 1 {
                (s + 1) as usize
            } else {
                (len - 1) as usize
            }
        } else if s > 0 {
            (s - 1) as usize
        } else {
            0
        }
    })
}

/// Moves the focused pane's selection one row down or up, staying on the list.
pub fn move_selection(state: &mut AppState, down: bool)
    ensures
        moved(*old(state), *final(state), down),
{
    let len = focused_length_of(state);
    let s = focused_selection_of(state);
    let v = if len == 0 {
        0
    } else if down {
        if s < len - 1 {
            s + 1
        } else {
            len - 1
        }
    } else if s > 0 {
        s - 1
    } else {
        0
    };
    set_focused_selection(state, v);
}

/// `new` is `old` after jumping the focused selection to an end.
pub open spec fn jumped(old: AppState, new: AppState, end: bool) -> bool {
    new == with_focused_selection(
        old,
        if end {
            last_row(focused_length(old)) as usize
        } else {
            0
        },
    )
}

/// Jumps the focused pane's selection to the first or the last row.
pub fn jump_selection(state: &mut AppState, end: bool)
    ensures
        jumped(*old(state), *final(state), end),
{
    let len = focused_length_of(state);
    let v = if end && len > 0 {
        len - 1
    } else {
        0
    };
    set_focused_selection(state, v);
}

/// The rows one page moves: the terminal height less the chrome, at least one.
pub open spec fn page_size(height: u16) -> int {
    if height > 13 {
        height - 12
    } else {
        1
    }
}

/// `new` is `old` after moving the focused selection one page.
pub open spec fn paged(old: AppState, new: AppState, down: bool) -> bool {
    new == with_focused_selection(old, {
        let s = focused_selection(old);
        let page = page_size(old.terminal_size.1);
        let limit = last_row(focused_length(old));
        if down {
            if s + page <= limit {
                (s + page) as usize
            } else {
                limit as usize
            }
        } else if s >= page {
            (s - page) as usize
        } else {
            0
        }
    })
}

/// Moves the focused pane's selection one page down or up, staying on the list.
pub fn page_selection(state: &mut AppState, down: bool)
    ensures
        paged(*old(state), *final(state), down),
{
    let height = state.terminal_size.1;
    let page: usize = if height > 13 {
        (height - 12) as usize
    } else {
        1
    };
    let len = focused_length_of(state);
    let limit = if len > 0 {
        len - 1
    } else {
        0
    };
    let s = focused_selection_of(state);
    let v = if down {
        if s <= limit && limit - s >= page {
            s + page
        } else {
            limit
        }
    } else if s >= page {
        s - page
    } else {
        0
    };
    set_focused_selection(state, v);
}

/// `new` is `old` with the content and queue selections kept within their lists.
pub open spec fn clamped(old: AppState, new: AppState) -> bool {
    new == (AppState {
        content_selection: if old.content_selection <= last_row(spec_content_length(old)) {
            old.content_selection
        } else {
            last_row(spec_content_length(old)) as usize
        },
        queue_selection: if old.queue_selection <= last_row(old.queue@.len()) {
            old.queue_selection
        } else {
            last_row(old.queue@.len()) as usize
        },
        ..old
    })
}

/// Keeps the content and queue selections within their lists.
pub fn clamp_selections(state: &mut AppState)
    ensures
        clamped(*old(state), *final(state)),
{
    let content = content_length(state);
    let content_max = if content > 0 {
        content - 1
    } else {
        0
    };
    let queue_max = if state.queue.len() > 0 {
        state.queue.len() - 1
    } else {
        0
    };
    if state.content_selection > content_max {
        state.content_selection = content_max;
    }
    if state.queue_selection > queue_max {
        state.queue_selection = queue_max;
    }
}

/// `new` is `old` with the folder `id` expanded if it was collapsed, collapsed if not.
pub open spec fn folder_toggled(old: AppState, new: AppState, id: Seq<char>) -> bool {
    &&& new.expanded_playlist_folders@ == if old.expanded_playlist_folders@.contains(id) {
        old.expanded_playlist_folders@.remove(id)
    } else {
        old.expanded_playlist_folders@.insert(id)
    }
    &&& new == (AppState { expanded_playlist_folders: new.expanded_playlist_folders, ..old })
}

/// Expands a collapsed folder, or collapses an expanded one.
pub fn toggle_playlist_folder(state: &mut AppState, playlist_id: PlaylistId)
    ensures
        folder_toggled(*old(state), *final(state), playlist_id@),
{
    let ghost id = playlist_id@;
    if !state.expanded_playlist_folders.remove(&playlist_id) {
        state.expanded_playlist_folders.insert(playlist_id);
    }
    assert(state.expanded_playlist_folders@ =~= if old(state).expanded_playlist_folders@.contains(id) {
        old(state).expanded_playlist_folders@.remove(id)
    } else {
        old(state).expanded_playlist_folders@.insert(id)
    });
}

} // verus!
