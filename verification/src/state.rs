//! The application state that the reducer transforms.
use vstd::prelude::*;

use crate::artwork::{Artwork, ArtworkKey};
use crate::auth::AuthStatus;
use crate::capabilities::Capabilities;
use crate::domain::{
    Album, AlbumId, Artist, ArtistId, BackendAvailability, CollectionLoadState, PlaybackContext, PlaybackSnapshot, PlaybackStatus,
    Playlist, PlaylistId, QueueItem, RecentlyPlayedEntry, RepeatMode, Station, Track, TrackId,
};
use crate::keyed::ArtworkMap;
use crate::playlists::{PlaylistHierarchy, PlaylistIdSet, VisiblePlaylistEntry};

verus! {

/// The narrowest terminal width at which the queue pane is shown.
pub const QUEUE_PANE_MIN_WIDTH: u16 = 108;

/// The number of sidebar screens.
pub const SCREEN_COUNT: usize = 11;

#[derive(Clone, Copy, Debug, PartialEq, Eq, Structural)]
pub enum Screen {
    ListenNow,
    Browse,
    Radio,
    RecentlyAdded,
    RecentlyPlayed,
    Artists,
    Albums,
    Songs,
    MadeForYou,
    Search,
    Playlists,
}

/// The sidebar order of the screens.
pub open spec fn screen_at(i: int) -> Screen {
    if i == 0 {
        Screen::ListenNow
    } else if i == 1 {
        Screen::Browse
    } else if i == 2 {
        Screen::Radio
    } else if i == 3 {
        Screen::RecentlyAdded
    } else if i == 4 {
        Screen::RecentlyPlayed
    } else if i == 5 {
        Screen::Artists
    } else if i == 6 {
        Screen::Albums
    } else if i == 7 {
        Screen::Songs
    } else if i == 8 {
        Screen::MadeForYou
    } else if i == 9 {
        Screen::Playlists
    } else {
        Screen::Search
    }
}

/// The sidebar position of a screen.
pub open spec fn screen_position(s: Screen) -> int {
    match s {
        Screen::ListenNow => 0,
        Screen::Browse => 1,
        Screen::Radio => 2,
        Screen::RecentlyAdded => 3,
        Screen::RecentlyPlayed => 4,
        Screen::Artists => 5,
        Screen::Albums => 6,
        Screen::Songs => 7,
        Screen::MadeForYou => 8,
        Screen::Playlists => 9,
        Screen::Search => 10,
    }
}

/// Sidebar positions and screens correspond one to one.
pub proof fn law_screen_order(i: int, s: Screen)
    ensures
        0 <= screen_position(s) < SCREEN_COUNT,
        screen_at(screen_position(s)) == s,
        0 <= i < SCREEN_COUNT ==> screen_position(screen_at(i)) == i,
{
}

pub open spec fn spec_screen_label(s: Screen) -> Seq<char> {
    match s {
        Screen::ListenNow => "Listen Now"@,
        Screen::Browse => "Browse"@,
        Screen::Radio => "Radio"@,
        Screen::RecentlyAdded => "Recently Added"@,
        Screen::RecentlyPlayed => "Recently Played"@,
        Screen::Artists => "Artists"@,
        Screen::Albums => "Albums"@,
        Screen::Songs => "Songs"@,
        Screen::MadeForYou => "Made for You"@,
        Screen::Search => "Search"@,
        Screen::Playlists => "Playlists"@,
    }
}

impl Screen {
    /// The screens in sidebar order.
    pub fn all() -> (r: [Screen; 11])
        ensures
            forall|i: int| 0 <= i < 11 ==> #[trigger] r@[i] == screen_at(i),
    {
        [
            Screen::ListenNow,
            Screen::Browse,
            Screen::Radio,
            Screen::RecentlyAdded,
            Screen::RecentlyPlayed,
            Screen::Artists,
            Screen::Albums,
            Screen::Songs,
            Screen::MadeForYou,
            Screen::Playlists,
            Screen::Search,
        ]
    }

    /// The screen at a sidebar position.
    pub fn at(index: usize) -> (r: Option<Screen>)
        ensures
            index < SCREEN_COUNT ==> r == Some(screen_at(index as int)),
            index >= SCREEN_COUNT ==> r is None,
    {
        if index < SCREEN_COUNT {
            let all = Screen::all();
            Some(all[index])
        } else {
            None
        }
    }

    /// The sidebar position of this screen.
    pub fn position(self) -> (r: usize)
        ensures
            r as int == screen_position(self),
    {
        match self {
            Screen::ListenNow => 0,
            Screen::Browse => 1,
            Screen::Radio => 2,
            Screen::RecentlyAdded => 3,
            Screen::RecentlyPlayed => 4,
            Screen::Artists => 5,
            Screen::Albums => 6,
            Screen::Songs => 7,
            Screen::MadeForYou => 8,
            Screen::Playlists => 9,
            Screen::Search => 10,
        }
    }

    pub fn label(self) -> (r: &'static str)
        ensures
            r@ == spec_screen_label(self),
    {
        match self {
            Screen::ListenNow => "Listen Now",
            Screen::Browse => "Browse",
            Screen::Radio => "Radio",
            Screen::RecentlyAdded => "Recently Added",
            Screen::RecentlyPlayed => "Recently Played",
            Screen::Artists => "Artists",
            Screen::Albums => "Albums",
            Screen::Songs => "Songs",
            Screen::MadeForYou => "Made for You",
            Screen::Search => "Search",
            Screen::Playlists => "Playlists",
        }
    }
}

#[derive(Clone, Debug, PartialEq, Eq)]
pub enum Route {
    Section(Screen),
    NowPlaying,
    ArtistDetail { artist_id: ArtistId },
    AlbumDetail { album_id: AlbumId },
    PlaylistDetail { playlist_id: PlaylistId },
}

/// The identity of a route: its kind, its screen for sections, and its id for details.
pub open spec fn route_view(r: Route) -> (u8, int, Seq<char>) {
    match r {
        Route::Section(s) => (0u8, screen_position(s), Seq::empty()),
        Route::NowPlaying => (1u8, 0, Seq::empty()),
        Route::ArtistDetail { artist_id } => (2u8, 0, artist_id@),
        Route::AlbumDetail { album_id } => (3u8, 0, album_id@),
        Route::PlaylistDetail { playlist_id } => (4u8, 0, playlist_id@),
    }
}

pub open spec fn spec_route_label(r: Route) -> Seq<char> {
    match r {
        Route::Section(s) => spec_screen_label(s),
        Route::NowPlaying => "Now Playing"@,
        Route::ArtistDetail { .. } => "Artist Detail"@,
        Route::AlbumDetail { .. } => "Album Detail"@,
        Route::PlaylistDetail { .. } => "Playlist Detail"@,
    }
}

impl Route {
    pub fn label(&self) -> (r: &'static str)
        ensures
            r@ == spec_route_label(*self),
    {
        match self {
            Route::Section(screen) => screen.label(),
            Route::NowPlaying => "Now Playing",
            Route::ArtistDetail { .. } => "Artist Detail",
            Route::AlbumDetail { .. } => "Album Detail",
            Route::PlaylistDetail { .. } => "Playlist Detail",
        }
    }

    /// A copy of the route with the same identity.
    pub fn duplicate(&self) -> (r: Route)
        ensures
            r == *self,
            route_view(r) == route_view(*self),
            r is Section <==> self is Section,
            r is NowPlaying <==> self is NowPlaying,
            *self matches Route::Section(s) ==> r == Route::Section(s),
    {
        match self {
            Route::Section(s) => Route::Section(*s),
            Route::NowPlaying => Route::NowPlaying,
            Route::ArtistDetail { artist_id } => Route::ArtistDetail { artist_id: artist_id.duplicate() },
            Route::AlbumDetail { album_id } => Route::AlbumDetail { album_id: album_id.duplicate() },
            Route::PlaylistDetail { playlist_id } => Route::PlaylistDetail { playlist_id: playlist_id.duplicate() },
        }
    }
}

#[derive(Clone, Debug, PartialEq, Eq)]
pub struct NavigationEntry {
    pub route: Route,
    pub content_selection: usize,
}

#[derive(Clone, Debug, PartialEq, Eq)]
pub struct NavigationState {
    pub active: Route,
    pub history: Vec<NavigationEntry>,
}

impl Default for NavigationState {
    fn default() -> (r: Self)
        ensures
            r.active == Route::Section(Screen::ListenNow),
            r.history@.len() == 0,
    {
        NavigationState { active: Route::Section(Screen::ListenNow), history: Vec::new() }
    }
}

#[derive(Clone, Copy, Debug, Default, PartialEq, Eq, Structural)]
pub enum Focus {
    #[default]
    Sidebar,
    Content,
    Queue,
}

#[derive(Clone, Debug, PartialEq, Eq)]
pub enum BackendStatus {
    Initializing,
    Ready { name: String },
    Error { message: String },
}

#[derive(Clone, Debug, PartialEq, Eq)]
pub enum ViewStatus {
    Loading,
    Loaded,
    Empty,
    Error(String),
}

#[derive(Clone, Debug, PartialEq, Eq)]
pub enum LocalSearchResult {
    Track(TrackId),
    Artist(ArtistId),
    Album(AlbumId),
    Playlist(PlaylistId),
}

impl LocalSearchResult {
    /// A copy naming the same item.
    pub fn duplicate(&self) -> (r: Self)
        ensures
            r == *self,
    {
        match self {
            LocalSearchResult::Track(id) => LocalSearchResult::Track(id.duplicate()),
            LocalSearchResult::Artist(id) => LocalSearchResult::Artist(id.duplicate()),
            LocalSearchResult::Album(id) => LocalSearchResult::Album(id.duplicate()),
            LocalSearchResult::Playlist(id) => LocalSearchResult::Playlist(id.duplicate()),
        }
    }
}

#[derive(Clone, Copy, Debug, PartialEq, Eq, Structural)]
pub enum CollectionKind {
    Songs,
    Albums,
    Artists,
}

pub open spec fn spec_collection_label(k: CollectionKind) -> Seq<char> {
    match k {
        CollectionKind::Songs => "Songs"@,
        CollectionKind::Albums => "Albums"@,
        CollectionKind::Artists => "Artists"@,
    }
}

impl CollectionKind {
    pub fn label(self) -> (r: &'static str)
        ensures
            r@ == spec_collection_label(self),
    {
        match self {
            CollectionKind::Songs => "Songs",
            CollectionKind::Albums => "Albums",
            CollectionKind::Artists => "Artists",
        }
    }
}

#[derive(Clone, Copy, Debug, PartialEq, Eq, Structural)]
pub enum CollectionSort {
    SongTitle,
    SongArtist,
    SongAlbum,
    SongDateAdded,
    SongYear,
    SongPlayCount,
    AlbumTitle,
    AlbumArtist,
    AlbumYear,
    AlbumRecentlyAdded,
    ArtistName,
    ArtistAlbumCount,
    ArtistTrackCount,
}

pub open spec fn spec_sort_label(s: CollectionSort) -> Seq<char> {
    match s {
        CollectionSort::SongTitle | CollectionSort::AlbumTitle => "Title"@,
        CollectionSort::SongArtist | CollectionSort::AlbumArtist => "Artist"@,
        CollectionSort::SongAlbum => "Album"@,
        CollectionSort::SongDateAdded => "Date Added"@,
        CollectionSort::SongYear | CollectionSort::AlbumYear => "Year"@,
        CollectionSort::SongPlayCount => "Play Count"@,
        CollectionSort::AlbumRecentlyAdded => "Recently Added"@,
        CollectionSort::ArtistName => "Name"@,
        CollectionSort::ArtistAlbumCount => "Album Count"@,
        CollectionSort::ArtistTrackCount => "Track Count"@,
    }
}

impl CollectionSort {
    pub fn label(self) -> (r: &'static str)
        ensures
            r@ == spec_sort_label(self),
    {
        match self {
            CollectionSort::SongTitle | CollectionSort::AlbumTitle => "Title",
            CollectionSort::SongArtist | CollectionSort::AlbumArtist => "Artist",
            CollectionSort::SongAlbum => "Album",
            CollectionSort::SongDateAdded => "Date Added",
            CollectionSort::SongYear | CollectionSort::AlbumYear => "Year",
            CollectionSort::SongPlayCount => "Play Count",
            CollectionSort::AlbumRecentlyAdded => "Recently Added",
            CollectionSort::ArtistName => "Name",
            CollectionSort::ArtistAlbumCount => "Album Count",
            CollectionSort::ArtistTrackCount => "Track Count",
        }
    }
}

/// The presented order of one library collection: its sort field and direction, its
/// filter, the source positions it shows (`indices`), and each shown row's normalized
/// filter text.
#[derive(Clone, Debug, PartialEq, Eq)]
pub struct CollectionViewState {
    pub sort: CollectionSort,
    pub descending: bool,
    pub filter: String,
    pub indices: Vec<usize>,
    pub normalized_filter_keys: Vec<String>,
    pub source_len: Option<usize>,
    pub rebuild_count: u64,
}

impl CollectionViewState {
    /// An ascending, unfiltered view that has not been built yet.
    pub fn new(sort: CollectionSort) -> (r: Self)
        ensures
            r.sort == sort,
            !r.descending,
            r.filter@.len() == 0,
            r.indices@.len() == 0,
            r.normalized_filter_keys@.len() == 0,
            r.source_len is None,
            r.rebuild_count == 0,
    {
        CollectionViewState {
            sort,
            descending: false,
            filter: String::new(),
            indices: Vec::new(),
            normalized_filter_keys: Vec::new(),
            source_len: None,
            rebuild_count: 0,
        }
    }
}

#[derive(Clone, Debug, PartialEq, Eq)]
pub struct LibraryViews {
    pub songs: CollectionViewState,
    pub albums: CollectionViewState,
    pub artists: CollectionViewState,
}

/// Whether a view is ascending, unfiltered, sorted by `sort` and not built yet.
pub open spec fn fresh_view(v: CollectionViewState, sort: CollectionSort) -> bool {
    &&& v.sort == sort
    &&& !v.descending
    &&& v.filter@.len() == 0
    &&& v.indices@.len() == 0
    &&& v.normalized_filter_keys@.len() == 0
    &&& v.source_len is None
    &&& v.rebuild_count == 0
}

impl Default for LibraryViews {
    fn default() -> (r: Self)
        ensures
            fresh_view(r.songs, CollectionSort::SongTitle),
            fresh_view(r.albums, CollectionSort::AlbumTitle),
            fresh_view(r.artists, CollectionSort::ArtistName),
    {
        LibraryViews {
            songs: CollectionViewState::new(CollectionSort::SongTitle),
            albums: CollectionViewState::new(CollectionSort::AlbumTitle),
            artists: CollectionViewState::new(CollectionSort::ArtistName),
        }
    }
}

#[derive(Clone, Debug, PartialEq, Eq)]
pub struct SortMenuState {
    pub collection: CollectionKind,
    pub selection: usize,
}

#[derive(Clone, Debug, PartialEq, Eq)]
pub struct FilterEditorState {
    pub collection: CollectionKind,
    pub original: String,
    pub draft: String,
}

#[derive(Clone, Debug, PartialEq, Eq)]
pub enum ContextTarget {
    Track(TrackId),
    PlaylistTrack { playlist_id: PlaylistId, track_id: TrackId, index: usize },
    Album(AlbumId),
    Artist(ArtistId),
    Playlist(PlaylistId),
    Folder(PlaylistId),
}

#[derive(Clone, Copy, Debug, PartialEq, Eq, Structural)]
pub enum ContextAction {
    PlayTrack,
    OpenAlbum,
    OpenArtist,
    PlayAlbum,
    OpenPlaylist,
    PlayPlaylist,
    ExpandFolder,
    CollapseFolder,
    RemoveFromPlaylist,
}

#[derive(Clone, Debug, PartialEq, Eq)]
pub struct ActionMenuState {
    pub target: ContextTarget,
    pub actions: Vec<ContextAction>,
    pub selection: usize,
}

#[derive(Clone, Debug, PartialEq, Eq)]
pub struct PlaylistTrackRemovalConfirmation {
    pub playlist_id: PlaylistId,
    pub index: usize,
    pub track_id: TrackId,
    pub track_title: String,
    pub playlist_name: String,
}

#[derive(Clone, Debug, PartialEq, Eq)]
pub struct LocalSearchIndexEntry {
    pub result: LocalSearchResult,
    pub normalized_text: String,
}

#[derive(Clone, Debug, PartialEq, Eq)]
pub enum ArtworkCacheEntry {
    Loading,
    Ready(Artwork),
    /// A fresh Music.app object was not available yet. This is deliberately not a
    /// permanent negative cache entry and may be requested again.
    Transient(String),
    Unavailable(String),
}

/// A display asset derived from source artwork only when a terminal protocol needs it.
#[derive(Clone, Debug, PartialEq, Eq)]
pub enum RenderableArtworkCacheEntry {
    Loading { source_fingerprint: u64 },
    Ready { source_fingerprint: u64, artwork: Artwork },
    Unavailable { source_fingerprint: u64, message: String },
}

#[derive(Debug, PartialEq, Eq)]
pub struct AppState {
    pub should_quit: bool,
    pub stop_playback_on_exit: bool,
    pub navigation: NavigationState,
    pub sidebar_selection: usize,
    pub content_selection: usize,
    pub queue_selection: usize,
    pub focus: Focus,
    pub playback: PlaybackSnapshot,
    pub queue: Vec<QueueItem>,
    pub library: Vec<Track>,
    pub artists: Vec<Artist>,
    pub albums: Vec<Album>,
    pub recently_added: Vec<Album>,
    pub recently_played: Vec<RecentlyPlayedEntry>,
    pub stations: Vec<Station>,
    pub playlists: Vec<Playlist>,
    pub playlist_hierarchy: PlaylistHierarchy,
    pub expanded_playlist_folders: PlaylistIdSet,
    pub artwork_cache: ArtworkMap<ArtworkCacheEntry>,
    pub artwork_cache_order: Vec<ArtworkKey>,
    /// Stable track identities retained only while an artwork request may retry.
    pub artwork_request_tracks: ArtworkMap<TrackId>,
    pub artwork_retry_attempts: ArtworkMap<u8>,
    pub renderable_artwork_cache: ArtworkMap<RenderableArtworkCacheEntry>,
    pub renderable_artwork_cache_order: Vec<ArtworkKey>,
    pub search_query: String,
    pub search_results: Vec<LocalSearchResult>,
    pub search_index: Vec<LocalSearchIndexEntry>,
    pub search_input_active: bool,
    pub library_views: LibraryViews,
    pub sort_menu: Option<SortMenuState>,
    pub filter_editor: Option<FilterEditorState>,
    pub capabilities: Capabilities,
    pub backend_availability: BackendAvailability,
    pub backend_status: BackendStatus,
    pub auth_status: AuthStatus,
    pub view_status: ViewStatus,
    pub library_status: CollectionLoadState,
    pub playlist_status: CollectionLoadState,
    pub notification: Option<String>,
    pub help_open: bool,
    pub help_scroll: usize,
    pub action_menu: Option<ActionMenuState>,
    pub playlist_track_removal_confirmation: Option<PlaylistTrackRemovalConfirmation>,
    pub playlist_track_removal_in_flight: bool,
    pub terminal_size: (u16, u16),
}

/// Whether `r` is the state of a freshly started client: the Listen Now screen with the
/// sidebar focused and no history, nothing loaded or selected, no overlay open, fresh
/// library views sorted by title and name, no capabilities, an initializing backend and an
/// 80 by 24 terminal.
pub open spec fn initial_state(r: AppState) -> bool {
    &&& r.caches_wf()
    &&& !r.should_quit
    &&& !r.stop_playback_on_exit
    &&& r.navigation.active == Route::Section(Screen::ListenNow)
    &&& r.navigation.history@.len() == 0
    &&& r.focus == Focus::Sidebar
    &&& r.sidebar_selection == 0
    &&& r.content_selection == 0
    &&& r.queue_selection == 0
    &&& r.playback.status == PlaybackStatus::Stopped
    &&& r.playback.current_entry_id is None
    &&& r.playback.current_track is None
    &&& r.playback.position@ == 0
    &&& r.playback.volume == 50
    &&& !r.playback.muted
    &&& !r.playback.shuffle
    &&& r.playback.repeat == RepeatMode::Off
    &&& r.playback.context == PlaybackContext::NoContext
    &&& r.queue@.len() == 0
    &&& r.library@.len() == 0
    &&& r.artists@.len() == 0
    &&& r.albums@.len() == 0
    &&& r.recently_added@.len() == 0
    &&& r.recently_played@.len() == 0
    &&& r.stations@.len() == 0
    &&& r.playlists@.len() == 0
    &&& r.playlist_hierarchy.nodes@.len() == 0
    &&& r.playlist_hierarchy.roots@.len() == 0
    &&& r.expanded_playlist_folders@ == Set::<Seq<char>>::empty()
    &&& r.artwork_cache.size() == 0
    &&& r.artwork_cache_order@.len() == 0
    &&& r.artwork_request_tracks.size() == 0
    &&& r.artwork_retry_attempts.size() == 0
    &&& r.renderable_artwork_cache.size() == 0
    &&& r.renderable_artwork_cache_order@.len() == 0
    &&& r.search_query@.len() == 0
    &&& r.search_results@.len() == 0
    &&& r.search_index@.len() == 0
    &&& !r.search_input_active
    &&& fresh_view(r.library_views.songs, CollectionSort::SongTitle)
    &&& fresh_view(r.library_views.albums, CollectionSort::AlbumTitle)
    &&& fresh_view(r.library_views.artists, CollectionSort::ArtistName)
    &&& r.sort_menu is None
    &&& r.filter_editor is None
    &&& r.capabilities@ == Set::<crate::capabilities::Capability>::empty()
    &&& r.backend_availability == BackendAvailability::Available
    &&& r.backend_status == BackendStatus::Initializing
    &&& r.auth_status == AuthStatus::NotConfigured
    &&& r.view_status == ViewStatus::Loading
    &&& r.library_status == CollectionLoadState::NotStarted
    &&& r.playlist_status == CollectionLoadState::NotStarted
    &&& r.notification is None
    &&& !r.help_open
    &&& r.help_scroll == 0
    &&& r.action_menu is None
    &&& r.playlist_track_removal_confirmation is None
    &&& !r.playlist_track_removal_in_flight
    &&& r.terminal_size == (80u16, 24u16)
}

impl AppState {
    /// The keyed caches are internally consistent.
    pub open spec fn caches_wf(&self) -> bool {
        &&& self.artwork_cache.wf()
        &&& self.artwork_request_tracks.wf()
        &&& self.artwork_retry_attempts.wf()
        &&& self.renderable_artwork_cache.wf()
    }

    /// The state of a freshly started client: the Listen Now screen with the sidebar
    /// focused, nothing loaded, no capabilities, an initializing backend and an
    /// 80 by 24 terminal.
    pub fn initial() -> (r: AppState)
        ensures
            initial_state(r),
    {
        AppState {
            should_quit: false,
            stop_playback_on_exit: false,
            navigation: NavigationState::default(),
            sidebar_selection: 0,
            content_selection: 0,
            queue_selection: 0,
            focus: Focus::Sidebar,
            playback: PlaybackSnapshot::initial(),
            queue: Vec::new(),
            library: Vec::new(),
            artists: Vec::new(),
            albums: Vec::new(),
            recently_added: Vec::new(),
            recently_played: Vec::new(),
            stations: Vec::new(),
            playlists: Vec::new(),
            playlist_hierarchy: PlaylistHierarchy { nodes: Vec::new(), roots: Vec::new() },
            expanded_playlist_folders: PlaylistIdSet::new(),
            artwork_cache: ArtworkMap::new(),
            artwork_cache_order: Vec::new(),
            artwork_request_tracks: ArtworkMap::new(),
            artwork_retry_attempts: ArtworkMap::new(),
            renderable_artwork_cache: ArtworkMap::new(),
            renderable_artwork_cache_order: Vec::new(),
            search_query: String::new(),
            search_results: Vec::new(),
            search_index: Vec::new(),
            search_input_active: false,
            library_views: LibraryViews::default(),
            sort_menu: None,
            filter_editor: None,
            capabilities: Capabilities::none(),
            backend_availability: BackendAvailability::Available,
            backend_status: BackendStatus::Initializing,
            auth_status: AuthStatus::NotConfigured,
            view_status: ViewStatus::Loading,
            library_status: CollectionLoadState::NotStarted,
            playlist_status: CollectionLoadState::NotStarted,
            notification: None,
            help_open: false,
            help_scroll: 0,
            action_menu: None,
            playlist_track_removal_confirmation: None,
            playlist_track_removal_in_flight: false,
            terminal_size: (80, 24),
        }
    }
}

impl Default for AppState {
    fn default() -> (r: Self)
        ensures
            initial_state(r),
    {
        AppState::initial()
    }
}

} // verus!
