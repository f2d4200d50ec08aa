//! What activating or playing the selection does on each route.
use vstd::prelude::*;

use crate::action::Command;
use crate::artwork_cache::{album_artwork_requested, request_album_artwork};
use crate::backend::BackendCommand;
use crate::capabilities::Capability;
use crate::commands::{backend_command, gated, gated_by, lemma_gated_by, open_playlist_detail, playlist_opened};
use crate::context_menu::{ids_of, noticed, selected_row, track_ids};
use crate::domain::{Album, PlaylistId, PlaylistKind, TrackId};
use crate::navigation::{
    detail_opened, entered_section, find_album, find_artist, first_album, first_artist,
    folder_toggled, navigate_to_section, open_detail, playlist_by_id, playlist_position,
    selected_playlist_id, spec_selected_playlist_id, toggle_playlist_folder,
};
use crate::playlists::first_with_id;
use crate::search::searched;
use crate::state::{screen_at, AppState, CollectionKind, Focus, LocalSearchResult, Route, Screen, SCREEN_COUNT};
use crate::views::selected_collection_source_index;

verus! {

/// Whether `c` is the command that plays the selected track of the active route; `None`
/// when the route has no playable track selected.
pub open spec fn track_command(state: AppState, c: Option<BackendCommand>) -> bool {
    let cs = state.content_selection as int;
    match state.navigation.active {
        Route::Section(Screen::Songs) => match selected_row(state, CollectionKind::Songs, state.library@.len()) {
            Some(i) => c == Some(BackendCommand::PlayTrack(state.library@[i].id)),
            None => c is None,
        },
        Route::Section(Screen::RecentlyPlayed) => if cs < state.recently_played@.len() {
            c == Some(BackendCommand::PlayTrack(state.recently_played@[cs].track_id))
        } else {
            c is None
        },
        Route::Section(Screen::Search) => if cs < state.search_results@.len() {
            match state.search_results@[cs] {
                LocalSearchResult::Track(id) => c == Some(BackendCommand::PlayTrack(id)),
                _ => c is None,
            }
        } else {
            c is None
        },
        Route::ArtistDetail { artist_id } => {
            let i = first_artist(state.artists@, artist_id@);
            if i >= 0 && cs < state.artists@[i].top_track_ids@.len() {
                c == Some(BackendCommand::PlayTrack(state.artists@[i].top_track_ids@[cs]))
            } else {
                c is None
            }
        },
        Route::AlbumDetail { album_id } => {
            let i = first_album(state.albums@, album_id@);
            if i >= 0 && cs < state.albums@[i].tracks@.len() {
                c == Some(BackendCommand::PlayTrack(state.albums@[i].tracks@[cs].id))
            } else {
                c is None
            }
        },
        Route::PlaylistDetail { playlist_id } => {
            let i = first_with_id(state.playlists@, playlist_id@);
            if i >= 0 && cs < state.playlists@[i].tracks@.len() {
                let p = state.playlists@[i];
                c matches Some(cmd) && playlist_track_command(cmd, playlist_id, p, state.content_selection)
            } else {
                c is None
            }
        },
        _ => c is None,
    }
}

/// Whether `c` plays row `index` of playlist `p` in the playlist's order.
pub open spec fn playlist_track_command(c: BackendCommand, playlist_id: PlaylistId, p: crate::domain::Playlist, index: usize) -> bool {
    c == BackendCommand::PlayPlaylistTrack {
        playlist_id,
        ordered_track_ids: c->ordered_track_ids,
        selected_index: index,
        complete: p.contents_state.spec_is_complete(),
    } && c->ordered_track_ids@ == ids_of(p.tracks@)
}

/// The command that plays the selected track of the active route.
pub fn selected_track_command(state: &AppState) -> (r: Option<BackendCommand>)
    ensures
        track_command(*state, r),
{
    let cs = state.content_selection;
    match &state.navigation.active {
        Route::Section(Screen::Songs) => match selected_collection_source_index(state, CollectionKind::Songs) {
            Some(i) => if i < state.library.len() {
                Some(BackendCommand::PlayTrack(state.library[i].id.duplicate()))
            } else {
                None
            },
            None => None,
        },
        Route::Section(Screen::RecentlyPlayed) => if cs < state.recently_played.len() {
            Some(BackendCommand::PlayTrack(state.recently_played[cs].track_id.duplicate()))
        } else {
            None
        },
        Route::Section(Screen::Search) => if cs < state.search_results.len() {
            match &state.search_results[cs] {
                LocalSearchResult::Track(id) => Some(BackendCommand::PlayTrack(id.duplicate())),
                _ => None,
            }
        } else {
            None
        },
        Route::ArtistDetail { artist_id } => match find_artist(&state.artists, artist_id) {
            Some(i) => if cs < state.artists[i].top_track_ids.len() {
                Some(BackendCommand::PlayTrack(state.artists[i].top_track_ids[cs].duplicate()))
            } else {
                None
            },
            None => None,
        },
        Route::AlbumDetail { album_id } => match find_album(&state.albums, album_id) {
            Some(i) => if cs < state.albums[i].tracks.len() {
                Some(BackendCommand::PlayTrack(state.albums[i].tracks[cs].id.duplicate()))
            } else {
                None
            },
            None => None,
        },
        Route::PlaylistDetail { playlist_id } => match playlist_position(state, playlist_id) {
            Some(i) => if cs < state.playlists[i].tracks.len() {
                let p = &state.playlists[i];
                Some(BackendCommand::PlayPlaylistTrack {
                    playlist_id: playlist_id.duplicate(),
                    ordered_track_ids: track_ids(&p.tracks),
                    selected_index: cs,
                    complete: p.contents_state.is_complete(),
                })
            } else {
                None
            },
            None => None,
        },
        _ => None,
    }
}

/// Whether the playlist with identity `id` is listed and is a folder.
pub open spec fn is_folder(state: AppState, id: PlaylistId) -> bool {
    let i = first_with_id(state.playlists@, id@);
    i >= 0 && state.playlists@[i].kind == PlaylistKind::Folder
}

/// Whether opening the playlist with identity `id` should load its contents.
pub open spec fn needs_load(state: AppState, id: PlaylistId) -> bool {
    let i = first_with_id(state.playlists@, id@);
    i >= 0 && state.playlists@[i].contents_state.spec_should_request_load() && state.capabilities@.contains(
        Capability::PlaylistRead,
    )
}

fn needs_load_of(state: &AppState, id: &PlaylistId) -> (r: bool)
    ensures
        r == needs_load(*state, *id),
{
    match playlist_by_id(state, id) {
        Some(p) => p.contents_state.should_request_load() && state.capabilities.supports(Capability::PlaylistRead),
        None => false,
    }
}

/// The detail route the selection opens on the Artists, Albums and Recently Added screens.
pub open spec fn selected_destination(state: AppState) -> Option<Route> {
    let cs = state.content_selection as int;
    match state.navigation.active {
        Route::Section(Screen::Artists) => match selected_row(state, CollectionKind::Artists, state.artists@.len()) {
            Some(i) => Some(Route::ArtistDetail { artist_id: state.artists@[i].id }),
            None => None,
        },
        Route::Section(Screen::Albums) => match selected_row(state, CollectionKind::Albums, state.albums@.len()) {
            Some(i) => Some(Route::AlbumDetail { album_id: state.albums@[i].id }),
            None => None,
        },
        Route::Section(Screen::RecentlyAdded) => if cs < state.recently_added@.len() {
            Some(Route::AlbumDetail { album_id: state.recently_added@[cs].id })
        } else {
            None
        },
        _ => None,
    }
}

/// `new` and `r` are what opening an album's detail route gives: the route, then its artwork.
pub open spec fn album_opened(old: AppState, new: AppState, r: Seq<Command>, album_id: crate::domain::AlbumId) -> bool {
    exists|mid: AppState|
        #![trigger detail_opened(old, mid, Route::AlbumDetail { album_id })]
        detail_opened(old, mid, Route::AlbumDetail { album_id }) && album_artwork_requested(mid, new, r, album_id)
}

/// `new` and `r` are what activating the selection gives once the screen-specific cases
/// did not apply: open the selected artist or album, else play the selected track.
pub open spec fn activated_row(old: AppState, new: AppState, r: Seq<Command>) -> bool {
    match selected_destination(old) {
        Some(Route::AlbumDetail { album_id }) => album_opened(old, new, r, album_id),
        Some(destination) => r.len() == 0 && detail_opened(old, new, destination),
        None => exists|c: Option<BackendCommand>|
            #![trigger track_command(old, c)]
            track_command(old, c) && match c {
                Some(cmd) => gated(old, new, r, Capability::SelectionPlayback, cmd),
                None => r.len() == 0 && new == old,
            },
    }
}

/// `new` and `r` are what activating the selection gives.
pub open spec fn activated(old: AppState, new: AppState, r: Seq<Command>) -> bool {
    let cs = old.content_selection as int;
    if old.focus == Focus::Sidebar {
        &&& r.len() == 0
        &&& if old.sidebar_selection < SCREEN_COUNT {
            let screen = screen_at(old.sidebar_selection as int);
            if screen == Screen::Search {
                exists|mid: AppState|
                    #![trigger entered_section(old, mid, screen)]
                    entered_section(old, mid, screen) && searched(mid, new)
            } else {
                entered_section(old, new, screen)
            }
        } else {
            new == old
        }
    } else if old.focus != Focus::Content {
        r.len() == 0 && new == old
    } else {
        match old.navigation.active {
            Route::Section(Screen::Playlists) => match spec_selected_playlist_id(old) {
                None => r.len() == 0 && new == old,
                Some(id) => if is_folder(old, id) {
                    r.len() == 0 && folder_toggled(old, new, id@)
                } else {
                    playlist_opened(old, new, r, id, needs_load(old, id))
                },
            },
            Route::Section(Screen::MadeForYou) => if cs < old.playlists@.len() {
                let id = old.playlists@[cs].id;
                playlist_opened(old, new, r, id, needs_load(old, id))
            } else {
                activated_row(old, new, r)
            },
            Route::Section(Screen::Search) => if cs < old.search_results@.len() {
                match old.search_results@[cs] {
                    LocalSearchResult::Artist(artist_id) => r.len() == 0 && detail_opened(
                        old,
                        new,
                        Route::ArtistDetail { artist_id },
                    ),
                    LocalSearchResult::Album(album_id) => album_opened(old, new, r, album_id),
                    LocalSearchResult::Playlist(id) => playlist_opened(old, new, r, id, needs_load(old, id)),
                    LocalSearchResult::Track(_) => activated_row(old, new, r),
                }
            } else {
                activated_row(old, new, r)
            },
            _ => activated_row(old, new, r),
        }
    }
}

fn activate_row(state: &mut AppState) -> (r: Vec<Command>)
    requires
        old(state).caches_wf(),
    ensures
        final(state).caches_wf(),
        activated_row(*old(state), *final(state), r@),
{
    let ghost s0 = *state;
    let cs = state.content_selection;
    let destination = match &state.navigation.active {
        Route::Section(Screen::Artists) => match selected_collection_source_index(state, CollectionKind::Artists) {
            Some(i) => if i < state.artists.len() {
                Some(Route::ArtistDetail { artist_id: state.artists[i].id.duplicate() })
            } else {
                None
            },
            None => None,
        },
        Route::Section(Screen::Albums) => match selected_collection_source_index(state, CollectionKind::Albums) {
            Some(i) => if i < state.albums.len() {
                Some(Route::AlbumDetail { album_id: state.albums[i].id.duplicate() })
            } else {
                None
            },
            None => None,
        },
        Route::Section(Screen::RecentlyAdded) => if cs < state.recently_added.len() {
            Some(Route::AlbumDetail { album_id: state.recently_added[cs].id.duplicate() })
        } else {
            None
        },
        _ => None,
    };
    assert(destination == selected_destination(s0));
    match destination {
        Some(Route::AlbumDetail { album_id }) => {
            open_detail(state, Route::AlbumDetail { album_id: album_id.duplicate() });
            let ghost mid = *state;
            let r = request_album_artwork(state, album_id);
            assert(detail_opened(s0, mid, Route::AlbumDetail { album_id }));
            r
        },
        Some(destination) => {
            open_detail(state, destination);
            Vec::new()
        },
        None => {
            let c = selected_track_command(state);
            let ghost gc = c;
            match c {
                Some(cmd) => {
                    let r = backend_command(state, Capability::SelectionPlayback, cmd);
                    assert(track_command(s0, gc));
                    r
                },
                None => {
                    let r = Vec::new();
                    assert(track_command(s0, gc));
                    r
                },
            }
        },
    }
}

/// Activates the selection: a sidebar row opens its screen; in the content pane a folder
/// toggles, a playlist, artist or album opens, and a track plays.
pub fn open_selected(state: &mut AppState) -> (r: Vec<Command>)
    requires
        old(state).caches_wf(),
    ensures
        final(state).caches_wf(),
        activated(*old(state), *final(state), r@),
{
    let ghost s0 = *state;
    if state.focus == Focus::Sidebar {
        match Screen::at(state.sidebar_selection) {
            Some(screen) => {
                navigate_to_section(state, screen);
            },
            None => {},
        }
        return Vec::new();
    }
    if state.focus != Focus::Content {
        return Vec::new();
    }
    let cs = state.content_selection;
    match &state.navigation.active {
        Route::Section(Screen::Playlists) => {
            let id = match selected_playlist_id(state) {
                None => return Vec::new(),
                Some(id) => id,
            };
            let folder = match playlist_by_id(state, &id) {
                Some(p) => p.kind == PlaylistKind::Folder,
                None => false,
            };
            if folder {
                toggle_playlist_folder(state, id);
                return Vec::new();
            }
            let load = needs_load_of(state, &id);
            return open_playlist_detail(state, id, load);
        },
        Route::Section(Screen::MadeForYou) => {
            if cs < state.playlists.len() {
                let id = state.playlists[cs].id.duplicate();
                let load = needs_load_of(state, &id);
                return open_playlist_detail(state, id, load);
            }
        },
        Route::Section(Screen::Search) => {
            if cs < state.search_results.len() {
                let result = state.search_results[cs].duplicate();
                match result {
                    LocalSearchResult::Artist(artist_id) => {
                        open_detail(state, Route::ArtistDetail { artist_id });
                        return Vec::new();
                    },
                    LocalSearchResult::Album(album_id) => {
                        open_detail(state, Route::AlbumDetail { album_id: album_id.duplicate() });
                        let ghost mid = *state;
                        let r = request_album_artwork(state, album_id);
                        assert(detail_opened(s0, mid, Route::AlbumDetail { album_id }));
                        return r;
                    },
                    LocalSearchResult::Playlist(id) => {
                        let load = needs_load_of(state, &id);
                        return open_playlist_detail(state, id, load);
                    },
                    LocalSearchResult::Track(_) => {},
                }
            }
        },
        _ => {},
    }
    activate_row(state)
}

/// The album collection playback applies to on the active route, if any.
pub open spec fn selected_album(state: AppState) -> Option<Album> {
    let cs = state.content_selection as int;
    match state.navigation.active {
        Route::Section(Screen::Albums) => match selected_row(state, CollectionKind::Albums, state.albums@.len()) {
            Some(i) => Some(state.albums@[i]),
            None => None,
        },
        Route::Section(Screen::RecentlyAdded) => if cs < state.recently_added@.len() {
            Some(state.recently_added@[cs])
        } else {
            None
        },
        Route::AlbumDetail { album_id } => {
            let i = first_album(state.albums@, album_id@);
            if i >= 0 {
                Some(state.albums@[i])
            } else {
                None
            }
        },
        _ => None,
    }
}

/// The playlist collection playback applies to on the active route, if any.
pub open spec fn selected_collection_playlist(state: AppState) -> Option<PlaylistId> {
    let cs = state.content_selection as int;
    match state.navigation.active {
        Route::Section(Screen::Playlists) => spec_selected_playlist_id(state),
        Route::Section(Screen::MadeForYou) => if cs < state.playlists@.len() {
            Some(state.playlists@[cs].id)
        } else {
            None
        },
        Route::PlaylistDetail { playlist_id } => Some(playlist_id),
        _ => None,
    }
}

pub open spec fn empty_album_notice() -> Seq<char> {
    "Selected album has no playable local tracks"@
}

pub open spec fn no_collection_notice() -> Seq<char> {
    "Select an album or playlist before starting collection playback"@
}

pub open spec fn folder_play_notice() -> Seq<char> {
    "Folders contain playlists and cannot be played"@
}

/// `new` and `r` are what playing the selected collection gives.
pub open spec fn collection_played(old: AppState, new: AppState, r: Seq<Command>) -> bool {
    match selected_album(old) {
        Some(album) => if album.tracks@.len() == 0 {
            r.len() == 0 && noticed(old, new, empty_album_notice())
        } else {
            gated_by(
                old,
                new,
                r,
                Capability::AlbumPlayback,
                |c: BackendCommand|
                    c == BackendCommand::PlayAlbum { album_id: album.id, track_ids: c->track_ids } && c->track_ids@
                        == ids_of(album.tracks@),
            )
        },
        None => match selected_collection_playlist(old) {
            None => r.len() == 0 && noticed(old, new, no_collection_notice()),
            Some(id) => if is_folder(old, id) {
                r.len() == 0 && noticed(old, new, folder_play_notice())
            } else {
                gated(old, new, r, Capability::SelectionPlayback, BackendCommand::PlayPlaylist(id))
            },
        },
    }
}

/// Plays the selected album or playlist as a whole.
pub fn play_selected_collection(state: &mut AppState) -> (r: Vec<Command>)
    ensures
        collection_played(*old(state), *final(state), r@),
{
    let ghost s0 = *state;
    let cs = state.content_selection;
    let album: Option<usize> = match &state.navigation.active {
        Route::Section(Screen::Albums) => match selected_collection_source_index(state, CollectionKind::Albums) {
            Some(i) => if i < state.albums.len() {
                Some(i)
            } else {
                None
            },
            None => None,
        },
        Route::AlbumDetail { album_id } => find_album(&state.albums, album_id),
        _ => None,
    };
    let recent = match &state.navigation.active {
        Route::Section(Screen::RecentlyAdded) => cs < state.recently_added.len(),
        _ => false,
    };
    if album.is_some() || recent {
        let a = if recent {
            &state.recently_added[cs]
        } else {
            &state.albums[album.unwrap()]
        };
        let ghost ga = *a;
        assert(selected_album(s0) == Some(ga));
        if a.tracks.len() == 0 {
            state.notification = Some("Selected album has no playable local tracks".to_owned());
            proof {
                reveal_strlit("Selected album has no playable local tracks");
            }
            return Vec::new();
        }
        let command = BackendCommand::PlayAlbum { album_id: a.id.duplicate(), track_ids: track_ids(&a.tracks) };
        let ghost gc = command;
        let r = backend_command(state, Capability::AlbumPlayback, command);
        proof {
            let ok = |c: BackendCommand|
                c == BackendCommand::PlayAlbum { album_id: ga.id, track_ids: c->track_ids } && c->track_ids@ == ids_of(ga.tracks@);
            assert(ok(gc));
            lemma_gated_by(s0, *state, r@, Capability::AlbumPlayback, gc, ok);
        }
        return r;
    }
    assert(selected_album(s0) is None);
    let playlist_id = match &state.navigation.active {
        Route::Section(Screen::Playlists) => selected_playlist_id(state),
        Route::Section(Screen::MadeForYou) => if cs < state.playlists.len() {
            Some(state.playlists[cs].id.duplicate())
        } else {
            None
        },
        Route::PlaylistDetail { playlist_id } => Some(playlist_id.duplicate()),
        _ => None,
    };
    let playlist_id = match playlist_id {
        None => {
            state.notification = Some("Select an album or playlist before starting collection playback".to_owned());
            proof {
                reveal_strlit("Select an album or playlist before starting collection playback");
            }
            return Vec::new();
        },
        Some(id) => id,
    };
    let folder = match playlist_by_id(state, &playlist_id) {
        Some(p) => p.kind == PlaylistKind::Folder,
        None => false,
    };
    if folder {
        state.notification = Some("Folders contain playlists and cannot be played".to_owned());
        proof {
            reveal_strlit("Folders contain playlists and cannot be played");
        }
        return Vec::new();
    }
    backend_command(state, Capability::SelectionPlayback, BackendCommand::PlayPlaylist(playlist_id))
}

} // verus!
