//! The action menu: what the selection designates, which actions apply to it, and what
//! choosing one does.
use vstd::prelude::*;

use crate::action::{single, Command};
use crate::artwork_cache::{album_artwork_requested, request_album_artwork};
use crate::backend::BackendCommand;
use crate::capabilities::Capability;
use crate::commands::{backend_command, gated, gated_by, open_playlist_detail, playlist_opened};
use crate::domain::{Album, Artist, Playlist, PlaylistId, PlaylistKind, Track, TrackId};
use crate::navigation::{
    detail_opened, find_album, find_artist, first_album, first_album_with_track, first_artist, lemma_first_album_with_track_prefix,
    folder_toggled, holds_track, open_detail, playlist_by_id, playlist_position, selected_playlist_id,
    spec_selected_playlist_id, toggle_playlist_folder, tracks_hold,
};
use crate::playlists::first_with_id;
use crate::state::{
    ActionMenuState, AppState, CollectionKind, ContextAction, ContextTarget, LocalSearchResult,
    PlaylistTrackRemovalConfirmation, Route, Screen,
};
use crate::views::{selected_collection_source_index, spec_selected_source_index};

verus! {

/// A playlist target: a folder or a playlist.
pub open spec fn folder_or_playlist(p: Playlist, id: PlaylistId) -> ContextTarget {
    if p.kind == PlaylistKind::Folder {
        ContextTarget::Folder(id)
    } else {
        ContextTarget::Playlist(id)
    }
}

/// The target of the playlist with identity `id`, if it is listed.
pub open spec fn playlist_target(state: AppState, id: PlaylistId) -> Option<ContextTarget> {
    let i = first_with_id(state.playlists@, id@);
    if i >= 0 {
        Some(folder_or_playlist(state.playlists@[i], id))
    } else {
        None
    }
}

/// The source row a collection selection designates, when it exists.
pub open spec fn selected_row(state: AppState, collection: CollectionKind, len: nat) -> Option<int> {
    match spec_selected_source_index(state, collection) {
        Some(i) => if i < len {
            Some(i as int)
        } else {
            None
        },
        None => None,
    }
}

/// What the selection designates on the active route.
pub open spec fn spec_context_target(state: AppState) -> Option<ContextTarget> {
    let cs = state.content_selection as int;
    match state.navigation.active {
        Route::Section(screen) => match screen {
            Screen::Songs => match selected_row(state, CollectionKind::Songs, state.library@.len()) {
                Some(i) => Some(ContextTarget::Track(state.library@[i].id)),
                None => None,
            },
            Screen::RecentlyPlayed => if cs < state.recently_played@.len() {
                Some(ContextTarget::Track(state.recently_played@[cs].track_id))
            } else {
                None
            },
            Screen::Albums => match selected_row(state, CollectionKind::Albums, state.albums@.len()) {
                Some(i) => Some(ContextTarget::Album(state.albums@[i].id)),
                None => None,
            },
            Screen::RecentlyAdded => if cs < state.recently_added@.len() {
                Some(ContextTarget::Album(state.recently_added@[cs].id))
            } else {
                None
            },
            Screen::Artists => match selected_row(state, CollectionKind::Artists, state.artists@.len()) {
                Some(i) => Some(ContextTarget::Artist(state.artists@[i].id)),
                None => None,
            },
            Screen::Playlists => match spec_selected_playlist_id(state) {
                Some(id) => playlist_target(state, id),
                None => None,
            },
            Screen::MadeForYou => if cs < state.playlists@.len() {
                Some(folder_or_playlist(state.playlists@[cs], state.playlists@[cs].id))
            } else {
                None
            },
            Screen::Search => if cs < state.search_results@.len() {
                match state.search_results@[cs] {
                    LocalSearchResult::Track(id) => Some(ContextTarget::Track(id)),
                    LocalSearchResult::Album(id) => Some(ContextTarget::Album(id)),
                    LocalSearchResult::Artist(id) => Some(ContextTarget::Artist(id)),
                    LocalSearchResult::Playlist(id) => playlist_target(state, id),
                }
            } else {
                None
            },
            _ => None,
        },
        Route::PlaylistDetail { playlist_id } => {
            let i = first_with_id(state.playlists@, playlist_id@);
            if i >= 0 && cs < state.playlists@[i].tracks@.len() {
                Some(ContextTarget::PlaylistTrack {
                    playlist_id,
                    track_id: state.playlists@[i].tracks@[cs].id,
                    index: state.content_selection,
                })
            } else {
                None
            }
        },
        Route::AlbumDetail { album_id } => {
            let i = first_album(state.albums@, album_id@);
            if i >= 0 && cs < state.albums@[i].tracks@.len() {
                Some(ContextTarget::Track(state.albums@[i].tracks@[cs].id))
            } else {
                None
            }
        },
        Route::ArtistDetail { artist_id } => {
            let i = first_artist(state.artists@, artist_id@);
            if i >= 0 && cs < state.artists@[i].top_track_ids@.len() {
                Some(ContextTarget::Track(state.artists@[i].top_track_ids@[cs]))
            } else {
                None
            }
        },
        Route::NowPlaying => None,
    }
}

fn playlist_target_of(state: &AppState, id: &PlaylistId) -> (r: Option<ContextTarget>)
    ensures
        r == playlist_target(*state, *id),
{
    match playlist_by_id(state, id) {
        Some(p) => if p.kind == PlaylistKind::Folder {
            Some(ContextTarget::Folder(id.duplicate()))
        } else {
            Some(ContextTarget::Playlist(id.duplicate()))
        },
        None => None,
    }
}

fn selected_row_of(state: &AppState, collection: CollectionKind, len: usize) -> (r: Option<usize>)
    ensures
        match r {
            Some(i) => selected_row(*state, collection, len as nat) == Some(i as int),
            None => selected_row(*state, collection, len as nat) is None,
        },
{
    match selected_collection_source_index(state, collection) {
        Some(i) => if i < len {
            Some(i)
        } else {
            None
        },
        None => None,
    }
}

/// What the selection designates on the active route.
pub fn selected_context_target(state: &AppState) -> (r: Option<ContextTarget>)
    ensures
        r == spec_context_target(*state),
{
    let cs = state.content_selection;
    match &state.navigation.active {
        Route::Section(screen) => match screen {
            Screen::Songs => match selected_row_of(state, CollectionKind::Songs, state.library.len()) {
                Some(i) => Some(ContextTarget::Track(state.library[i].id.duplicate())),
                None => None,
            },
            Screen::RecentlyPlayed => if cs < state.recently_played.len() {
                Some(ContextTarget::Track(state.recently_played[cs].track_id.duplicate()))
            } else {
                None
            },
            Screen::Albums => match selected_row_of(state, CollectionKind::Albums, state.albums.len()) {
                Some(i) => Some(ContextTarget::Album(state.albums[i].id.duplicate())),
                None => None,
            },
            Screen::RecentlyAdded => if cs < state.recently_added.len() {
                Some(ContextTarget::Album(state.recently_added[cs].id.duplicate()))
            } else {
                None
            },
            Screen::Artists => match selected_row_of(state, CollectionKind::Artists, state.artists.len()) {
                Some(i) => Some(ContextTarget::Artist(state.artists[i].id.duplicate())),
                None => None,
            },
            Screen::Playlists => match selected_playlist_id(state) {
                Some(id) => playlist_target_of(state, &id),
                None => None,
            },
            Screen::MadeForYou => if cs < state.playlists.len() {
                let p = &state.playlists[cs];
                if p.kind == PlaylistKind::Folder {
                    Some(ContextTarget::Folder(p.id.duplicate()))
                } else {
                    Some(ContextTarget::Playlist(p.id.duplicate()))
                }
            } else {
                None
            },
            Screen::Search => if cs < state.search_results.len() {
                match &state.search_results[cs] {
                    LocalSearchResult::Track(id) => Some(ContextTarget::Track(id.duplicate())),
                    LocalSearchResult::Album(id) => Some(ContextTarget::Album(id.duplicate())),
                    LocalSearchResult::Artist(id) => Some(ContextTarget::Artist(id.duplicate())),
                    LocalSearchResult::Playlist(id) => playlist_target_of(state, id),
                }
            } else {
                None
            },
            _ => None,
        },
        Route::PlaylistDetail { playlist_id } => match playlist_position(state, playlist_id) {
            Some(i) => if cs < state.playlists[i].tracks.len() {
                Some(ContextTarget::PlaylistTrack {
                    playlist_id: playlist_id.duplicate(),
                    track_id: state.playlists[i].tracks[cs].id.duplicate(),
                    index: cs,
                })
            } else {
                None
            },
            None => None,
        },
        Route::AlbumDetail { album_id } => match find_album(&state.albums, album_id) {
            Some(i) => if cs < state.albums[i].tracks.len() {
                Some(ContextTarget::Track(state.albums[i].tracks[cs].id.duplicate()))
            } else {
                None
            },
            None => None,
        },
        Route::ArtistDetail { artist_id } => match find_artist(&state.artists, artist_id) {
            Some(i) => if cs < state.artists[i].top_track_ids.len() {
                Some(ContextTarget::Track(state.artists[i].top_track_ids[cs].duplicate()))
            } else {
                None
            },
            None => None,
        },
        Route::NowPlaying => None,
    }
}

/// `a` when `b` holds, nothing otherwise.
pub open spec fn when(b: bool, a: ContextAction) -> Seq<ContextAction> {
    if b {
        seq![a]
    } else {
        Seq::empty()
    }
}

/// Whether an identity occurs in a list of track identities.
pub open spec fn lists_track(ids: Seq<TrackId>, id: Seq<char>) -> bool {
    exists|k: int| 0 <= k < ids.len() && #[trigger] ids[k]@ == id
}

/// The position of the first artist among whose top tracks `id` occurs, or -1.
pub open spec fn first_artist_with_track(artists: Seq<Artist>, id: Seq<char>) -> int
    decreases artists.len(),
{
    if artists.len() == 0 {
        -1
    } else if first_artist_with_track(artists.drop_last(), id) >= 0 {
        first_artist_with_track(artists.drop_last(), id)
    } else if lists_track(artists.last().top_track_ids@, id) {
        artists.len() - 1
    } else {
        -1
    }
}

/// Whether the playlist with identity `id` is listed and is a user playlist.
pub open spec fn user_playlist(state: AppState, id: PlaylistId) -> bool {
    let i = first_with_id(state.playlists@, id@);
    i >= 0 && state.playlists@[i].kind == PlaylistKind::User
}

/// The actions offered for a track, and for a track of playlist `playlist` if given.
pub open spec fn track_actions(state: AppState, track: TrackId, playlist: Option<PlaylistId>) -> Seq<ContextAction> {
    when(state.capabilities@.contains(Capability::SelectionPlayback), ContextAction::PlayTrack) + when(
        first_album_with_track(state.albums@, track@) >= 0,
        ContextAction::OpenAlbum,
    ) + when(first_artist_with_track(state.artists@, track@) >= 0, ContextAction::OpenArtist) + when(
        (match playlist {
            Some(id) => user_playlist(state, id),
            None => false,
        }) && state.capabilities@.contains(Capability::PlaylistTrackRemove),
        ContextAction::RemoveFromPlaylist,
    )
}

/// The actions offered for a target, in menu order.
pub open spec fn spec_actions(state: AppState, target: ContextTarget) -> Seq<ContextAction> {
    match target {
        ContextTarget::Track(track_id) => track_actions(state, track_id, None),
        ContextTarget::PlaylistTrack { playlist_id, track_id, .. } => track_actions(state, track_id, Some(playlist_id)),
        ContextTarget::Album(_) => seq![ContextAction::OpenAlbum] + when(
            state.capabilities@.contains(Capability::AlbumPlayback),
            ContextAction::PlayAlbum,
        ),
        ContextTarget::Artist(_) => seq![ContextAction::OpenArtist],
        ContextTarget::Playlist(_) => seq![ContextAction::OpenPlaylist] + when(
            state.capabilities@.contains(Capability::SelectionPlayback),
            ContextAction::PlayPlaylist,
        ),
        ContextTarget::Folder(id) => seq![
            if state.expanded_playlist_folders@.contains(id@) {
                ContextAction::CollapseFolder
            } else {
                ContextAction::ExpandFolder
            },
        ],
    }
}

fn ids_hold(ids: &Vec<TrackId>, id: &TrackId) -> (r: bool)
    ensures
        r == lists_track(ids@, id@),
{
    let mut i: usize = 0;
    while i < ids.len()
        invariant
            i <= ids@.len(),
            forall|k: int| 0 <= k < i ==> ids@[k]@ != id@,
        decreases ids.len() - i,
    {
        if ids[i].same(id) {
            return true;
        }
        i = i + 1;
    }
    false
}

/// The first album holding a track with identity `id`.
pub fn album_with_track(albums: &Vec<Album>, id: &TrackId) -> (r: Option<usize>)
    ensures
        first_album_with_track(albums@, id@) == match r {
            Some(i) => i as int,
            None => -1,
        },
        r matches Some(i) ==> i < albums@.len(),
{
    let mut i: usize = 0;
    while i < albums.len()
        invariant
            i <= albums@.len(),
            first_album_with_track(albums@.take(i as int), id@) == -1,
        decreases albums.len() - i,
    {
        assert(albums@.take(i + 1).drop_last() =~= albums@.take(i as int));
        if tracks_hold(&albums[i].tracks, id) {
            proof {
                lemma_first_album_with_track_prefix(albums@, id@, i + 1);
            }
            return Some(i);
        }
        i = i + 1;
    }
    assert(albums@.take(albums@.len() as int) =~= albums@);
    None
}

proof fn lemma_first_artist_with_track_prefix(artists: Seq<Artist>, id: Seq<char>, n: int)
    requires
        0 <= n <= artists.len(),
        first_artist_with_track(artists.take(n), id) >= 0,
    ensures
        first_artist_with_track(artists, id) == first_artist_with_track(artists.take(n), id),
    decreases artists.len() - n,
{
    if n < artists.len() {
        assert(artists.take(n + 1).drop_last() =~= artists.take(n));
        lemma_first_artist_with_track_prefix(artists, id, n + 1);
    } else {
        assert(artists.take(n) =~= artists);
    }
}

/// The first artist among whose top tracks `id` occurs.
pub fn artist_with_track(artists: &Vec<Artist>, id: &TrackId) -> (r: Option<usize>)
    ensures
        first_artist_with_track(artists@, id@) == match r {
            Some(i) => i as int,
            None => -1,
        },
        r matches Some(i) ==> i < artists@.len(),
{
    let mut i: usize = 0;
    while i < artists.len()
        invariant
            i <= artists@.len(),
            first_artist_with_track(artists@.take(i as int), id@) == -1,
        decreases artists.len() - i,
    {
        assert(artists@.take(i + 1).drop_last() =~= artists@.take(i as int));
        if ids_hold(&artists[i].top_track_ids, id) {
            proof {
                lemma_first_artist_with_track_prefix(artists@, id@, i + 1);
            }
            return Some(i);
        }
        i = i + 1;
    }
    assert(artists@.take(artists@.len() as int) =~= artists@);
    None
}

fn push_when(actions: &mut Vec<ContextAction>, b: bool, a: ContextAction)
    ensures
        final(actions)@ == old(actions)@ + when(b, a),
{
    if b {
        actions.push(a);
    }
    assert(final(actions)@ =~= old(actions)@ + when(b, a));
}

fn track_actions_of(state: &AppState, track: &TrackId, playlist: Option<&PlaylistId>) -> (r: Vec<ContextAction>)
    ensures
        r@ == track_actions(*state, *track, match playlist {
            Some(p) => Some(*p),
            None => None,
        }),
{
    let mut actions: Vec<ContextAction> = Vec::new();
    push_when(&mut actions, state.capabilities.supports(Capability::SelectionPlayback), ContextAction::PlayTrack);
    push_when(&mut actions, album_with_track(&state.albums, track).is_some(), ContextAction::OpenAlbum);
    push_when(&mut actions, artist_with_track(&state.artists, track).is_some(), ContextAction::OpenArtist);
    let removable = match playlist {
        Some(id) => match playlist_by_id(state, id) {
            Some(p) => p.kind == PlaylistKind::User,
            None => false,
        },
        None => false,
    };
    push_when(
        &mut actions,
        removable && state.capabilities.supports(Capability::PlaylistTrackRemove),
        ContextAction::RemoveFromPlaylist,
    );
    assert(actions@ =~= track_actions(*state, *track, match playlist {
        Some(p) => Some(*p),
        None => None,
    }));
    actions
}

/// The actions offered for a target, in menu order.
pub fn actions_for_target(state: &AppState, target: &ContextTarget) -> (r: Vec<ContextAction>)
    ensures
        r@ == spec_actions(*state, *target),
{
    match target {
        ContextTarget::Track(track_id) => track_actions_of(state, track_id, None),
        ContextTarget::PlaylistTrack { playlist_id, track_id, .. } => track_actions_of(state, track_id, Some(playlist_id)),
        ContextTarget::Album(_) => {
            let mut actions: Vec<ContextAction> = Vec::new();
            actions.push(ContextAction::OpenAlbum);
            push_when(&mut actions, state.capabilities.supports(Capability::AlbumPlayback), ContextAction::PlayAlbum);
            assert(actions@ =~= spec_actions(*state, *target));
            actions
        },
        ContextTarget::Artist(_) => {
            let mut actions: Vec<ContextAction> = Vec::new();
            actions.push(ContextAction::OpenArtist);
            assert(actions@ =~= spec_actions(*state, *target));
            actions
        },
        ContextTarget::Playlist(_) => {
            let mut actions: Vec<ContextAction> = Vec::new();
            actions.push(ContextAction::OpenPlaylist);
            push_when(
                &mut actions,
                state.capabilities.supports(Capability::SelectionPlayback),
                ContextAction::PlayPlaylist,
            );
            assert(actions@ =~= spec_actions(*state, *target));
            actions
        },
        ContextTarget::Folder(id) => {
            let mut actions: Vec<ContextAction> = Vec::new();
            if state.expanded_playlist_folders.contains(id) {
                actions.push(ContextAction::CollapseFolder);
            } else {
                actions.push(ContextAction::ExpandFolder);
            }
            assert(actions@ =~= spec_actions(*state, *target));
            actions
        },
    }
}

/// The notice shown when the selection offers no action.
pub open spec fn no_actions_notice() -> Seq<char> {
    "No supported actions for this selection"@
}

/// `new` is `old` with only a notice reading `text`.
pub open spec fn noticed(old: AppState, new: AppState, text: Seq<char>) -> bool {
    &&& new == (AppState { notification: new.notification, ..old })
    &&& new.notification matches Some(m) && m@ == text
}

/// `new` is `old` after asking for the action menu.
pub open spec fn menu_opened(old: AppState, new: AppState) -> bool {
    match spec_context_target(old) {
        None => noticed(old, new, no_actions_notice()),
        Some(target) => if spec_actions(old, target).len() == 0 {
            noticed(old, new, no_actions_notice())
        } else {
            &&& new.action_menu matches Some(menu) && menu.target == target && menu.actions@ == spec_actions(
                old,
                target,
            ) && menu.selection == 0
            &&& new == (AppState { action_menu: new.action_menu, ..old })
        },
    }
}

/// Opens the action menu on what the selection designates, at its first action; when
/// nothing is designated or no action applies, only tells the user so.
pub fn open_action_menu(state: &mut AppState)
    ensures
        menu_opened(*old(state), *final(state)),
{
    let target = match selected_context_target(state) {
        None => {
            state.notification = Some("No supported actions for this selection".to_owned());
            proof {
                reveal_strlit("No supported actions for this selection");
            }
            return;
        },
        Some(target) => target,
    };
    let actions = actions_for_target(state, &target);
    if actions.len() == 0 {
        state.notification = Some("No supported actions for this selection".to_owned());
        proof {
            reveal_strlit("No supported actions for this selection");
        }
        return;
    }
    state.action_menu = Some(ActionMenuState { target, actions, selection: 0 });
}

/// `new` is `old` after moving the action menu selection.
pub open spec fn menu_moved(old: AppState, new: AppState, down: bool) -> bool {
    match old.action_menu {
        None => new == old,
        Some(menu) => {
            let len = menu.actions@.len();
            let s = menu.selection;
            &&& new.action_menu matches Some(m) && m.target == menu.target && m.actions == menu.actions
                && m.selection == (if len == 0 {
                0
            } else if down {
                if s + 1 <= len - 1 {
                    (s + 1) as usize
                } else {
                    (len - 1) as usize
                }
            } else if s > 0 {
                (s - 1) as usize
            } else {
                0
            })
            &&& new == (AppState { action_menu: new.action_menu, ..old })
        },
    }
}

/// Moves the action menu selection one action down or up, staying on the menu.
pub fn move_action_menu_selection(state: &mut AppState, down: bool)
    ensures
        menu_moved(*old(state), *final(state), down),
{
    match &mut state.action_menu {
        None => {},
        Some(menu) => {
            let len = menu.actions.len();
            if len == 0 {
                menu.selection = 0;
            } else if down {
                if menu.selection < len - 1 {
                    menu.selection = menu.selection + 1;
                } else {
                    menu.selection = len - 1;
                }
            } else if menu.selection > 0 {
                menu.selection = menu.selection - 1;
            }
        },
    }
}

/// The notice shown when the action's target no longer exists.
pub open spec fn stale_notice() -> Seq<char> {
    "Selected item is no longer available"@
}

/// Tells the user that the chosen item is gone.
pub fn stale_action_target(state: &mut AppState) -> (r: Vec<Command>)
    ensures
        r@.len() == 0,
        noticed(*old(state), *final(state), stale_notice()),
{
    state.notification = Some("Selected item is no longer available".to_owned());
    proof {
        reveal_strlit("Selected item is no longer available");
    }
    Vec::new()
}

/// `new` and `r` are what asking to remove the `index`th track of a playlist gives: a
/// stale notice when the playlist is gone; a confirmation to answer when it is a user
/// playlist, the backend can remove tracks, and the row still holds `track_id`; otherwise
/// nothing.
pub open spec fn removal_requested(old: AppState, new: AppState, r: Seq<Command>, playlist_id: PlaylistId, index: usize, track_id: TrackId) -> bool {
    let i = first_with_id(old.playlists@, playlist_id@);
    if i < 0 {
        r.len() == 0 && noticed(old, new, stale_notice())
    } else {
        let p = old.playlists@[i];
        &&& r.len() == 0
        &&& if p.kind == PlaylistKind::User && old.capabilities@.contains(Capability::PlaylistTrackRemove) && index
            < p.tracks@.len() && p.tracks@[index as int].id@ == track_id@ {
            new == (AppState {
                playlist_track_removal_confirmation: Some(PlaylistTrackRemovalConfirmation {
                    playlist_id,
                    index,
                    track_id,
                    track_title: p.tracks@[index as int].title,
                    playlist_name: p.name,
                }),
                ..old
            })
        } else {
            new == old
        }
    }
}

pub fn request_playlist_track_removal_for(state: &mut AppState, playlist_id: PlaylistId, index: usize, track_id: TrackId) -> (r: Vec<Command>)
    ensures
        removal_requested(*old(state), *final(state), r@, playlist_id, index, track_id),
{
    let i = match playlist_position(state, &playlist_id) {
        None => return stale_action_target(state),
        Some(i) => i,
    };
    let p = &state.playlists[i];
    if p.kind != PlaylistKind::User || !state.capabilities.supports(Capability::PlaylistTrackRemove) || index
        >= p.tracks.len() || !p.tracks[index].id.same(&track_id) {
        return Vec::new();
    }
    let track_title = p.tracks[index].title.clone();
    let playlist_name = p.name.clone();
    state.playlist_track_removal_confirmation = Some(PlaylistTrackRemovalConfirmation {
        playlist_id,
        index,
        track_id,
        track_title,
        playlist_name,
    });
    Vec::new()
}

/// `new` and `r` are what asking to remove the selected playlist row gives.
pub open spec fn removal_asked(old: AppState, new: AppState, r: Seq<Command>) -> bool {
    match old.navigation.active {
        Route::PlaylistDetail { playlist_id } => {
            let i = first_with_id(old.playlists@, playlist_id@);
            let cs = old.content_selection;
            if i >= 0 && cs < old.playlists@[i].tracks@.len() {
                removal_requested(old, new, r, playlist_id, cs, old.playlists@[i].tracks@[cs as int].id)
            } else {
                r.len() == 0 && new == old
            }
        },
        _ => r.len() == 0 && new == old,
    }
}

/// Asks to remove the selected track of the open playlist.
pub fn request_playlist_track_removal(state: &mut AppState) -> (r: Vec<Command>)
    ensures
        removal_asked(*old(state), *final(state), r@),
{
    let playlist_id = match &state.navigation.active {
        Route::PlaylistDetail { playlist_id } => playlist_id.duplicate(),
        _ => return Vec::new(),
    };
    let i = match playlist_position(state, &playlist_id) {
        None => return Vec::new(),
        Some(i) => i,
    };
    let cs = state.content_selection;
    if cs >= state.playlists[i].tracks.len() {
        return Vec::new();
    }
    let track_id = state.playlists[i].tracks[cs].id.duplicate();
    request_playlist_track_removal_for(state, playlist_id, cs, track_id)
}

/// `new` is `old` after jumping to the playing row of the open playlist.
pub open spec fn jumped_to_playing(old: AppState, new: AppState) -> bool {
    match (old.navigation.active, old.playback.context) {
        (
            Route::PlaylistDetail { playlist_id },
            crate::domain::PlaybackContext::Playlist { playlist_id: playing, current_source_index, .. },
        ) => {
            let i = first_with_id(old.playlists@, playlist_id@);
            if playing@ == playlist_id@ && i >= 0 && current_source_index < old.playlists@[i].tracks@.len() {
                new == (AppState { content_selection: current_source_index, ..old })
            } else {
                new == old
            }
        },
        _ => new == old,
    }
}

/// Selects the row of the open playlist that the playback session is playing, when the
/// session plays this playlist and the row is loaded; nothing else changes.
pub fn jump_to_playing_playlist_track(state: &mut AppState)
    ensures
        jumped_to_playing(*old(state), *final(state)),
{
    let index = match (&state.navigation.active, &state.playback.context) {
        (
            Route::PlaylistDetail { playlist_id },
            crate::domain::PlaybackContext::Playlist { playlist_id: playing, current_source_index, .. },
        ) => {
            if !playing.same(playlist_id) {
                return;
            }
            match playlist_by_id(state, playlist_id) {
                Some(p) => if *current_source_index < p.tracks.len() {
                    *current_source_index
                } else {
                    return;
                },
                None => return,
            }
        },
        _ => return,
    };
    state.content_selection = index;
}

/// The identities of a list of tracks, in order.
pub open spec fn ids_of(tracks: Seq<Track>) -> Seq<TrackId> {
    tracks.map_values(|t: Track| t.id)
}

/// The identities of a list of tracks, in order.
pub fn track_ids(tracks: &Vec<Track>) -> (r: Vec<TrackId>)
    ensures
        r@ == ids_of(tracks@),
{
    let mut ids: Vec<TrackId> = Vec::new();
    let mut i: usize = 0;
    while i < tracks.len()
        invariant
            i <= tracks@.len(),
            ids@ == ids_of(tracks@.take(i as int)),
        decreases tracks.len() - i,
    {
        ids.push(tracks[i].id.duplicate());
        assert(ids_of(tracks@.take(i + 1)) =~= ids_of(tracks@.take(i as int)).push(tracks@[i as int].id));
        i = i + 1;
    }
    assert(tracks@.take(tracks@.len() as int) =~= tracks@);
    ids
}

/// The album with identity `id` among `albums`, or else among `recent`.
pub open spec fn album_named(albums: Seq<Album>, recent: Seq<Album>, id: Seq<char>) -> Option<Album> {
    let a = first_album(albums, id);
    let b = first_album(recent, id);
    if a >= 0 {
        Some(albums[a])
    } else if b >= 0 {
        Some(recent[b])
    } else {
        None
    }
}

/// `new` and `r` are what opening the first album holding a track gives.
pub open spec fn album_of_track_opened(old: AppState, new: AppState, r: Seq<Command>, track_id: TrackId) -> bool {
    let a = first_album_with_track(old.albums@, track_id@);
    if a >= 0 {
        let album_id = old.albums@[a].id;
        exists|mid: AppState|
            #![trigger detail_opened(old, mid, Route::AlbumDetail { album_id })]
            detail_opened(old, mid, Route::AlbumDetail { album_id }) && album_artwork_requested(mid, new, r, album_id)
    } else {
        r.len() == 0 && noticed(old, new, stale_notice())
    }
}

/// `new` and `r` are what opening the first artist with a track among its top tracks gives.
pub open spec fn artist_of_track_opened(old: AppState, new: AppState, r: Seq<Command>, track_id: TrackId) -> bool {
    let a = first_artist_with_track(old.artists@, track_id@);
    if a >= 0 {
        r.len() == 0 && detail_opened(old, new, Route::ArtistDetail { artist_id: old.artists@[a].id })
    } else {
        r.len() == 0 && noticed(old, new, stale_notice())
    }
}

fn open_album_of_track(state: &mut AppState, track_id: TrackId) -> (r: Vec<Command>)
    requires
        old(state).caches_wf(),
    ensures
        final(state).caches_wf(),
        album_of_track_opened(*old(state), *final(state), r@, track_id),
{
    let ghost s0 = *state;
    let a = match album_with_track(&state.albums, &track_id) {
        None => return stale_action_target(state),
        Some(a) => a,
    };
    let album_id = state.albums[a].id.duplicate();
    open_detail(state, Route::AlbumDetail { album_id: album_id.duplicate() });
    let ghost mid = *state;
    let r = request_album_artwork(state, album_id);
    assert(detail_opened(s0, mid, Route::AlbumDetail { album_id }));
    r
}

fn open_artist_of_track(state: &mut AppState, track_id: TrackId) -> (r: Vec<Command>)
    ensures
        artist_of_track_opened(*old(state), *final(state), r@, track_id),
{
    let a = match artist_with_track(&state.artists, &track_id) {
        None => return stale_action_target(state),
        Some(a) => a,
    };
    let artist_id = state.artists[a].id.duplicate();
    open_detail(state, Route::ArtistDetail { artist_id });
    Vec::new()
}

/// `new` and `r` are what carrying out `action` on `target` gives, as the comments on
/// each case say.
pub open spec fn executed(old: AppState, new: AppState, r: Seq<Command>, target: ContextTarget, action: ContextAction) -> bool {
    let stale = r.len() == 0 && noticed(old, new, stale_notice());
    match (target, action) {
        // Play a library track.
        (ContextTarget::Track(track_id), ContextAction::PlayTrack) => if holds_track(old.library@, track_id@) {
            gated(old, new, r, Capability::SelectionPlayback, BackendCommand::PlayTrack(track_id))
        } else {
            stale
        },
        // Play a playlist row in the playlist's order, if the row still holds the track.
        (ContextTarget::PlaylistTrack { playlist_id, track_id, index }, ContextAction::PlayTrack) => {
            let i = first_with_id(old.playlists@, playlist_id@);
            if i >= 0 && index < old.playlists@[i].tracks@.len() && old.playlists@[i].tracks@[index as int].id@ == track_id@ {
                let p = old.playlists@[i];
                gated_by(
                    old,
                    new,
                    r,
                    Capability::SelectionPlayback,
                    |c: BackendCommand|
                        c == BackendCommand::PlayPlaylistTrack {
                            playlist_id,
                            ordered_track_ids: c->ordered_track_ids,
                            selected_index: index,
                            complete: p.contents_state.spec_is_complete(),
                        } && c->ordered_track_ids@ == ids_of(p.tracks@),
                )
            } else {
                stale
            }
        },
        // Ask to remove a playlist row.
        (ContextTarget::PlaylistTrack { playlist_id, track_id, index }, ContextAction::RemoveFromPlaylist) => removal_requested(
            old,
            new,
            r,
            playlist_id,
            index,
            track_id,
        ),
        // Open the first album holding the track.
        (ContextTarget::Track(track_id), ContextAction::OpenAlbum) => album_of_track_opened(old, new, r, track_id),
        (ContextTarget::PlaylistTrack { track_id, .. }, ContextAction::OpenAlbum) => album_of_track_opened(old, new, r, track_id),
        // Open the first artist among whose top tracks the track is.
        (ContextTarget::Track(track_id), ContextAction::OpenArtist) => artist_of_track_opened(old, new, r, track_id),
        (ContextTarget::PlaylistTrack { track_id, .. }, ContextAction::OpenArtist) => artist_of_track_opened(old, new, r, track_id),
        // Open an album listed in the library or among the recent additions.
        (ContextTarget::Album(album_id), ContextAction::OpenAlbum) => if album_named(
            old.albums@,
            old.recently_added@,
            album_id@,
        ) is Some {
            exists|mid: AppState|
                #![trigger detail_opened(old, mid, Route::AlbumDetail { album_id })]
                detail_opened(old, mid, Route::AlbumDetail { album_id }) && album_artwork_requested(mid, new, r, album_id)
        } else {
            stale
        },
        // Play such an album's tracks in order.
        (ContextTarget::Album(album_id), ContextAction::PlayAlbum) => match album_named(
            old.albums@,
            old.recently_added@,
            album_id@,
        ) {
            Some(album) => gated_by(
                old,
                new,
                r,
                Capability::AlbumPlayback,
                |c: BackendCommand|
                    c == BackendCommand::PlayAlbum { album_id, track_ids: c->track_ids } && c->track_ids@ == ids_of(album.tracks@),
            ),
            None => stale,
        },
        // Open a listed artist.
        (ContextTarget::Artist(artist_id), ContextAction::OpenArtist) => if first_artist(old.artists@, artist_id@) >= 0 {
            r.len() == 0 && detail_opened(old, new, Route::ArtistDetail { artist_id })
        } else {
            stale
        },
        // Open a listed playlist, loading its contents when they are needed and readable.
        (ContextTarget::Playlist(playlist_id), ContextAction::OpenPlaylist) => {
            let i = first_with_id(old.playlists@, playlist_id@);
            if i >= 0 {
                playlist_opened(
                    old,
                    new,
                    r,
                    playlist_id,
                    old.playlists@[i].contents_state.spec_should_request_load() && old.capabilities@.contains(
                        Capability::PlaylistRead,
                    ),
                )
            } else {
                stale
            }
        },
        // Play a listed playlist.
        (ContextTarget::Playlist(playlist_id), ContextAction::PlayPlaylist) => if first_with_id(
            old.playlists@,
            playlist_id@,
        ) >= 0 {
            gated(old, new, r, Capability::SelectionPlayback, BackendCommand::PlayPlaylist(playlist_id))
        } else {
            stale
        },
        // Expand or collapse a listed folder.
        (ContextTarget::Folder(playlist_id), ContextAction::ExpandFolder) | (
            ContextTarget::Folder(playlist_id),
            ContextAction::CollapseFolder,
        ) => {
            let i = first_with_id(old.playlists@, playlist_id@);
            if i >= 0 && old.playlists@[i].kind == PlaylistKind::Folder {
                r.len() == 0 && folder_toggled(old, new, playlist_id@)
            } else {
                stale
            }
        },
        _ => stale,
    }
}

/// Carries out an action of the menu on its target, re-checking that the target still
/// exists.
pub fn execute_context_action(state: &mut AppState, target: ContextTarget, action: ContextAction) -> (r: Vec<Command>)
    requires
        old(state).caches_wf(),
    ensures
        final(state).caches_wf(),
        executed(*old(state), *final(state), r@, target, action),
{
    let ghost s0 = *state;
    let ghost t0 = target;
    match (target, action) {
        (ContextTarget::Track(track_id), ContextAction::PlayTrack) => {
            if tracks_hold(&state.library, &track_id) {
                backend_command(state, Capability::SelectionPlayback, BackendCommand::PlayTrack(track_id))
            } else {
                stale_action_target(state)
            }
        },
        (ContextTarget::PlaylistTrack { playlist_id, track_id, index }, ContextAction::PlayTrack) => {
            let i = match playlist_position(state, &playlist_id) {
                None => return stale_action_target(state),
                Some(i) => i,
            };
            if index >= state.playlists[i].tracks.len() || !state.playlists[i].tracks[index].id.same(&track_id) {
                return stale_action_target(state);
            }
            let ordered_track_ids = track_ids(&state.playlists[i].tracks);
            let complete = state.playlists[i].contents_state.is_complete();
            let ghost p = s0.playlists@[i as int];
            let command = BackendCommand::PlayPlaylistTrack { playlist_id, ordered_track_ids, selected_index: index, complete };
            let ghost gc = command;
            let r = backend_command(state, Capability::SelectionPlayback, command);
            proof {
                let ok = |c: BackendCommand|
                    c == BackendCommand::PlayPlaylistTrack {
                        playlist_id: t0->PlaylistTrack_playlist_id,
                        ordered_track_ids: c->ordered_track_ids,
                        selected_index: index,
                        complete: p.contents_state.spec_is_complete(),
                    } && c->ordered_track_ids@ == ids_of(p.tracks@);
                assert(ok(gc));
                crate::commands::lemma_gated_by(s0, *state, r@, Capability::SelectionPlayback, gc, ok);
            }
            assert(executed(s0, *state, r@, t0, action));
            r
        },
        (ContextTarget::PlaylistTrack { playlist_id, track_id, index }, ContextAction::RemoveFromPlaylist) => {
            request_playlist_track_removal_for(state, playlist_id, index, track_id)
        },
        (ContextTarget::Track(track_id), ContextAction::OpenAlbum) => open_album_of_track(state, track_id),
        (ContextTarget::PlaylistTrack { track_id, .. }, ContextAction::OpenAlbum) => open_album_of_track(state, track_id),
        (ContextTarget::Track(track_id), ContextAction::OpenArtist) => open_artist_of_track(state, track_id),
        (ContextTarget::PlaylistTrack { track_id, .. }, ContextAction::OpenArtist) => open_artist_of_track(state, track_id),
        (ContextTarget::Album(album_id), ContextAction::OpenAlbum) => {
            if find_album(&state.albums, &album_id).is_some() || find_album(&state.recently_added, &album_id).is_some() {
                open_detail(state, Route::AlbumDetail { album_id: album_id.duplicate() });
                let ghost mid = *state;
                let r = request_album_artwork(state, album_id);
                assert(detail_opened(s0, mid, Route::AlbumDetail { album_id }));
                assert(executed(s0, *state, r@, t0, action));
                r
            } else {
                stale_action_target(state)
            }
        },
        (ContextTarget::Album(album_id), ContextAction::PlayAlbum) => {
            let ids = match find_album(&state.albums, &album_id) {
                Some(a) => track_ids(&state.albums[a].tracks),
                None => match find_album(&state.recently_added, &album_id) {
                    Some(b) => track_ids(&state.recently_added[b].tracks),
                    None => return stale_action_target(state),
                },
            };
            let ghost album = album_named(s0.albums@, s0.recently_added@, album_id@).unwrap();
            let command = BackendCommand::PlayAlbum { album_id, track_ids: ids };
            let ghost gc = command;
            let r = backend_command(state, Capability::AlbumPlayback, command);
            proof {
                let ok = |c: BackendCommand|
                    c == BackendCommand::PlayAlbum { album_id: t0->Album_0, track_ids: c->track_ids } && c->track_ids@ == ids_of(album.tracks@);
                assert(ok(gc));
                crate::commands::lemma_gated_by(s0, *state, r@, Capability::AlbumPlayback, gc, ok);
            }
            assert(executed(s0, *state, r@, t0, action));
            r
        },
        (ContextTarget::Artist(artist_id), ContextAction::OpenArtist) => {
            if find_artist(&state.artists, &artist_id).is_some() {
                open_detail(state, Route::ArtistDetail { artist_id });
                Vec::new()
            } else {
                stale_action_target(state)
            }
        },
        (ContextTarget::Playlist(playlist_id), ContextAction::OpenPlaylist) => {
            let i = match playlist_position(state, &playlist_id) {
                None => return stale_action_target(state),
                Some(i) => i,
            };
            let needs_load = state.playlists[i].contents_state.should_request_load() && state.capabilities.supports(
                Capability::PlaylistRead,
            );
            open_playlist_detail(state, playlist_id, needs_load)
        },
        (ContextTarget::Playlist(playlist_id), ContextAction::PlayPlaylist) => {
            if playlist_position(state, &playlist_id).is_some() {
                backend_command(state, Capability::SelectionPlayback, BackendCommand::PlayPlaylist(playlist_id))
            } else {
                stale_action_target(state)
            }
        },
        (ContextTarget::Folder(playlist_id), ContextAction::ExpandFolder) | (
            ContextTarget::Folder(playlist_id),
            ContextAction::CollapseFolder,
        ) => {
            let folder = match playlist_by_id(state, &playlist_id) {
                Some(p) => p.kind == PlaylistKind::Folder,
                None => false,
            };
            if folder {
                toggle_playlist_folder(state, playlist_id);
                Vec::new()
            } else {
                stale_action_target(state)
            }
        },
        _ => stale_action_target(state),
    }
}

/// `new` and `r` are what carrying out the selected menu action gives.
pub open spec fn menu_executed(old: AppState, new: AppState, r: Seq<Command>) -> bool {
    match old.action_menu {
        None => r.len() == 0 && new == old,
        Some(menu) => {
            let closed = AppState { action_menu: None, ..old };
            if menu.selection < menu.actions@.len() {
                executed(closed, new, r, menu.target, menu.actions@[menu.selection as int])
            } else {
                r.len() == 0 && new == closed
            }
        },
    }
}

/// Carries out the selected action of the open menu, closing it.
pub fn execute_selected_action_menu(state: &mut AppState) -> (r: Vec<Command>)
    requires
        old(state).caches_wf(),
    ensures
        final(state).caches_wf(),
        menu_executed(*old(state), *final(state), r@),
{
    let menu = match state.action_menu.take() {
        None => return Vec::new(),
        Some(menu) => menu,
    };
    if menu.selection >= menu.actions.len() {
        return Vec::new();
    }
    let action = menu.actions[menu.selection];
    execute_context_action(state, menu.target, action)
}

} // verus!
