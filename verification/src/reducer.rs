//! The reducer: how the application state answers each input, and the commands it asks for.
//!
//! An open removal confirmation, sort menu, filter editor, action menu or help overlay
//! captures input in that order; backend events and artwork completions always reach the
//! main handling.
use vstd::prelude::*;

use crate::action::{single, Action, Command};
use crate::artwork::{key_view, ArtworkKey};
use crate::artwork_cache::{
    apply_artwork_conversion, artwork_key_is_current, conversion_applied, request_track_artwork,
    spec_artwork_key_is_current, track_artwork_requested,
};
use crate::backend::{BackendCommand, BackendEvent};
use crate::capabilities::Capability;
use crate::commands::{backend_command, gated, unsupported_notice};
use crate::context_menu::{
    execute_selected_action_menu, jump_to_playing_playlist_track, jumped_to_playing, menu_executed,
    menu_moved, menu_opened, move_action_menu_selection, open_action_menu, removal_asked,
    request_playlist_track_removal,
};
use crate::domain::{PlaybackSnapshot, TrackId};
use crate::events::{apply_backend_event, event_applied};
use crate::menus::{
    cancel_collection_filter, choose_sort_field, clear_current_collection_filter, commit_collection_filter,
    direction_toggled, draft_edited, filter_cancelled, filter_cleared, filter_committed, filter_started,
    menu_direction_toggled, move_sort_menu_selection, open_collection_sort, sort_chosen, sort_moved,
    sort_opened, start_collection_filter, toggle_collection_sort_direction,
    toggle_current_collection_sort_direction, update_collection_filter_draft, DraftEdit,
};
use crate::navigation::{
    detail_opened, jump_selection, jumped, move_selection, moved, navigate_back, navigate_to_section,
    open_detail, page_selection, paged, section_entered, spec_artwork_key_for_track, went_back,
};
use crate::search::{refresh_search, searched};
use crate::selection::{activated, collection_played, open_selected, play_selected_collection};
use crate::state::{AppState, ArtworkCacheEntry, Focus, Route, Screen, QUEUE_PANE_MIN_WIDTH};
use crate::text::{pop_char, push_char};

verus! {

/// Inputs that always reach the main handling, whatever overlay is open.
pub open spec fn passes_overlays(action: Action) -> bool {
    action is Backend || action is ArtworkConversionCompleted || action is RetryArtwork
}

/// `new` is `old` with only the terminal size changed.
pub open spec fn resized(old: AppState, new: AppState, width: u16, height: u16) -> bool {
    new == (AppState { terminal_size: (width, height), ..old })
}

/// What an input does while a playlist removal awaits confirmation.
pub open spec fn confirmation_reduced(old: AppState, new: AppState, r: Seq<Command>, action: Action) -> bool {
    match action {
        Action::Quit | Action::Back => r.len() == 0 && new == (AppState { playlist_track_removal_confirmation: None, ..old }),
        Action::OpenSelected | Action::ConfirmPlaylistTrackRemoval | Action::RequestPlaylistTrackRemoval => {
            let c = old.playlist_track_removal_confirmation.unwrap();
            gated(
                AppState { playlist_track_removal_confirmation: None, playlist_track_removal_in_flight: true, ..old },
                new,
                r,
                Capability::PlaylistTrackRemove,
                BackendCommand::RemovePlaylistTrack { playlist_id: c.playlist_id, index: c.index, expected_track_id: c.track_id },
            )
        },
        Action::Resize { width, height } => r.len() == 0 && resized(old, new, width, height),
        _ => r.len() == 0 && new == old,
    }
}

/// What an input does while the sort menu is open.
pub open spec fn sort_menu_reduced(old: AppState, new: AppState, r: Seq<Command>, action: Action) -> bool {
    &&& r.len() == 0
    &&& match action {
        Action::Quit | Action::Back | Action::OpenCollectionSort => new == (AppState { sort_menu: None, ..old }),
        Action::MoveUp | Action::PageUp => sort_moved(old, new, false),
        Action::MoveDown | Action::PageDown => sort_moved(old, new, true),
        Action::OpenSelected => sort_chosen(old, new),
        Action::ToggleCollectionSortDirection | Action::PlayPause => menu_direction_toggled(old, new),
        Action::Resize { width, height } => resized(old, new, width, height),
        _ => new == old,
    }
}

/// What an input does while the filter editor is open.
pub open spec fn filter_editor_reduced(old: AppState, new: AppState, r: Seq<Command>, action: Action) -> bool {
    &&& r.len() == 0
    &&& match action {
        Action::Quit => new == (AppState { should_quit: true, stop_playback_on_exit: true, ..old }),
        Action::Back => filter_cancelled(old, new),
        Action::CollectionFilterInput(c) => draft_edited(old, new, DraftEdit::Push(c)),
        Action::CollectionFilterBackspace => draft_edited(old, new, DraftEdit::Pop),
        Action::ClearCollectionFilter => draft_edited(old, new, DraftEdit::Clear),
        Action::SubmitCollectionFilter => filter_committed(old, new),
        Action::Resize { width, height } => resized(old, new, width, height),
        _ => new == old,
    }
}

/// What an input does while the action menu is open.
pub open spec fn action_menu_reduced(old: AppState, new: AppState, r: Seq<Command>, action: Action) -> bool {
    match action {
        Action::Quit | Action::Back | Action::OpenActions => r.len() == 0 && new == (AppState { action_menu: None, ..old }),
        Action::MoveUp | Action::PageUp => r.len() == 0 && menu_moved(old, new, false),
        Action::MoveDown | Action::PageDown => r.len() == 0 && menu_moved(old, new, true),
        Action::OpenSelected => menu_executed(old, new, r),
        Action::Resize { width, height } => r.len() == 0 && resized(old, new, width, height),
        _ => r.len() == 0 && new == old,
    }
}

/// What an input does while the help overlay is open.
pub open spec fn help_reduced(old: AppState, new: AppState, r: Seq<Command>, action: Action) -> bool {
    &&& r.len() == 0
    &&& match action {
        Action::Quit | Action::ToggleHelp | Action::Back => new == (AppState { help_open: false, help_scroll: 0, ..old }),
        Action::MoveUp | Action::PageUp => new == (AppState {
            help_scroll: if old.help_scroll > 0 {
                (old.help_scroll - 1) as usize
            } else {
                0
            },
            ..old
        }),
        Action::MoveDown | Action::PageDown => new == (AppState {
            help_scroll: if old.help_scroll < usize::MAX {
                (old.help_scroll + 1) as usize
            } else {
                old.help_scroll
            },
            ..old
        }),
        Action::JumpToStart => new == (AppState { help_scroll: 0, ..old }),
        Action::Resize { width, height } => resized(old, new, width, height),
        _ => new == old,
    }
}

/// The identity of the playing track, if any.
pub open spec fn playing_id(p: PlaybackSnapshot) -> Option<Seq<char>> {
    match p.current_track {
        Some(t) => Some(t.id@),
        None => None,
    }
}

/// What the playback command for an input is, with the capability it needs.
pub open spec fn playback_command(old: AppState, action: Action) -> Option<(Capability, BackendCommand)> {
    match action {
        Action::OpenPlayer => Some((Capability::Launch, BackendCommand::OpenPlayer)),
        Action::Play => Some((Capability::Playback, BackendCommand::Play)),
        Action::Pause => Some((Capability::Playback, BackendCommand::Pause)),
        Action::PlayPause => Some((Capability::Playback, BackendCommand::PlayPause)),
        Action::NextTrack => Some((Capability::Playback, BackendCommand::Next)),
        Action::PreviousTrack => Some((Capability::Playback, BackendCommand::Previous)),
        Action::SeekBackward => Some((Capability::Seek, BackendCommand::SeekBy(-5i64))),
        Action::SeekForward => Some((Capability::Seek, BackendCommand::SeekBy(5i64))),
        Action::VolumeDown => Some((
            Capability::Volume,
            BackendCommand::SetVolume(
                if old.playback.volume >= 5 {
                    (old.playback.volume - 5) as u8
                } else {
                    0
                },
            ),
        )),
        Action::VolumeUp => Some((
            Capability::Volume,
            BackendCommand::SetVolume(
                if old.playback.volume + 5 <= 100 {
                    (old.playback.volume + 5) as u8
                } else {
                    100
                },
            ),
        )),
        Action::ToggleMute => Some((Capability::Mute, BackendCommand::ToggleMute)),
        Action::ToggleShuffle => Some((Capability::Shuffle, BackendCommand::ToggleShuffle)),
        Action::CycleRepeat => Some((Capability::Repeat, BackendCommand::CycleRepeat)),
        Action::ToggleFavorite => Some((Capability::Favorite, BackendCommand::ToggleFavoriteCurrent)),
        _ => None,
    }
}

/// What an input does with no overlay open (or an input that passes every overlay).
pub open spec fn main_reduced(old: AppState, new: AppState, r: Seq<Command>, action: Action) -> bool {
    match playback_command(old, action) {
        Some((capability, command)) => gated(old, new, r, capability, command),
        None => other_reduced(old, new, r, action),
    }
}

/// Whether an input moves around the screens and lists.
pub open spec fn is_navigation(action: Action) -> bool {
    action is Quit || action is InputClosed || action is MoveUp || action is MoveDown || action is JumpToStart
        || action is JumpToEnd || action is PageUp || action is PageDown || action is FocusLeft || action is FocusRight
        || action is Back || action is Resize || action is GoTo || action is StartSearch || action is SearchInput
        || action is SearchBackspace || action is SubmitSearch || action is ToggleHelp
}

/// What an input that asks for no playback command does with no overlay open.
pub open spec fn other_reduced(old: AppState, new: AppState, r: Seq<Command>, action: Action) -> bool {
        match action {
            Action::Quit => r.len() == 0 && if old.navigation.active == Route::NowPlaying {
                went_back(old, new)
            } else {
                new == (AppState { should_quit: true, stop_playback_on_exit: true, ..old })
            },
            Action::InputClosed => r.len() == 0 && new == (AppState { should_quit: true, ..old }),
            Action::RequestPlaylistTrackRemoval => removal_asked(old, new, r),
            Action::OpenNowPlaying => exists|mid: AppState|
                #![trigger now_playing_opened(old, mid)]
                now_playing_opened(old, mid) && match mid.playback.current_track {
                    Some(t) => track_artwork_requested(mid, new, r, spec_artwork_key_for_track(mid, t.id), t.id),
                    None => r.len() == 0 && new == mid,
                },
            Action::RefreshLibrary => r == seq![Command::Backend(BackendCommand::RefreshLibrary)] && new == old,
            Action::MoveUp => r.len() == 0 && moved(old, new, false),
            Action::MoveDown => r.len() == 0 && moved(old, new, true),
            Action::JumpToStart => r.len() == 0 && jumped(old, new, false),
            Action::JumpToEnd => r.len() == 0 && jumped(old, new, true),
            Action::JumpToPlayingTrack => r.len() == 0 && jumped_to_playing(old, new),
            Action::PageUp => r.len() == 0 && paged(old, new, false),
            Action::PageDown => r.len() == 0 && paged(old, new, true),
            Action::FocusLeft => r.len() == 0 && if old.navigation.active is ArtistDetail || old.navigation.active is AlbumDetail
                || old.navigation.active is PlaylistDetail || old.navigation.active is NowPlaying {
                went_back(old, new)
            } else {
                new == (AppState {
                    focus: if old.focus == Focus::Queue {
                        Focus::Content
                    } else {
                        Focus::Sidebar
                    },
                    ..old
                })
            },
            Action::FocusRight => r.len() == 0 && new == (AppState {
                focus: match old.focus {
                    Focus::Sidebar => Focus::Content,
                    Focus::Content => if old.terminal_size.0 >= QUEUE_PANE_MIN_WIDTH && old.capabilities@.contains(
                        Capability::QueueRead,
                    ) {
                        Focus::Queue
                    } else {
                        Focus::Content
                    },
                    Focus::Queue => Focus::Queue,
                },
                ..old
            }),
            Action::OpenSelected => activated(old, new, r),
            Action::PlaySelectedCollection => collection_played(old, new, r),
            Action::StartSearch => r.len() == 0 && exists|mid: AppState|
                #![trigger section_entered(old, mid, Screen::Search)]
                section_entered(old, mid, Screen::Search) && new == (AppState { search_input_active: true, ..mid }),
            Action::SearchInput(c) => r.len() == 0 && exists|mid: AppState|
                #![trigger searched(mid, new)]
                mid.search_query@ == old.search_query@.push(c) && mid == (AppState { search_query: mid.search_query, ..old })
                    && searched(mid, new),
            Action::SearchBackspace => r.len() == 0 && exists|mid: AppState|
                #![trigger searched(mid, new)]
                mid.search_query@ == (if old.search_query@.len() > 0 {
                    old.search_query@.drop_last()
                } else {
                    old.search_query@
                }) && mid == (AppState { search_query: mid.search_query, ..old }) && searched(mid, new),
            Action::SubmitSearch => r.len() == 0 && new == (AppState { search_input_active: false, ..old }),
            Action::GoTo(screen) => r.len() == 0 && section_entered(old, new, screen),
            Action::ToggleHelp => r.len() == 0 && new == (AppState { help_open: true, help_scroll: 0, ..old }),
            Action::OpenActions => r.len() == 0 && menu_opened(old, new),
            Action::OpenCollectionSort => r.len() == 0 && sort_opened(old, new),
            Action::ToggleCollectionSortDirection => r.len() == 0 && direction_toggled(old, new),
            Action::StartCollectionFilter => r.len() == 0 && filter_started(old, new),
            Action::ClearCollectionFilter => r.len() == 0 && filter_cleared(old, new),
            Action::Back => r.len() == 0 && if old.search_input_active {
                new == (AppState { search_input_active: false, ..old })
            } else {
                went_back(old, new)
            },
            Action::Resize { width, height } => r.len() == 0 && new == (AppState {
                terminal_size: (width, height),
                focus: if (width < QUEUE_PANE_MIN_WIDTH || !old.capabilities@.contains(Capability::QueueRead)) && old.focus
                    == Focus::Queue {
                    Focus::Content
                } else {
                    old.focus
                },
                ..old
            }),
            Action::Backend(event) => exists|mid: AppState, commands: Seq<Command>|
                #![trigger event_applied(old, mid, commands, *event)]
                event_applied(old, mid, commands, *event) && if playing_id(old.playback) != playing_id(mid.playback)
                    && mid.playback.current_track is Some {
                    let id = mid.playback.current_track.unwrap().id;
                    track_artwork_requested(mid, new, r, spec_artwork_key_for_track(mid, id), id)
                } else {
                    r == commands && new == mid
                },
            Action::ArtworkConversionCompleted { key, source_fingerprint, result } => r.len() == 0 && conversion_applied(
                old,
                new,
                key,
                source_fingerprint,
                result,
            ),
            Action::RetryArtwork { key, track_id } => new == old && if spec_artwork_key_is_current(old, key)
                && old.artwork_cache.get_spec(key_view(key)) == Some(ArtworkCacheEntry::Loading) {
                r == seq![Command::Backend(BackendCommand::LoadTrackArtwork { key, track_id })]
            } else {
                r.len() == 0
            },
            _ => r.len() == 0 && new == old,
        }
}

/// `new` is `old` with Now Playing open (it is not reopened when already open).
pub open spec fn now_playing_opened(old: AppState, new: AppState) -> bool {
    if old.navigation.active == Route::NowPlaying {
        new == old
    } else {
        detail_opened(old, new, Route::NowPlaying)
    }
}

/// `new` and `r` are what an input gives: the first open overlay captures it unless it
/// passes every overlay.
pub open spec fn reduced(old: AppState, new: AppState, r: Seq<Command>, action: Action) -> bool {
    if passes_overlays(action) {
        main_reduced(old, new, r, action)
    } else if old.playlist_track_removal_confirmation is Some {
        confirmation_reduced(old, new, r, action)
    } else if old.sort_menu is Some {
        sort_menu_reduced(old, new, r, action)
    } else if old.filter_editor is Some {
        filter_editor_reduced(old, new, r, action)
    } else if old.action_menu is Some {
        action_menu_reduced(old, new, r, action)
    } else if old.help_open {
        help_reduced(old, new, r, action)
    } else {
        main_reduced(old, new, r, action)
    }
}

fn resize(state: &mut AppState, width: u16, height: u16) -> (r: Vec<Command>)
    ensures
        r@.len() == 0,
        resized(*old(state), *final(state), width, height),
{
    state.terminal_size = (width, height);
    Vec::new()
}

fn reduce_confirmation(state: &mut AppState, action: Action) -> (r: Vec<Command>)
    requires
        old(state).playlist_track_removal_confirmation is Some,
    ensures
        confirmation_reduced(*old(state), *final(state), r@, action),
{
    match action {
        Action::Quit | Action::Back => {
            state.playlist_track_removal_confirmation = None;
            Vec::new()
        },
        Action::OpenSelected | Action::ConfirmPlaylistTrackRemoval | Action::RequestPlaylistTrackRemoval => {
            let c = state.playlist_track_removal_confirmation.take().unwrap();
            state.playlist_track_removal_in_flight = true;
            backend_command(
                state,
                Capability::PlaylistTrackRemove,
                BackendCommand::RemovePlaylistTrack { playlist_id: c.playlist_id, index: c.index, expected_track_id: c.track_id },
            )
        },
        Action::Resize { width, height } => resize(state, width, height),
        _ => Vec::new(),
    }
}

fn reduce_sort_menu(state: &mut AppState, action: Action) -> (r: Vec<Command>)
    ensures
        sort_menu_reduced(*old(state), *final(state), r@, action),
{
    match action {
        Action::Quit | Action::Back | Action::OpenCollectionSort => {
            state.sort_menu = None;
        },
        Action::MoveUp | Action::PageUp => move_sort_menu_selection(state, false),
        Action::MoveDown | Action::PageDown => move_sort_menu_selection(state, true),
        Action::OpenSelected => choose_sort_field(state),
        Action::ToggleCollectionSortDirection | Action::PlayPause => toggle_collection_sort_direction(state),
        Action::Resize { width, height } => {
            resize(state, width, height);
        },
        _ => {},
    }
    Vec::new()
}

fn reduce_filter_editor(state: &mut AppState, action: Action) -> (r: Vec<Command>)
    ensures
        filter_editor_reduced(*old(state), *final(state), r@, action),
{
    match action {
        Action::Quit => {
            state.should_quit = true;
            state.stop_playback_on_exit = true;
        },
        Action::Back => cancel_collection_filter(state),
        Action::CollectionFilterInput(c) => update_collection_filter_draft(state, DraftEdit::Push(c)),
        Action::CollectionFilterBackspace => update_collection_filter_draft(state, DraftEdit::Pop),
        Action::ClearCollectionFilter => update_collection_filter_draft(state, DraftEdit::Clear),
        Action::SubmitCollectionFilter => commit_collection_filter(state),
        Action::Resize { width, height } => {
            resize(state, width, height);
        },
        _ => {},
    }
    Vec::new()
}

fn reduce_action_menu(state: &mut AppState, action: Action) -> (r: Vec<Command>)
    requires
        old(state).caches_wf(),
    ensures
        final(state).caches_wf(),
        action_menu_reduced(*old(state), *final(state), r@, action),
{
    match action {
        Action::Quit | Action::Back | Action::OpenActions => {
            state.action_menu = None;
            Vec::new()
        },
        Action::MoveUp | Action::PageUp => {
            move_action_menu_selection(state, false);
            Vec::new()
        },
        Action::MoveDown | Action::PageDown => {
            move_action_menu_selection(state, true);
            Vec::new()
        },
        Action::OpenSelected => execute_selected_action_menu(state),
        Action::Resize { width, height } => resize(state, width, height),
        _ => Vec::new(),
    }
}

fn reduce_help(state: &mut AppState, action: Action) -> (r: Vec<Command>)
    ensures
        help_reduced(*old(state), *final(state), r@, action),
{
    match action {
        Action::Quit | Action::ToggleHelp | Action::Back => {
            state.help_open = false;
            state.help_scroll = 0;
        },
        Action::MoveUp | Action::PageUp => {
            if state.help_scroll > 0 {
                state.help_scroll = state.help_scroll - 1;
            }
        },
        Action::MoveDown | Action::PageDown => {
            if state.help_scroll < usize::MAX {
                state.help_scroll = state.help_scroll + 1;
            }
        },
        Action::JumpToStart => {
            state.help_scroll = 0;
        },
        Action::Resize { width, height } => {
            resize(state, width, height);
        },
        _ => {},
    }
    Vec::new()
}

fn playing_track_id(p: &PlaybackSnapshot) -> (r: Option<TrackId>)
    ensures
        match r {
            Some(id) => p.current_track matches Some(t) && id == t.id,
            None => p.current_track is None,
        },
{
    match &p.current_track {
        Some(t) => Some(t.id.duplicate()),
        None => None,
    }
}

fn reduce_event(state: &mut AppState, event: BackendEvent) -> (r: Vec<Command>)
    requires
        old(state).caches_wf(),
    ensures
        final(state).caches_wf(),
        exists|mid: AppState, commands: Seq<Command>|
            #![trigger event_applied(*old(state), mid, commands, event)]
            event_applied(*old(state), mid, commands, event) && if playing_id(old(state).playback) != playing_id(mid.playback)
                && mid.playback.current_track is Some {
                let id = mid.playback.current_track.unwrap().id;
                track_artwork_requested(mid, *final(state), r@, spec_artwork_key_for_track(mid, id), id)
            } else {
                r@ == commands && *final(state) == mid
            },
{
    let ghost s0 = *state;
    let ghost ge = event;
    let previous = playing_track_id(&state.playback);
    let commands = apply_backend_event(state, event);
    let ghost mid = *state;
    let current = playing_track_id(&state.playback);
    let changed = match (&previous, &current) {
        (Some(a), Some(b)) => !a.same(b),
        (None, None) => false,
        _ => true,
    };
    assert(changed == (playing_id(s0.playback) != playing_id(mid.playback)));
    match current {
        Some(track_id) => {
            if changed {
                let key = state.artwork_key_for_track(&track_id);
                let r = request_track_artwork(state, key, track_id);
                assert(event_applied(s0, mid, commands@, ge));
                return r;
            }
        },
        None => {},
    }
    assert(event_applied(s0, mid, commands@, ge));
    commands
}

fn playback_command_of(state: &AppState, action: &Action) -> (r: Option<(Capability, BackendCommand)>)
    ensures
        r == playback_command(*state, *action),
{
    match action {
        Action::OpenPlayer => Some((Capability::Launch, BackendCommand::OpenPlayer)),
        Action::Play => Some((Capability::Playback, BackendCommand::Play)),
        Action::Pause => Some((Capability::Playback, BackendCommand::Pause)),
        Action::PlayPause => Some((Capability::Playback, BackendCommand::PlayPause)),
        Action::NextTrack => Some((Capability::Playback, BackendCommand::Next)),
        Action::PreviousTrack => Some((Capability::Playback, BackendCommand::Previous)),
        Action::SeekBackward => Some((Capability::Seek, BackendCommand::SeekBy(-5))),
        Action::SeekForward => Some((Capability::Seek, BackendCommand::SeekBy(5))),
        Action::VolumeDown => {
            let v = state.playback.volume;
            Some((Capability::Volume, BackendCommand::SetVolume(if v >= 5 {
                v - 5
            } else {
                0
            })))
        },
        Action::VolumeUp => {
            let v = state.playback.volume;
            Some((Capability::Volume, BackendCommand::SetVolume(if v <= 95 {
                v + 5
            } else {
                100
            })))
        },
        Action::ToggleMute => Some((Capability::Mute, BackendCommand::ToggleMute)),
        Action::ToggleShuffle => Some((Capability::Shuffle, BackendCommand::ToggleShuffle)),
        Action::CycleRepeat => Some((Capability::Repeat, BackendCommand::CycleRepeat)),
        Action::ToggleFavorite => Some((Capability::Favorite, BackendCommand::ToggleFavoriteCurrent)),
        _ => None,
    }
}

fn reduce_main(state: &mut AppState, action: Action) -> (r: Vec<Command>)
    requires
        old(state).caches_wf(),
    ensures
        final(state).caches_wf(),
        main_reduced(*old(state), *final(state), r@, action),
{
    match playback_command_of(state, &action) {
        Some((capability, command)) => backend_command(state, capability, command),
        None => {
            let navigation = match action {
                Action::Quit | Action::InputClosed | Action::MoveUp | Action::MoveDown | Action::JumpToStart
                | Action::JumpToEnd | Action::PageUp | Action::PageDown | Action::FocusLeft | Action::FocusRight
                | Action::Back | Action::Resize { .. } | Action::GoTo(_) | Action::StartSearch | Action::SearchInput(_)
                | Action::SearchBackspace | Action::SubmitSearch | Action::ToggleHelp => true,
                _ => false,
            };
            if navigation {
                reduce_navigation(state, action)
            } else {
                reduce_other(state, action)
            }
        },
    }
}

#[verifier::rlimit(60)]
#[verifier::spinoff_prover]
fn reduce_navigation(state: &mut AppState, action: Action) -> (r: Vec<Command>)
    requires
        old(state).caches_wf(),
        is_navigation(action),
    ensures
        final(state).caches_wf(),
        other_reduced(*old(state), *final(state), r@, action),
{
    let ghost s0 = *state;
    match action {
        Action::Quit => {
            let now_playing = match state.navigation.active {
                Route::NowPlaying => true,
                _ => false,
            };
            if now_playing {
                navigate_back(state);
            } else {
                state.should_quit = true;
                state.stop_playback_on_exit = true;
            }
            Vec::new()
        },
        Action::InputClosed => {
            state.should_quit = true;
            Vec::new()
        },
        Action::MoveUp => {
            move_selection(state, false);
            Vec::new()
        },
        Action::MoveDown => {
            move_selection(state, true);
            Vec::new()
        },
        Action::JumpToStart => {
            jump_selection(state, false);
            Vec::new()
        },
        Action::JumpToEnd => {
            jump_selection(state, true);
            Vec::new()
        },
        Action::PageUp => {
            page_selection(state, false);
            Vec::new()
        },
        Action::PageDown => {
            page_selection(state, true);
            Vec::new()
        },
        Action::FocusLeft => {
            let detail = match state.navigation.active {
                Route::ArtistDetail { .. } | Route::AlbumDetail { .. } | Route::PlaylistDetail { .. } | Route::NowPlaying => true,
                _ => false,
            };
            if detail {
                navigate_back(state);
            } else if state.focus == Focus::Queue {
                state.focus = Focus::Content;
            } else {
                state.focus = Focus::Sidebar;
            }
            Vec::new()
        },
        Action::FocusRight => {
            state.focus = match state.focus {
                Focus::Sidebar => Focus::Content,
                Focus::Content => if state.terminal_size.0 >= QUEUE_PANE_MIN_WIDTH && state.capabilities.supports(
                    Capability::QueueRead,
                ) {
                    Focus::Queue
                } else {
                    Focus::Content
                },
                Focus::Queue => Focus::Queue,
            };
            Vec::new()
        },
        Action::StartSearch => {
            navigate_to_section(state, Screen::Search);
            state.search_input_active = true;
            Vec::new()
        },
        Action::SearchInput(c) => {
            push_char(&mut state.search_query, c);
            let ghost mid = *state;
            refresh_search(state);
            assert(searched(mid, *state));
            Vec::new()
        },
        Action::SearchBackspace => {
            pop_char(&mut state.search_query);
            let ghost mid = *state;
            refresh_search(state);
            assert(searched(mid, *state));
            Vec::new()
        },
        Action::SubmitSearch => {
            state.search_input_active = false;
            Vec::new()
        },
        Action::GoTo(screen) => {
            navigate_to_section(state, screen);
            Vec::new()
        },
        Action::ToggleHelp => {
            state.help_open = true;
            state.help_scroll = 0;
            Vec::new()
        },
        Action::Back => {
            if state.search_input_active {
                state.search_input_active = false;
            } else {
                navigate_back(state);
            }
            Vec::new()
        },
        Action::Resize { width, height } => {
            state.terminal_size = (width, height);
            if (width < QUEUE_PANE_MIN_WIDTH || !state.capabilities.supports(Capability::QueueRead)) && state.focus
                == Focus::Queue {
                state.focus = Focus::Content;
            }
            Vec::new()
        },
        _ => Vec::new(),
    }
}

fn reduce_other(state: &mut AppState, action: Action) -> (r: Vec<Command>)
    requires
        old(state).caches_wf(),
        !is_navigation(action),
        playback_command(*old(state), action) is None,
    ensures
        final(state).caches_wf(),
        other_reduced(*old(state), *final(state), r@, action),
{
    let ghost s0 = *state;
    match action {
        Action::RequestPlaylistTrackRemoval => request_playlist_track_removal(state),
        Action::OpenNowPlaying => {
            let now_playing = match state.navigation.active {
                Route::NowPlaying => true,
                _ => false,
            };
            if !now_playing {
                open_detail(state, Route::NowPlaying);
            }
            let ghost mid = *state;
            assert(now_playing_opened(s0, mid));
            match playing_track_id(&state.playback) {
                Some(track_id) => {
                    let key = state.artwork_key_for_track(&track_id);
                    request_track_artwork(state, key, track_id)
                },
                None => Vec::new(),
            }
        },
        Action::RefreshLibrary => single(Command::Backend(BackendCommand::RefreshLibrary)),
        Action::JumpToPlayingTrack => {
            jump_to_playing_playlist_track(state);
            Vec::new()
        },
        Action::OpenSelected => open_selected(state),
        Action::PlaySelectedCollection => play_selected_collection(state),
        Action::OpenActions => {
            open_action_menu(state);
            Vec::new()
        },
        Action::OpenCollectionSort => {
            open_collection_sort(state);
            Vec::new()
        },
        Action::ToggleCollectionSortDirection => {
            toggle_current_collection_sort_direction(state);
            Vec::new()
        },
        Action::StartCollectionFilter => {
            start_collection_filter(state);
            Vec::new()
        },
        Action::ClearCollectionFilter => {
            clear_current_collection_filter(state);
            Vec::new()
        },
        Action::Backend(event) => reduce_event(state, *event),
        Action::ArtworkConversionCompleted { key, source_fingerprint, result } => {
            apply_artwork_conversion(state, key, source_fingerprint, result);
            Vec::new()
        },
        Action::RetryArtwork { key, track_id } => {
            let loading = match state.artwork_cache.get(&key) {
                Some(ArtworkCacheEntry::Loading) => true,
                _ => false,
            };
            if artwork_key_is_current(state, &key) && loading {
                single(Command::Backend(BackendCommand::LoadTrackArtwork { key, track_id }))
            } else {
                Vec::new()
            }
        },
        _ => Vec::new(),
    }
}

/// Answers an input: updates the application state and returns the commands to run.
pub fn reduce(state: &mut AppState, action: Action) -> (r: Vec<Command>)
    requires
        old(state).caches_wf(),
    ensures
        final(state).caches_wf(),
        reduced(*old(state), *final(state), r@, action),
{
    let passes = match action {
        Action::Backend(_) | Action::ArtworkConversionCompleted { .. } | Action::RetryArtwork { .. } => true,
        _ => false,
    };
    if passes {
        reduce_main(state, action)
    } else if state.playlist_track_removal_confirmation.is_some() {
        reduce_confirmation(state, action)
    } else if state.sort_menu.is_some() {
        reduce_sort_menu(state, action)
    } else if state.filter_editor.is_some() {
        reduce_filter_editor(state, action)
    } else if state.action_menu.is_some() {
        reduce_action_menu(state, action)
    } else if state.help_open {
        reduce_help(state, action)
    } else {
        reduce_main(state, action)
    }
}

/// With no overlay open, the previous-track input asks the backend for the previous track
/// and the next-track input for the next one, changing nothing else; a backend that cannot
/// control playback gets no command, and the user is told that playback is unsupported.
pub proof fn law_track_skip_inputs_ask_for_their_direction(old: AppState, new: AppState, r: Seq<Command>, action: Action)
    requires
        reduced(old, new, r, action),
        action is PreviousTrack || action is NextTrack,
        old.playlist_track_removal_confirmation is None,
        old.sort_menu is None,
        old.filter_editor is None,
        old.action_menu is None,
        !old.help_open,
    ensures
        old.capabilities@.contains(Capability::Playback) && action is PreviousTrack ==> r == seq![
            Command::Backend(BackendCommand::Previous),
        ] && new == old,
        old.capabilities@.contains(Capability::Playback) && action is NextTrack ==> r == seq![
            Command::Backend(BackendCommand::Next),
        ] && new == old,
        !old.capabilities@.contains(Capability::Playback) ==> r.len() == 0 && (new.notification matches Some(m)
            && m@ == unsupported_notice(Capability::Playback)),
{
}

} // verus!
