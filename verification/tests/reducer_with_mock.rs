use apple_music_tui::action::{Action, Command};
use apple_music_tui::backend::{BackendCommand, BackendEvent};
use apple_music_tui::domain::{AlbumId, ArtistId, Playlist, PlaylistId, PlaylistKind, TrackId};
use apple_music_tui::mock::MockMusicBackend;
use apple_music_tui::playlists::PlaylistHierarchy;
use apple_music_tui::reducer::reduce;
use apple_music_tui::state::{AppState, ContextAction, ContextTarget, LocalSearchResult, Route, Screen};

fn loaded_mock_state() -> AppState {
    let backend = MockMusicBackend::new();
    let snapshot = backend.snapshot().expect("mock snapshot");
    let mut state = AppState::default();
    reduce(
        &mut state,
        Action::Backend(Box::new(BackendEvent::Ready {
            name: backend.name(),
            capabilities: backend.capabilities(),
            snapshot,
        })),
    );
    state
}

#[test]
fn artist_album_and_playlist_details_preserve_ids_and_back_history() {
    let cases = [
        (
            Screen::Artists,
            Route::ArtistDetail {
                artist_id: ArtistId::new("mock-artist-ferris"),
            },
        ),
        (
            Screen::Albums,
            Route::AlbumDetail {
                album_id: AlbumId::new("mock-album-event-loop"),
            },
        ),
        (
            Screen::Playlists,
            Route::PlaylistDetail {
                playlist_id: PlaylistId::new("mock-playlist-terminal-focus"),
            },
        ),
    ];

    for (screen, expected_detail) in cases {
        let mut state = loaded_mock_state();
        reduce(&mut state, Action::GoTo(screen));

        reduce(&mut state, Action::OpenSelected);

        assert_eq!(state.navigation.active, expected_detail);
        assert_eq!(state.navigation.history.len(), 1);
        assert_eq!(state.content_selection, 0);

        reduce(&mut state, Action::MoveDown);
        assert_eq!(state.content_selection, 1);
        reduce(&mut state, Action::Back);

        assert_eq!(state.navigation.active, Route::Section(screen));
        assert_eq!(state.content_selection, 0);
        assert!(state.navigation.history.is_empty());
    }
}

#[test]
fn selected_song_emits_play_track_command() {
    let mut state = loaded_mock_state();
    reduce(&mut state, Action::GoTo(Screen::Songs));
    reduce(&mut state, Action::MoveDown);

    let commands = reduce(&mut state, Action::OpenSelected);

    assert_eq!(
        commands,
        vec![Command::Backend(BackendCommand::PlayTrack(TrackId::new(
            "mock-002"
        )))]
    );
}

#[test]
fn action_menu_captures_song_identity_navigates_and_executes_existing_routes() {
    let mut state = loaded_mock_state();
    reduce(&mut state, Action::GoTo(Screen::Songs));
    reduce(&mut state, Action::MoveDown);
    let original_selection = state.content_selection;

    reduce(&mut state, Action::OpenActions);
    let menu = state.action_menu.as_ref().expect("song action menu");
    assert_eq!(menu.target, ContextTarget::Track(TrackId::new("mock-002")));
    assert_eq!(
        menu.actions,
        vec![
            ContextAction::PlayTrack,
            ContextAction::OpenAlbum,
            ContextAction::OpenArtist
        ]
    );

    reduce(&mut state, Action::MoveDown);
    reduce(&mut state, Action::MoveDown);
    assert_eq!(state.action_menu.as_ref().expect("menu").selection, 2);
    reduce(&mut state, Action::MoveUp);
    assert_eq!(state.action_menu.as_ref().expect("menu").selection, 1);
    assert_eq!(state.content_selection, original_selection);

    assert!(reduce(&mut state, Action::OpenSelected).is_empty());
    assert!(state.action_menu.is_none());
    assert_eq!(
        state.navigation.active,
        Route::AlbumDetail {
            album_id: AlbumId::new("mock-album-safe-transitions")
        }
    );
    assert_eq!(state.content_selection, 0);
}

#[test]
fn action_menu_supports_every_selection_type_with_stable_ids() {
    let mut state = loaded_mock_state();

    reduce(&mut state, Action::GoTo(Screen::Albums));
    reduce(&mut state, Action::OpenActions);
    assert_eq!(
        state.action_menu.as_ref().expect("album menu").actions,
        vec![ContextAction::OpenAlbum, ContextAction::PlayAlbum]
    );

    reduce(&mut state, Action::Back);
    reduce(&mut state, Action::GoTo(Screen::Artists));
    reduce(&mut state, Action::OpenActions);
    assert_eq!(
        state.action_menu.as_ref().expect("artist menu").actions,
        vec![ContextAction::OpenArtist]
    );

    reduce(&mut state, Action::Back);
    reduce(&mut state, Action::GoTo(Screen::Playlists));
    reduce(&mut state, Action::OpenActions);
    let playlist_id = match &state.action_menu.as_ref().expect("playlist menu").target {
        ContextTarget::Playlist(id) => id.clone(),
        target => panic!("unexpected target: {target:?}"),
    };
    assert_eq!(
        state.action_menu.as_ref().expect("playlist menu").actions,
        vec![ContextAction::OpenPlaylist, ContextAction::PlayPlaylist]
    );
    reduce(&mut state, Action::MoveDown);
    assert_eq!(
        reduce(&mut state, Action::OpenSelected),
        vec![Command::Backend(BackendCommand::PlayPlaylist(playlist_id))]
    );

    let folder_id = PlaylistId::new("folder");
    let mut folder = Playlist::unloaded(
        folder_id.as_str(),
        "Folder",
        None,
        PlaylistKind::Folder,
        None,
    );
    folder.track_count = 0;
    state.playlists.insert(0, folder);
    state.playlist_hierarchy = PlaylistHierarchy::from_playlists(&state.playlists);
    state.content_selection = 0;
    reduce(&mut state, Action::OpenActions);
    assert_eq!(
        state.action_menu.as_ref().expect("folder menu").actions,
        vec![ContextAction::ExpandFolder]
    );
    reduce(&mut state, Action::OpenSelected);
    assert!(state.expanded_playlist_folders.contains(&folder_id));
    reduce(&mut state, Action::OpenActions);
    assert_eq!(
        state
            .action_menu
            .as_ref()
            .expect("expanded folder menu")
            .actions,
        vec![ContextAction::CollapseFolder]
    );
}

#[test]
fn action_menu_routes_search_and_playlist_detail_without_index_reuse() {
    let mut state = loaded_mock_state();
    let track_id = state.library[0].id.clone();
    let album_id = state.albums[0].id.clone();
    let artist_id = state.artists[0].id.clone();
    let playlist_id = state.playlists[0].id.clone();
    reduce(&mut state, Action::GoTo(Screen::Search));
    state.search_input_active = false;

    for (result, expected) in [
        (
            LocalSearchResult::Track(track_id.clone()),
            ContextTarget::Track(track_id.clone()),
        ),
        (
            LocalSearchResult::Album(album_id.clone()),
            ContextTarget::Album(album_id.clone()),
        ),
        (
            LocalSearchResult::Artist(artist_id.clone()),
            ContextTarget::Artist(artist_id.clone()),
        ),
        (
            LocalSearchResult::Playlist(playlist_id.clone()),
            ContextTarget::Playlist(playlist_id.clone()),
        ),
    ] {
        state.search_results = vec![result];
        state.content_selection = 0;
        reduce(&mut state, Action::OpenActions);
        assert_eq!(
            state.action_menu.as_ref().expect("search menu").target,
            expected
        );
        reduce(&mut state, Action::Back);
    }

    state.navigation.active = Route::PlaylistDetail {
        playlist_id: playlist_id.clone(),
    };
    state.content_selection = 1;
    reduce(&mut state, Action::OpenActions);
    let menu = state.action_menu.as_ref().expect("playlist track menu");
    assert!(matches!(
        menu.target,
        ContextTarget::PlaylistTrack {
            ref playlist_id,
            ref track_id,
            ..
        } if *playlist_id == state.playlists[0].id && *track_id == state.playlists[0].tracks[1].id
    ));
    assert_eq!(menu.actions.first(), Some(&ContextAction::PlayTrack));

    state.playlists[0].tracks.clear();
    let commands = reduce(&mut state, Action::OpenSelected);
    assert!(commands.is_empty());
    assert!(state.action_menu.is_none());
    assert_eq!(
        state.notification.as_deref(),
        Some("Selected item is no longer available")
    );
}

#[test]
fn action_menu_quit_and_back_close_without_quitting_or_moving_selection() {
    let mut state = loaded_mock_state();
    reduce(&mut state, Action::GoTo(Screen::Songs));
    reduce(&mut state, Action::MoveDown);
    let selection = state.content_selection;
    reduce(&mut state, Action::OpenActions);
    reduce(
        &mut state,
        Action::Resize {
            width: 54,
            height: 12,
        },
    );
    assert_eq!(state.terminal_size, (54, 12));
    assert!(state.action_menu.is_some());
    reduce(&mut state, Action::Quit);
    assert!(state.action_menu.is_none());
    assert!(!state.should_quit);
    assert_eq!(state.content_selection, selection);

    reduce(&mut state, Action::OpenActions);
    reduce(&mut state, Action::Back);
    assert!(state.action_menu.is_none());
    assert!(!state.should_quit);
    assert_eq!(state.content_selection, selection);
}

#[test]
fn play_selected_album_preserves_derived_track_order() {
    let mut state = loaded_mock_state();
    reduce(&mut state, Action::GoTo(Screen::Albums));

    assert_eq!(
        reduce(&mut state, Action::PlaySelectedCollection),
        vec![Command::Backend(BackendCommand::PlayAlbum {
            album_id: AlbumId::new("mock-album-event-loop"),
            track_ids: vec![TrackId::new("mock-001"), TrackId::new("mock-003")],
        })]
    );
}
