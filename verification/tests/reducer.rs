use apple_music_tui::domain::Duration;

use apple_music_tui::action::{Action, Command};
use apple_music_tui::artwork::{Artwork, ArtworkKey, ArtworkMediaType, ArtworkResult};
use apple_music_tui::artwork_cache::{insert_artwork_cache, insert_renderable_artwork_cache};
use apple_music_tui::backend::{BackendCommand, BackendEvent, BackendUpdate};
use apple_music_tui::capabilities::Capabilities;
use apple_music_tui::domain::{
    Album, AlbumId, Artist, ArtistId, BackendSnapshot, PlaybackContext, PlaybackSnapshot, PlaybackStatus,
    Playlist, PlaylistId, PlaylistKind, PlaylistLoadState, Track, TrackId,
};
use apple_music_tui::menus::rebuild_library_views;
use apple_music_tui::navigation::content_length;
use apple_music_tui::playlists::PlaylistHierarchy;
use apple_music_tui::reducer::reduce;
use apple_music_tui::search::{rebuild_search_index, refresh_search};
use apple_music_tui::state::{
    AppState, ArtworkCacheEntry, BackendStatus, CollectionKind, CollectionSort, ContextAction, ContextTarget,
    Focus, LocalSearchResult, RenderableArtworkCacheEntry, Route, Screen, ViewStatus,
};
use apple_music_tui::views::{rebuild_collection_view, selected_collection_identity};

#[test]
fn navigation_updates_sidebar_and_opens_screen() {
    let mut state = AppState::default();
    reduce(&mut state, Action::MoveDown);
    reduce(&mut state, Action::OpenSelected);

    assert_eq!(state.navigation.active, Route::Section(Screen::Browse));
    assert_eq!(state.focus, Focus::Content);
}

#[test]
fn compact_list_navigation_jumps_and_pages_without_losing_bounds() {
    let mut state = AppState {
        focus: Focus::Content,
        navigation: apple_music_tui::state::NavigationState {
            active: Route::Section(Screen::Songs),
            history: Vec::new(),
        },
        library: (0..40)
            .map(|index| {
                Track::new(
                    &format!("track-{index}"),
                    &format!("Track {index}"),
                    "Artist",
                    "Album",
                    Duration::from_secs(60),
                )
            })
            .collect(),
        terminal_size: (100, 24),
        ..AppState::default()
    };
    reduce(&mut state, Action::JumpToEnd);
    assert_eq!(state.content_selection, 39);
    reduce(&mut state, Action::PageUp);
    assert_eq!(state.content_selection, 27);
    reduce(&mut state, Action::JumpToStart);
    reduce(&mut state, Action::PageDown);
    assert_eq!(state.content_selection, 12);
}

#[test]
fn every_sidebar_item_activates_its_corresponding_screen() {
    for (index, expected_screen) in Screen::all().into_iter().enumerate() {
        let mut state = AppState {
            sidebar_selection: index,
            ..AppState::default()
        };

        reduce(&mut state, Action::OpenSelected);

        assert_eq!(
            state.navigation.active,
            Route::Section(expected_screen),
            "sidebar index {index} should open {}",
            expected_screen.label()
        );
        assert_eq!(state.sidebar_selection, index);
        assert_eq!(state.focus, Focus::Content);
        assert_eq!(state.content_selection, 0);
    }
}

#[test]
fn selected_playlist_opens_as_a_detail_route_and_back_restores_the_list() {
    let mut state = AppState {
        playlists: vec![
            playlist("playlist-one", "One"),
            playlist("playlist-two", "Two"),
        ],
        ..AppState::default()
    };
    state.sidebar_selection = Screen::all()
        .iter()
        .position(|screen| *screen == Screen::Playlists)
        .expect("Playlists is a sidebar screen");

    reduce(&mut state, Action::OpenSelected);
    assert_eq!(state.navigation.active, Route::Section(Screen::Playlists));

    reduce(&mut state, Action::MoveDown);
    reduce(&mut state, Action::OpenSelected);

    assert_eq!(
        state.navigation.active,
        Route::PlaylistDetail {
            playlist_id: PlaylistId::new("playlist-two")
        }
    );
    assert_eq!(state.navigation.history.len(), 1);
    assert_eq!(state.content_selection, 0);

    reduce(&mut state, Action::MoveDown);
    assert_eq!(state.content_selection, 1);
    reduce(&mut state, Action::Back);

    assert_eq!(state.navigation.active, Route::Section(Screen::Playlists));
    assert_eq!(state.content_selection, 1);
    assert!(state.navigation.history.is_empty());
}

#[test]
fn opening_unloaded_local_playlist_requests_lazy_contents() {
    let playlist_id = PlaylistId::new("musicapp:playlist:persistent:ABC");
    let mut state = AppState {
        navigation: apple_music_tui::state::NavigationState {
            active: Route::Section(Screen::Playlists),
            history: Vec::new(),
        },
        focus: Focus::Content,
        capabilities: Capabilities::macos(),
        playlists: vec![apple_music_tui::domain::Playlist::unloaded(
            playlist_id.as_str(),
            "Local Playlist",
            None,
            apple_music_tui::domain::PlaylistKind::User,
            None,
        )],
        ..AppState::default()
    };

    let commands = reduce(&mut state, Action::OpenSelected);

    assert_eq!(
        state.navigation.active,
        Route::PlaylistDetail {
            playlist_id: playlist_id.clone()
        }
    );
    assert_eq!(
        commands,
        vec![Command::Backend(BackendCommand::LoadPlaylist(playlist_id))]
    );
    assert_eq!(
        state.playlists[0].contents_state,
        PlaylistLoadState::Loading {
            loaded: 0,
            total: None,
        }
    );
}

#[test]
fn playlist_batches_render_partial_tracks_and_reentry_does_not_restart_loading() {
    let playlist_id = PlaylistId::new("musicapp:playlist:persistent:PARTIAL");
    let mut state = AppState {
        navigation: apple_music_tui::state::NavigationState {
            active: Route::Section(Screen::Playlists),
            history: Vec::new(),
        },
        focus: Focus::Content,
        capabilities: Capabilities::macos(),
        playlists: vec![Playlist::unloaded(
            playlist_id.as_str(),
            "Progressive Playlist",
            None,
            PlaylistKind::User,
            None,
        )],
        ..AppState::default()
    };

    assert_eq!(
        reduce(&mut state, Action::OpenSelected),
        vec![Command::Backend(BackendCommand::LoadPlaylist(
            playlist_id.clone()
        ))]
    );
    let first = Track::new("track-1", "One", "Artist", "Album", Duration::from_secs(60));
    reduce(
        &mut state,
        Action::Backend(Box::new(BackendEvent::Update(
            BackendUpdate::PlaylistBatch {
                availability: apple_music_tui::domain::BackendAvailability::Available,
                playback: PlaybackSnapshot::default(),
                playlist_id: playlist_id.clone(),
                tracks: vec![first.clone()],
                loaded: 1,
                total: 2,
                complete: false,
            },
        ))),
    );
    assert_eq!(state.playlists[0].tracks, vec![first]);
    assert_eq!(
        state.playlists[0].contents_state,
        PlaylistLoadState::PartiallyLoaded {
            loaded: 1,
            total: 2,
        }
    );

    reduce(&mut state, Action::Back);
    assert_eq!(state.navigation.active, Route::Section(Screen::Playlists));
    assert!(reduce(&mut state, Action::OpenSelected).is_empty());
    assert_eq!(
        state.playlists[0].contents_state,
        PlaylistLoadState::PartiallyLoaded {
            loaded: 1,
            total: 2,
        }
    );
}

#[test]
fn completed_empty_and_failed_playlist_loads_are_explicit_states() {
    let empty_id = PlaylistId::new("musicapp:playlist:persistent:EMPTY");
    let failed_id = PlaylistId::new("musicapp:playlist:persistent:FAILED");
    let mut state = AppState {
        playlists: vec![
            Playlist::unloaded(
                empty_id.as_str(),
                "Empty",
                None,
                PlaylistKind::User,
                None,
            ),
            Playlist::unloaded(
                failed_id.as_str(),
                "Failed",
                None,
                PlaylistKind::User,
                None,
            ),
        ],
        ..AppState::default()
    };
    reduce(
        &mut state,
        Action::Backend(Box::new(BackendEvent::Update(
            BackendUpdate::PlaylistBatch {
                availability: apple_music_tui::domain::BackendAvailability::Available,
                playback: PlaybackSnapshot::default(),
                playlist_id: empty_id,
                tracks: Vec::new(),
                loaded: 0,
                total: 0,
                complete: true,
            },
        ))),
    );
    reduce(
        &mut state,
        Action::Backend(Box::new(BackendEvent::Update(
            BackendUpdate::PlaylistLoadFailed {
                availability: apple_music_tui::domain::BackendAvailability::Available,
                playback: PlaybackSnapshot::default(),
                playlist_id: failed_id,
                message: "Automation timed out".to_owned(),
            },
        ))),
    );

    assert_eq!(state.playlists[0].contents_state, PlaylistLoadState::Empty);
    assert_eq!(
        state.playlists[1].contents_state,
        PlaylistLoadState::Error("Automation timed out".to_owned())
    );
    assert_eq!(
        state.notification.as_deref(),
        Some("Failed to load playlist: Automation timed out")
    );
}

#[test]
fn playlist_batches_preserve_music_app_order() {
    let playlist_id = PlaylistId::new("musicapp:playlist:persistent:ORDER");
    let mut state = AppState {
        playlists: vec![Playlist::unloaded(
            playlist_id.as_str(),
            "Ordered",
            None,
            PlaylistKind::User,
            None,
        )],
        ..AppState::default()
    };
    for (tracks, loaded, complete) in [
        (
            vec![
                Track::new("t1", "Same", "Artist", "Album", Duration::from_secs(1)),
                Track::new("t2", "Same", "Artist", "Album", Duration::from_secs(1)),
            ],
            2,
            false,
        ),
        (
            vec![Track::new(
                "t3",
                "Different",
                "Artist",
                "Album",
                Duration::from_secs(1),
            )],
            3,
            true,
        ),
    ] {
        reduce(
            &mut state,
            Action::Backend(Box::new(BackendEvent::Update(
                BackendUpdate::PlaylistBatch {
                    availability: apple_music_tui::domain::BackendAvailability::Available,
                    playback: PlaybackSnapshot::default(),
                    playlist_id: playlist_id.clone(),
                    tracks,
                    loaded,
                    total: 3,
                    complete,
                },
            ))),
        );
    }
    assert_eq!(
        state.playlists[0]
            .tracks
            .iter()
            .map(|track| track.id.clone())
            .collect::<Vec<_>>(),
        vec![TrackId::new("t1"), TrackId::new("t2"), TrackId::new("t3")]
    );
    assert_eq!(
        state.playlists[0].contents_state,
        PlaylistLoadState::Loaded { total: 3 }
    );
}

#[test]
fn nested_folders_expand_with_stable_selection_and_open_exact_duplicate_name() {
    let root_folder_id = PlaylistId::new("folder-root");
    let child_folder_id = PlaylistId::new("folder-child");
    let nested_playlist_id = PlaylistId::new("playlist-nested-duplicate");
    let root_duplicate_id = PlaylistId::new("playlist-root-duplicate");

    let mut root_folder = playlist("folder-root", "Projects");
    root_folder.kind = PlaylistKind::Folder;
    root_folder.tracks.clear();
    root_folder.track_count = 0;
    let mut child_folder = playlist("folder-child", "Archive");
    child_folder.kind = PlaylistKind::Folder;
    child_folder.parent_id = Some(root_folder_id.clone());
    child_folder.tracks.clear();
    child_folder.track_count = 0;
    let nested = apple_music_tui::domain::Playlist::unloaded(
        nested_playlist_id.as_str(),
        "Duplicate Name",
        None,
        PlaylistKind::User,
        Some(child_folder_id.clone()),
    );
    let root_duplicate = apple_music_tui::domain::Playlist::unloaded(
        root_duplicate_id.as_str(),
        "Duplicate Name",
        None,
        PlaylistKind::User,
        None,
    );
    let playlists = vec![root_folder, child_folder, nested, root_duplicate];
    let mut state = AppState {
        navigation: apple_music_tui::state::NavigationState {
            active: Route::Section(Screen::Playlists),
            history: Vec::new(),
        },
        focus: Focus::Content,
        capabilities: Capabilities::macos(),
        playlist_hierarchy: PlaylistHierarchy::from_playlists(&playlists),
        playlists,
        ..AppState::default()
    };

    assert_eq!(
        state
            .visible_playlist_entries()
            .iter()
            .map(|entry| (&entry.playlist_id, entry.depth))
            .collect::<Vec<_>>(),
        vec![(&root_folder_id, 0), (&root_duplicate_id, 0)]
    );

    assert!(reduce(&mut state, Action::OpenSelected).is_empty());
    assert_eq!(state.content_selection, 0);
    assert_eq!(
        state.visible_playlist_entries()[1].playlist_id,
        child_folder_id
    );
    assert_eq!(state.visible_playlist_entries()[1].depth, 1);

    reduce(&mut state, Action::MoveDown);
    assert!(reduce(&mut state, Action::OpenSelected).is_empty());
    assert_eq!(state.content_selection, 1);
    assert_eq!(
        state.visible_playlist_entries()[2].playlist_id,
        nested_playlist_id
    );
    assert_eq!(state.visible_playlist_entries()[2].depth, 2);

    assert!(reduce(&mut state, Action::OpenSelected).is_empty());
    assert_eq!(state.content_selection, 1);
    assert_eq!(state.visible_playlist_entries().len(), 3);
    assert!(reduce(&mut state, Action::OpenSelected).is_empty());
    assert_eq!(state.content_selection, 1);
    assert_eq!(
        state.visible_playlist_entries()[2].playlist_id,
        nested_playlist_id
    );

    reduce(&mut state, Action::MoveDown);
    assert_eq!(
        reduce(&mut state, Action::OpenSelected),
        vec![Command::Backend(BackendCommand::LoadPlaylist(
            nested_playlist_id.clone()
        ))]
    );
    assert_eq!(
        state.navigation.active,
        Route::PlaylistDetail {
            playlist_id: nested_playlist_id
        }
    );
}

#[test]
fn progressive_library_batches_append_then_install_derived_views() {
    let mut state = AppState::default();
    let first = Track::new("one", "One", "Artist", "Album", Duration::from_secs(60));
    let second = Track::new("two", "Two", "Artist", "Album", Duration::from_secs(70));
    reduce(
        &mut state,
        Action::Backend(Box::new(BackendEvent::Update(
            BackendUpdate::LibraryBatch {
                availability: apple_music_tui::domain::BackendAvailability::Available,
                playback: PlaybackSnapshot::default(),
                tracks: vec![first],
                authoritative_tracks: None,
                loaded: 1,
                total: 2,
                complete: false,
                artists: Vec::new(),
                albums: Vec::new(),
                recently_added: Vec::new(),
                recently_played: Vec::new(),
            },
        ))),
    );
    assert_eq!(state.library.len(), 1);
    assert_eq!(state.search_index.len(), 1);
    assert_eq!(
        state.library_status,
        apple_music_tui::domain::CollectionLoadState::Loading {
            loaded: 1,
            total: 2
        }
    );

    let album = apple_music_tui::domain::Album::new(
        "album",
        "Album",
        "Artist",
        2026,
        "2026-01-01",
        vec![second.clone()],
    );
    reduce(
        &mut state,
        Action::Backend(Box::new(BackendEvent::Update(
            BackendUpdate::LibraryBatch {
                availability: apple_music_tui::domain::BackendAvailability::Available,
                playback: PlaybackSnapshot::default(),
                tracks: vec![second],
                authoritative_tracks: None,
                loaded: 2,
                total: 2,
                complete: true,
                artists: Vec::new(),
                albums: vec![album.clone()],
                recently_added: vec![album],
                recently_played: Vec::new(),
            },
        ))),
    );
    assert_eq!(state.library.len(), 2);
    assert_eq!(state.albums.len(), 1);
    assert_eq!(state.recently_added.len(), 1);
    assert_eq!(state.search_index.len(), 3);
    assert_eq!(
        state.library_status,
        apple_music_tui::domain::CollectionLoadState::Loaded { total: 2 }
    );
}

#[test]
fn authoritative_refresh_reconciles_cached_tracks_without_duplicates_or_stale_search() {
    let mut state = AppState::default();
    let cached = Track::new(
        "T1",
        "Old title",
        "Artist",
        "Album",
        Duration::from_secs(60),
    );
    let stale = Track::new(
        "T2",
        "Deleted song",
        "Artist",
        "Album",
        Duration::from_secs(60),
    );
    state.library = vec![cached, stale];
    state.library_status = apple_music_tui::domain::CollectionLoadState::Cached { total: 2 };
    rebuild_search_index(&mut state);

    let changed = Track::new(
        "T1",
        "New title",
        "Artist",
        "Album",
        Duration::from_secs(60),
    );
    let added = Track::new("T3", "New song", "Artist", "Album", Duration::from_secs(60));
    reduce(
        &mut state,
        Action::Backend(Box::new(BackendEvent::Update(
            BackendUpdate::LibraryBatch {
                availability: apple_music_tui::domain::BackendAvailability::Available,
                playback: PlaybackSnapshot::default(),
                tracks: vec![changed.clone(), added.clone()],
                authoritative_tracks: None,
                loaded: 2,
                total: 2,
                complete: false,
                artists: Vec::new(),
                albums: Vec::new(),
                recently_added: Vec::new(),
                recently_played: Vec::new(),
            },
        ))),
    );
    assert_eq!(state.library.len(), 3);
    assert_eq!(state.library[0].title, "New title");
    state.search_query = "new title".to_owned();
    refresh_search(&mut state);
    assert_eq!(
        state.search_results,
        vec![LocalSearchResult::Track(changed.id.clone())]
    );

    reduce(
        &mut state,
        Action::Backend(Box::new(BackendEvent::Update(
            BackendUpdate::LibraryBatch {
                availability: apple_music_tui::domain::BackendAvailability::Available,
                playback: PlaybackSnapshot::default(),
                tracks: vec![changed.clone(), added.clone()],
                authoritative_tracks: Some(vec![changed.clone(), added.clone()]),
                loaded: 2,
                total: 2,
                complete: true,
                artists: Vec::new(),
                albums: Vec::new(),
                recently_added: Vec::new(),
                recently_played: Vec::new(),
            },
        ))),
    );
    assert_eq!(state.library, vec![changed, added]);
    state.search_query = "deleted".to_owned();
    refresh_search(&mut state);
    assert!(state.search_results.is_empty());
}

#[test]
fn local_search_uses_one_normalized_index_for_all_local_collection_types() {
    let track = Track::new(
        "track-beacon",
        "Beacon Song",
        "Beacon Artist",
        "Beacon Album",
        Duration::from_secs(180),
    );
    let album = Album::new(
        "album-beacon",
        "Beacon Album",
        "Beacon Artist",
        2026,
        "2026-08-03",
        vec![track.clone()],
    );
    let artist = Artist::new(
        "artist-beacon",
        "Beacon Artist",
        vec![album.id.clone()],
        vec![track.id.clone()],
    );
    let playlist = apple_music_tui::domain::Playlist::unloaded(
        "playlist-beacon",
        "Beacon Playlist",
        Some("A local Beacon collection".to_owned()),
        apple_music_tui::domain::PlaylistKind::User,
        None,
    );
    let mut state = AppState::default();
    reduce(
        &mut state,
        Action::Backend(Box::new(BackendEvent::Ready {
            name: "Music.app",
            capabilities: Capabilities::macos(),
            snapshot: BackendSnapshot {
                library: vec![track],
                artists: vec![artist],
                albums: vec![album],
                playlists: vec![playlist],
                ..BackendSnapshot::default()
            },
        })),
    );

    reduce(&mut state, Action::StartSearch);
    for character in "  BEACON  ".chars() {
        reduce(&mut state, Action::SearchInput(character));
    }

    assert_eq!(
        state.search_results,
        vec![
            LocalSearchResult::Playlist(PlaylistId::new("playlist-beacon")),
            LocalSearchResult::Artist(ArtistId::new("artist-beacon")),
            LocalSearchResult::Album(AlbumId::new("album-beacon")),
            LocalSearchResult::Track(TrackId::new("track-beacon")),
        ]
    );
    assert_eq!(state.search_index.len(), 4);
}

#[test]
fn opening_playlist_search_result_preserves_identity_and_requests_lazy_contents() {
    let playlist_id = PlaylistId::new("musicapp:playlist:persistent:SEARCH");
    let mut state = AppState {
        navigation: apple_music_tui::state::NavigationState {
            active: Route::Section(Screen::Search),
            history: Vec::new(),
        },
        focus: Focus::Content,
        capabilities: Capabilities::macos(),
        search_results: vec![LocalSearchResult::Playlist(playlist_id.clone())],
        playlists: vec![apple_music_tui::domain::Playlist::unloaded(
            playlist_id.as_str(),
            "Search Result",
            None,
            apple_music_tui::domain::PlaylistKind::User,
            None,
        )],
        ..AppState::default()
    };

    assert_eq!(
        reduce(&mut state, Action::OpenSelected),
        vec![Command::Backend(BackendCommand::LoadPlaylist(
            playlist_id.clone()
        ))]
    );
    assert_eq!(
        state.navigation.active,
        Route::PlaylistDetail {
            playlist_id: playlist_id.clone()
        }
    );
    assert_eq!(
        state.navigation.history,
        vec![apple_music_tui::state::NavigationEntry {
            route: Route::Section(Screen::Search),
            content_selection: 0,
        }]
    );
}

#[test]
fn play_selected_playlist_uses_selection_playback_capability() {
    let playlist_id = PlaylistId::new("musicapp:playlist:persistent:ABC");
    let mut state = AppState {
        navigation: apple_music_tui::state::NavigationState {
            active: Route::Section(Screen::Playlists),
            history: Vec::new(),
        },
        focus: Focus::Content,
        capabilities: Capabilities::macos(),
        playlists: vec![apple_music_tui::domain::Playlist::unloaded(
            playlist_id.as_str(),
            "Local Playlist",
            None,
            apple_music_tui::domain::PlaylistKind::User,
            None,
        )],
        ..AppState::default()
    };

    assert_eq!(
        reduce(&mut state, Action::PlaySelectedCollection),
        vec![Command::Backend(BackendCommand::PlayPlaylist(playlist_id))]
    );
}

#[test]
fn unsupported_context_actions_are_not_advertised() {
    let track = Track::new("track", "Track", "Artist", "Album", Duration::from_secs(1));
    let album = Album::new("album", "Album", "Artist", 2024, "", vec![track.clone()]);
    let mut state = AppState {
        navigation: apple_music_tui::state::NavigationState {
            active: Route::Section(Screen::Songs),
            history: Vec::new(),
        },
        focus: Focus::Content,
        library: vec![track],
        albums: vec![album],
        ..AppState::default()
    };

    reduce(&mut state, Action::OpenActions);
    assert_eq!(
        state.action_menu.as_ref().expect("track menu").actions,
        vec![ContextAction::OpenAlbum]
    );
}

#[test]
fn collection_views_sort_filter_and_preserve_stable_selection() {
    let mut first = Track::new("one", "Zulu", "Beta", "Second", Duration::from_secs(1));
    first.metadata.date_added = Some("2024-01-01".to_owned());
    first.metadata.year = Some(2020);
    first.metadata.play_count = Some(2);
    first.metadata.genre = Some("Jazz".to_owned());
    let mut second = Track::new("two", "Alpha", "Alpha", "First", Duration::from_secs(1));
    second.metadata.date_added = Some("2025-01-01".to_owned());
    second.metadata.year = Some(2024);
    second.metadata.play_count = Some(9);
    let third = Track::new("three", "Alpha", "Gamma", "Third", Duration::from_secs(1));
    let album_a = Album::new(
        "album-a",
        "Zulu Album",
        "Beta",
        2020,
        "2024-01-01",
        vec![first.clone()],
    );
    let album_b = Album::new(
        "album-b",
        "Alpha Album",
        "Alpha",
        2024,
        "2025-01-01",
        vec![second.clone(), third.clone()],
    );
    let artist_a = Artist::new(
        "artist-a",
        "Zulu",
        vec![album_a.id.clone()],
        vec![first.id.clone()],
    );
    let artist_b = Artist::new(
        "artist-b",
        "Alpha",
        vec![album_b.id.clone(), AlbumId::new("album-extra")],
        vec![second.id.clone(), third.id.clone()],
    );
    let mut state = AppState {
        navigation: apple_music_tui::state::NavigationState {
            active: Route::Section(Screen::Songs),
            history: Vec::new(),
        },
        focus: Focus::Content,
        library: vec![first, second, third],
        albums: vec![album_a, album_b],
        artists: vec![artist_a, artist_b],
        ..AppState::default()
    };
    rebuild_library_views(&mut state);
    assert_eq!(state.library_views.songs.indices, vec![2, 1, 0]);

    state.content_selection = 2;
    state.library_views.songs.sort = CollectionSort::SongArtist;
    rebuild_collection_view(&mut state, CollectionKind::Songs);
    assert_eq!(state.library_views.songs.indices, vec![1, 0, 2]);
    assert_eq!(
        state.library[state.library_views.songs.indices[state.content_selection]].id,
        TrackId::new("one")
    );

    state.library_views.songs.filter = "jAzZ".to_owned();
    rebuild_collection_view(&mut state, CollectionKind::Songs);
    assert_eq!(state.library_views.songs.indices, vec![0]);
    assert_eq!(state.content_selection, 0);
    state.library_views.songs.filter.clear();
    state.library_views.songs.sort = CollectionSort::SongDateAdded;
    state.library_views.songs.descending = true;
    rebuild_collection_view(&mut state, CollectionKind::Songs);
    assert_eq!(state.library_views.songs.indices[0], 1);
    state.content_selection = 1;
    reduce(&mut state, Action::OpenActions);
    assert_eq!(
        state
            .action_menu
            .as_ref()
            .expect("sorted action target")
            .target,
        ContextTarget::Track(TrackId::new("one"))
    );
    reduce(&mut state, Action::Back);

    state.navigation.active = Route::Section(Screen::Albums);
    state.library_views.albums.sort = CollectionSort::AlbumArtist;
    rebuild_collection_view(&mut state, CollectionKind::Albums);
    assert_eq!(state.library_views.albums.indices, vec![1, 0]);
    state.library_views.albums.sort = CollectionSort::AlbumYear;
    rebuild_collection_view(&mut state, CollectionKind::Albums);
    assert_eq!(state.library_views.albums.indices, vec![0, 1]);
    state.library_views.albums.sort = CollectionSort::AlbumRecentlyAdded;
    state.library_views.albums.descending = true;
    rebuild_collection_view(&mut state, CollectionKind::Albums);
    assert_eq!(state.library_views.albums.indices, vec![1, 0]);

    state.navigation.active = Route::Section(Screen::Artists);
    state.library_views.artists.sort = CollectionSort::ArtistAlbumCount;
    state.library_views.artists.descending = true;
    rebuild_collection_view(&mut state, CollectionKind::Artists);
    assert_eq!(state.library_views.artists.indices, vec![1, 0]);
    state.library_views.artists.sort = CollectionSort::ArtistTrackCount;
    rebuild_collection_view(&mut state, CollectionKind::Artists);
    assert_eq!(state.library_views.artists.indices, vec![1, 0]);
}

#[test]
fn collection_filter_modal_and_sort_menu_are_modal_without_recomputing_on_idle() {
    let mut state = AppState {
        navigation: apple_music_tui::state::NavigationState {
            active: Route::Section(Screen::Songs),
            history: Vec::new(),
        },
        focus: Focus::Content,
        library: vec![Track::new(
            "one",
            "Alpha",
            "Artist",
            "Album",
            Duration::from_secs(1),
        )],
        ..AppState::default()
    };
    rebuild_library_views(&mut state);
    let initial_rebuilds = state.library_views.songs.rebuild_count;
    reduce(&mut state, Action::StartCollectionFilter);
    reduce(&mut state, Action::CollectionFilterInput('a'));
    assert_eq!(state.filter_editor.as_ref().expect("editor").draft, "a");
    reduce(&mut state, Action::Back);
    assert!(state.filter_editor.is_none());
    assert!(state.library_views.songs.filter.is_empty());
    reduce(&mut state, Action::OpenCollectionSort);
    reduce(&mut state, Action::PlayPause);
    assert!(state.library_views.songs.descending);
    reduce(&mut state, Action::Quit);
    assert!(state.sort_menu.is_none());
    assert!(!state.should_quit);
    assert!(state.library_views.songs.rebuild_count > initial_rebuilds);
    let after_actions = state.library_views.songs.rebuild_count;
    let _ = content_length(&state);
    assert_eq!(state.library_views.songs.rebuild_count, after_actions);
}

#[test]
fn progressive_library_batch_respects_active_song_sort_and_filter() {
    let initial = Track::new("one", "Zulu", "Artist", "Album", Duration::from_secs(1));
    let mut state = AppState {
        navigation: apple_music_tui::state::NavigationState {
            active: Route::Section(Screen::Songs),
            history: Vec::new(),
        },
        focus: Focus::Content,
        library: vec![initial],
        library_status: apple_music_tui::domain::CollectionLoadState::Loading {
            loaded: 1,
            total: 2,
        },
        ..AppState::default()
    };
    state.library_views.songs.filter = "artist".to_owned();
    rebuild_library_views(&mut state);
    let incoming = Track::new("two", "Alpha", "Artist", "Album", Duration::from_secs(1));
    reduce(
        &mut state,
        Action::Backend(Box::new(BackendEvent::Update(
            BackendUpdate::LibraryBatch {
                availability: apple_music_tui::domain::BackendAvailability::Available,
                playback: PlaybackSnapshot::default(),
                tracks: vec![incoming],
                authoritative_tracks: None,
                loaded: 2,
                total: 2,
                complete: false,
                artists: Vec::new(),
                albums: Vec::new(),
                recently_added: Vec::new(),
                recently_played: Vec::new(),
            },
        ))),
    );
    assert_eq!(state.library_views.songs.indices, vec![1, 0]);
    assert_eq!(state.library_views.songs.filter, "artist");
}

#[test]
fn cached_refresh_batches_do_not_clamp_active_collection_navigation() {
    let tracks = ["A", "B", "C", "D", "E"]
        .into_iter()
        .map(|id| Track::new(id, id, "Artist", "Album", Duration::from_secs(1)))
        .collect::<Vec<_>>();
    let mut state = AppState {
        navigation: apple_music_tui::state::NavigationState {
            active: Route::Section(Screen::Songs),
            history: Vec::new(),
        },
        focus: Focus::Content,
        library: tracks.clone(),
        library_status: apple_music_tui::domain::CollectionLoadState::Cached {
            total: tracks.len(),
        },
        ..AppState::default()
    };
    state.library_views.songs.sort = CollectionSort::SongTitle;
    rebuild_library_views(&mut state);
    let presented_generation = state.library_views.songs.rebuild_count;

    for (action, expected_id) in [
        (Action::MoveDown, "B"),
        (Action::MoveDown, "C"),
        (Action::MoveUp, "B"),
        (Action::MoveDown, "C"),
    ] {
        reduce(&mut state, action);
        let selected_before = selected_collection_identity(&state, CollectionKind::Songs)
            .expect("selected cached song");
        assert_eq!(selected_before, expected_id);
        reduce(
            &mut state,
            Action::Backend(Box::new(BackendEvent::Update(
                BackendUpdate::LibraryBatch {
                    availability: apple_music_tui::domain::BackendAvailability::Available,
                    playback: PlaybackSnapshot::default(),
                    tracks: vec![Track::new(
                        "incoming",
                        "Incoming",
                        "Artist",
                        "Album",
                        Duration::from_secs(1),
                    )],
                    authoritative_tracks: None,
                    loaded: 1,
                    total: 6,
                    complete: false,
                    artists: Vec::new(),
                    albums: Vec::new(),
                    recently_added: Vec::new(),
                    recently_played: Vec::new(),
                },
            ))),
        );
        assert_eq!(
            selected_collection_identity(&state, CollectionKind::Songs),
            Some(selected_before)
        );
        assert_eq!(
            state.library_views.songs.rebuild_count,
            presented_generation
        );
        assert_eq!(
            state.library_views.songs.indices.len(),
            tracks.len(),
            "partial refresh must not alter displayed cached order"
        );
    }
}

#[test]
fn manual_refresh_preserves_cached_library_selection_filters_and_playback() {
    let first = Track::new("one", "Zulu", "Artist", "Album", Duration::from_secs(1));
    let second = Track::new("two", "Alpha", "Artist", "Album", Duration::from_secs(1));
    let playback = apple_music_tui::domain::PlaybackSnapshot {
        current_track: Some(first.clone()),
        context: apple_music_tui::domain::PlaybackContext::Album {
            album_id: AlbumId::new("album"),
            ordered_track_ids: vec![first.id.clone(), second.id.clone()],
            current_index: 0,
        },
        ..Default::default()
    };
    let mut state = AppState {
        library: vec![first, second],
        library_status: apple_music_tui::domain::CollectionLoadState::Cached { total: 2 },
        playback: playback.clone(),
        ..AppState::default()
    };
    state.library_views.songs.filter = "artist".to_owned();
    state.library_views.songs.sort = CollectionSort::SongTitle;
    rebuild_library_views(&mut state);
    state.content_selection = 1;

    assert_eq!(
        reduce(&mut state, Action::RefreshLibrary),
        vec![Command::Backend(BackendCommand::RefreshLibrary)]
    );
    reduce(
        &mut state,
        Action::Backend(Box::new(BackendEvent::Update(
            BackendUpdate::LibraryRefreshStarted {
                availability: apple_music_tui::domain::BackendAvailability::Available,
                playback: playback.clone(),
            },
        ))),
    );
    assert!(matches!(
        state.library_status,
        apple_music_tui::domain::CollectionLoadState::Refreshing { .. }
    ));
    assert_eq!(state.library_views.songs.filter, "artist");
    assert_eq!(state.playback, playback);
    assert_eq!(state.library.len(), 2);

    reduce(
        &mut state,
        Action::Backend(Box::new(BackendEvent::Update(
            BackendUpdate::LibraryRefreshFailed {
                availability: apple_music_tui::domain::BackendAvailability::Available,
                playback,
                message: "safe failure".to_owned(),
            },
        ))),
    );
    assert!(matches!(
        state.library_status,
        apple_music_tui::domain::CollectionLoadState::Error(_)
    ));
    assert_eq!(state.library.len(), 2);
    assert_eq!(state.library_views.songs.filter, "artist");
}

#[test]
fn full_now_playing_uses_history_and_q_returns_without_quitting() {
    let track = Track::new(
        "track",
        "Current",
        "Artist",
        "Album",
        Duration::from_secs(60),
    );
    let mut state = AppState {
        navigation: apple_music_tui::state::NavigationState {
            active: Route::Section(Screen::Songs),
            history: Vec::new(),
        },
        content_selection: 4,
        playback: apple_music_tui::domain::PlaybackSnapshot {
            current_track: Some(track),
            ..Default::default()
        },
        ..AppState::default()
    };
    reduce(&mut state, Action::OpenNowPlaying);
    assert!(matches!(state.navigation.active, Route::NowPlaying));
    assert_eq!(state.navigation.history.len(), 1);
    reduce(&mut state, Action::Quit);
    assert!(!state.should_quit);
    assert_eq!(state.navigation.active, Route::Section(Screen::Songs));
    assert_eq!(state.content_selection, 4);

    reduce(&mut state, Action::OpenNowPlaying);
    reduce(&mut state, Action::Back);
    assert_eq!(state.navigation.active, Route::Section(Screen::Songs));
    assert_eq!(state.content_selection, 4);
}

#[test]
fn album_detail_lazy_loads_and_caches_bounded_artwork_by_album_identity() {
    let album_id = AlbumId::new("album-art");
    let track_id = TrackId::new("musicapp:persistent:ART");
    let album = Album::new(
        album_id.as_str(),
        "Artwork Album",
        "Artist",
        2026,
        "2026-01-01",
        vec![Track::new(
            track_id.as_str(),
            "Track",
            "Artist",
            "Artwork Album",
            Duration::from_secs(60),
        )],
    );
    let mut state = AppState {
        navigation: apple_music_tui::state::NavigationState {
            active: Route::Section(Screen::Albums),
            history: Vec::new(),
        },
        focus: Focus::Content,
        capabilities: Capabilities::macos(),
        albums: vec![album],
        ..AppState::default()
    };

    assert_eq!(
        reduce(&mut state, Action::OpenSelected),
        vec![Command::Backend(BackendCommand::LoadTrackArtwork {
            key: ArtworkKey::Album(album_id.clone()),
            track_id,
        })]
    );
    assert!(matches!(
        state
            .artwork_cache
            .get(&ArtworkKey::Album(album_id.clone())),
        Some(apple_music_tui::state::ArtworkCacheEntry::Loading)
    ));

    reduce(
        &mut state,
        Action::Backend(Box::new(BackendEvent::Update(BackendUpdate::Artwork {
            availability: apple_music_tui::domain::BackendAvailability::Available,
            playback: PlaybackSnapshot::default(),
            key: ArtworkKey::Album(album_id.clone()),
            result: ArtworkResult::Ready(Artwork {
                media_type: ArtworkMediaType::Jpeg,
                bytes: vec![0xff, 0xd8, 0xff, 0xd9],
            }),
        }))),
    );
    assert!(matches!(
        state.artwork_cache.get(&ArtworkKey::Album(album_id)),
        Some(apple_music_tui::state::ArtworkCacheEntry::Ready(_))
    ));
}

#[test]
fn jpeg_artwork_conversion_is_queued_once_and_cached_by_identity() {
    let key = ArtworkKey::Album(AlbumId::new("album-renderable"));
    let artwork = Artwork {
        media_type: ArtworkMediaType::Jpeg,
        bytes: vec![0xff, 0xd8, 0xff, 0xd9],
    };
    let mut state = AppState::default();
    let event = || {
        BackendEvent::Update(BackendUpdate::Artwork {
            availability: apple_music_tui::domain::BackendAvailability::Available,
            playback: PlaybackSnapshot::default(),
            key: key.clone(),
            result: ArtworkResult::Ready(artwork.clone()),
        })
    };

    let commands = reduce(&mut state, Action::Backend(Box::new(event())));
    assert!(matches!(
        commands.as_slice(),
        [Command::ConvertArtwork { key: command_key, .. }] if command_key == &key
    ));
    assert!(reduce(&mut state, Action::Backend(Box::new(event()))).is_empty());

    reduce(
        &mut state,
        Action::ArtworkConversionCompleted {
            key: key.clone(),
            source_fingerprint: artwork.fingerprint(),
            result: Ok(Artwork {
                media_type: ArtworkMediaType::Png,
                bytes: b"\x89PNG\r\n\x1a\nconverted".to_vec(),
            }),
        },
    );
    assert!(matches!(
        state.renderable_artwork_cache.get(&key),
        Some(RenderableArtworkCacheEntry::Ready { artwork, .. })
            if artwork.media_type == ArtworkMediaType::Png
    ));
}

#[test]
fn renderable_artwork_cache_is_bounded_with_source_cache() {
    let mut state = AppState::default();
    for index in 0..17 {
        let key = ArtworkKey::Track(TrackId::new(&format!("track-{index}")));
        insert_artwork_cache(
            &mut state,
            key.clone(),
            ArtworkCacheEntry::Ready(Artwork {
                media_type: ArtworkMediaType::Png,
                bytes: vec![index as u8],
            }),
        );
        insert_renderable_artwork_cache(
            &mut state,
            key,
            RenderableArtworkCacheEntry::Ready {
                source_fingerprint: index,
                artwork: Artwork {
                    media_type: ArtworkMediaType::Png,
                    bytes: vec![index as u8],
                },
            },
        );
    }
    assert_eq!(state.artwork_cache.len(), 16);
    assert_eq!(state.renderable_artwork_cache.len(), 16);
    assert!(
        !state
            .renderable_artwork_cache
            .contains_key(&ArtworkKey::Track(TrackId::new("track-0")))
    );
}

#[test]
fn album_detail_reuses_a_matching_now_playing_renderable() {
    let track_key = ArtworkKey::Track(TrackId::new("track-artwork"));
    let album_key = ArtworkKey::Album(AlbumId::new("album-artwork"));
    let source = Artwork {
        media_type: ArtworkMediaType::Jpeg,
        bytes: vec![0xff, 0xd8, 0xff, 0xd9],
    };
    let renderable = Artwork {
        media_type: ArtworkMediaType::Png,
        bytes: b"\x89PNG\r\n\x1a\nconverted".to_vec(),
    };
    let mut state = AppState::default();
    insert_artwork_cache(
        &mut state,
        track_key,
        ArtworkCacheEntry::Ready(source.clone()),
    );
    insert_renderable_artwork_cache(
        &mut state,
        ArtworkKey::Track(TrackId::new("track-artwork")),
        RenderableArtworkCacheEntry::Ready {
            source_fingerprint: source.fingerprint(),
            artwork: renderable.clone(),
        },
    );

    let commands = reduce(
        &mut state,
        Action::Backend(Box::new(BackendEvent::Update(BackendUpdate::Artwork {
            availability: apple_music_tui::domain::BackendAvailability::Available,
            playback: PlaybackSnapshot::default(),
            key: album_key.clone(),
            result: ArtworkResult::Ready(source),
        }))),
    );
    assert!(commands.is_empty());
    assert!(matches!(
        state.renderable_artwork_cache.get(&album_key),
        Some(RenderableArtworkCacheEntry::Ready { artwork, .. }) if artwork == &renderable
    ));
}

#[test]
fn now_playing_requests_artwork_once_per_stable_track_identity() {
    let track = Track::new(
        "musicapp:persistent:NOW",
        "Now",
        "Artist",
        "Album",
        Duration::from_secs(60),
    );
    let mut state = AppState {
        capabilities: Capabilities::macos(),
        ..AppState::default()
    };
    let event = || {
        BackendEvent::Update(BackendUpdate::Playback {
            availability: apple_music_tui::domain::BackendAvailability::Available,
            playback: PlaybackSnapshot {
                current_track: Some(track.clone()),
                ..PlaybackSnapshot::default()
            },
        })
    };
    assert_eq!(
        reduce(&mut state, Action::Backend(Box::new(event()))),
        vec![Command::Backend(BackendCommand::LoadTrackArtwork {
            key: ArtworkKey::Track(track.id.clone()),
            track_id: track.id.clone(),
        })]
    );
    assert!(reduce(&mut state, Action::Backend(Box::new(event()))).is_empty());
}

#[test]
fn transient_current_track_artwork_failure_retries_once_then_accepts_success() {
    let track = Track::new(
        "musicapp:persistent:RETRY",
        "Retry",
        "Artist",
        "Album",
        Duration::from_secs(60),
    );
    let key = ArtworkKey::Track(track.id.clone());
    let playback = PlaybackSnapshot {
        current_track: Some(track.clone()),
        ..PlaybackSnapshot::default()
    };
    let mut state = AppState {
        capabilities: Capabilities::macos(),
        ..AppState::default()
    };
    assert!(matches!(
        reduce(
            &mut state,
            Action::Backend(Box::new(BackendEvent::Update(BackendUpdate::Playback {
                availability: apple_music_tui::domain::BackendAvailability::Available,
                playback: playback.clone(),
            })))
        ),
        commands if matches!(commands.as_slice(), [Command::Backend(BackendCommand::LoadTrackArtwork { key: request_key, .. })] if request_key == &key)
    ));

    assert!(matches!(
        reduce(
            &mut state,
            Action::Backend(Box::new(BackendEvent::Update(BackendUpdate::Artwork {
                availability: apple_music_tui::domain::BackendAvailability::Available,
                playback: playback.clone(),
                key: key.clone(),
                result: ArtworkResult::Invalid("Music.app artwork query failed: stale object".to_owned()),
            })))
        ),
        commands if matches!(commands.as_slice(), [Command::RetryArtwork { key: retry_key, .. }] if retry_key == &key)
    ));
    assert!(matches!(
        state.artwork_cache.get(&key),
        Some(ArtworkCacheEntry::Loading)
    ));

    reduce(
        &mut state,
        Action::Backend(Box::new(BackendEvent::Update(BackendUpdate::Artwork {
            availability: apple_music_tui::domain::BackendAvailability::Available,
            playback,
            key: key.clone(),
            result: ArtworkResult::Ready(Artwork {
                media_type: ArtworkMediaType::Png,
                bytes: b"\x89PNG\r\n\x1a\nvalid".to_vec(),
            }),
        }))),
    );
    assert!(matches!(
        state.artwork_cache.get(&key),
        Some(ArtworkCacheEntry::Ready(_))
    ));
    assert!(!state.artwork_retry_attempts.contains_key(&key));
}

#[test]
fn typed_transient_artwork_resolution_retries_once() {
    let track = Track::new(
        "musicapp:persistent:CLOUD",
        "Cloud Track",
        "Artist",
        "Album",
        Duration::from_secs(60),
    );
    let key = ArtworkKey::Track(track.id.clone());
    let playback = PlaybackSnapshot {
        current_track: Some(track),
        ..PlaybackSnapshot::default()
    };
    let mut state = AppState {
        capabilities: Capabilities::macos(),
        ..AppState::default()
    };
    reduce(
        &mut state,
        Action::Backend(Box::new(BackendEvent::Update(BackendUpdate::Playback {
            availability: apple_music_tui::domain::BackendAvailability::Available,
            playback: playback.clone(),
        }))),
    );

    let transient = || {
        Action::Backend(Box::new(BackendEvent::Update(BackendUpdate::Artwork {
            availability: apple_music_tui::domain::BackendAvailability::Available,
            playback: playback.clone(),
            key: key.clone(),
            result: ArtworkResult::Transient("fresh object unavailable".to_owned()),
        })))
    };
    assert!(matches!(
        reduce(&mut state, transient()).as_slice(),
        [Command::RetryArtwork { .. }]
    ));
    assert!(reduce(&mut state, transient()).is_empty());
    assert!(matches!(
        state.artwork_cache.get(&key),
        Some(ArtworkCacheEntry::Transient(message)) if message.contains("fresh object unavailable")
    ));
}

#[test]
fn second_transient_artwork_failure_is_a_stable_fallback() {
    let track = Track::new(
        "musicapp:persistent:RETRY-ONCE",
        "Retry Once",
        "Artist",
        "Album",
        Duration::from_secs(60),
    );
    let key = ArtworkKey::Track(track.id.clone());
    let playback = PlaybackSnapshot {
        current_track: Some(track.clone()),
        ..PlaybackSnapshot::default()
    };
    let mut state = AppState {
        capabilities: Capabilities::macos(),
        ..AppState::default()
    };
    reduce(
        &mut state,
        Action::Backend(Box::new(BackendEvent::Update(BackendUpdate::Playback {
            availability: apple_music_tui::domain::BackendAvailability::Available,
            playback: playback.clone(),
        }))),
    );
    let failure = || {
        Action::Backend(Box::new(BackendEvent::Update(BackendUpdate::Artwork {
            availability: apple_music_tui::domain::BackendAvailability::Available,
            playback: playback.clone(),
            key: key.clone(),
            result: ArtworkResult::Invalid(
                "Music.app artwork query failed: temporary".to_owned(),
            ),
        })))
    };
    assert!(matches!(
        reduce(&mut state, failure()).as_slice(),
        [Command::RetryArtwork { .. }]
    ));
    assert!(reduce(&mut state, failure()).is_empty());
    assert!(matches!(
        state.artwork_cache.get(&key),
        Some(ArtworkCacheEntry::Unavailable(message)) if message.contains("query failed")
    ));
}

#[test]
fn stale_track_artwork_event_cannot_replace_newer_playback() {
    let old = Track::new(
        "musicapp:persistent:OLD",
        "Old",
        "Artist",
        "Old",
        Duration::from_secs(60),
    );
    let new = Track::new(
        "musicapp:persistent:NEW",
        "New",
        "Artist",
        "New",
        Duration::from_secs(60),
    );
    let mut state = AppState {
        playback: PlaybackSnapshot {
            current_track: Some(new.clone()),
            ..PlaybackSnapshot::default()
        },
        ..AppState::default()
    };
    reduce(
        &mut state,
        Action::Backend(Box::new(BackendEvent::Update(BackendUpdate::Artwork {
            availability: apple_music_tui::domain::BackendAvailability::Available,
            playback: PlaybackSnapshot {
                current_track: Some(old.clone()),
                ..PlaybackSnapshot::default()
            },
            key: ArtworkKey::Track(old.id.clone()),
            result: ArtworkResult::Missing,
        }))),
    );
    assert_eq!(
        state.playback.current_track.as_ref().map(|track| &track.id),
        Some(&new.id)
    );
}

#[test]
fn same_album_track_change_reuses_the_album_artwork_identity() {
    let first = Track::new(
        "musicapp:persistent:ONE",
        "One",
        "Artist",
        "Album",
        Duration::from_secs(60),
    );
    let second = Track::new(
        "musicapp:persistent:TWO",
        "Two",
        "Artist",
        "Album",
        Duration::from_secs(60),
    );
    let album = Album::new(
        "album-shared",
        "Album",
        "Artist",
        2026,
        "2026",
        vec![first.clone(), second.clone()],
    );
    let key = ArtworkKey::Album(album.id.clone());
    let mut state = AppState {
        capabilities: Capabilities::macos(),
        albums: vec![album],
        playback: PlaybackSnapshot {
            current_track: Some(first.clone()),
            ..PlaybackSnapshot::default()
        },
        ..AppState::default()
    };
    insert_artwork_cache(
        &mut state,
        key,
        ArtworkCacheEntry::Ready(Artwork {
            media_type: ArtworkMediaType::Png,
            bytes: b"\x89PNG\r\n\x1a\nshared".to_vec(),
        }),
    );
    assert!(
        reduce(
            &mut state,
            Action::Backend(Box::new(BackendEvent::Update(BackendUpdate::Playback {
                availability: apple_music_tui::domain::BackendAvailability::Available,
                playback: PlaybackSnapshot {
                    current_track: Some(second),
                    ..PlaybackSnapshot::default()
                },
            })))
        )
        .is_empty()
    );
}

#[test]
fn playlist_detail_plays_exact_track_with_playlist_context() {
    let playlist_id = PlaylistId::new("musicapp:playlist:persistent:ABC");
    let track_id = TrackId::new("musicapp:persistent:TRACK");
    let mut playlist = Playlist::new(
        playlist_id.as_str(),
        "Local Playlist",
        None,
        vec![Track::new(
            track_id.as_str(),
            "Track",
            "Artist",
            "Album",
            Duration::from_secs(60),
        )],
    );
    playlist.id = playlist_id.clone();
    let mut state = AppState {
        navigation: apple_music_tui::state::NavigationState {
            active: Route::PlaylistDetail {
                playlist_id: playlist_id.clone(),
            },
            history: Vec::new(),
        },
        focus: Focus::Content,
        capabilities: Capabilities::macos(),
        playlists: vec![playlist],
        ..AppState::default()
    };

    assert_eq!(
        reduce(&mut state, Action::OpenSelected),
        vec![Command::Backend(BackendCommand::PlayPlaylistTrack {
            playlist_id,
            ordered_track_ids: vec![track_id],
            selected_index: 0,
            complete: true,
        })]
    );
}

#[test]
fn jump_to_playing_playlist_track_uses_the_session_source_occurrence_without_commands() {
    let playlist_id = PlaylistId::new("musicapp:playlist:persistent:ACTIVE");
    let duplicate = Track::new(
        "musicapp:persistent:DUPLICATE",
        "Duplicate",
        "Artist",
        "Album",
        Duration::from_secs(60),
    );
    let playlist = Playlist::new(
        playlist_id.as_str(),
        "Same Name",
        None,
        vec![
            duplicate.clone(),
            Track::new(
                "middle",
                "Middle",
                "Artist",
                "Album",
                Duration::from_secs(60),
            ),
            duplicate.clone(),
            Track::new("last", "Last", "Artist", "Album", Duration::from_secs(60)),
        ],
    );
    let mut state = AppState {
        navigation: apple_music_tui::state::NavigationState {
            active: Route::PlaylistDetail {
                playlist_id: playlist_id.clone(),
            },
            history: Vec::new(),
        },
        focus: Focus::Content,
        content_selection: 0,
        playlists: vec![playlist],
        playback: PlaybackSnapshot {
            current_track: Some(duplicate),
            shuffle: true,
            context: PlaybackContext::Playlist {
                playlist_id,
                // Playback order is deliberately not canonical under shuffle.
                ordered_track_ids: vec![
                    TrackId::new("middle"),
                    TrackId::new("musicapp:persistent:DUPLICATE"),
                    TrackId::new("last"),
                    TrackId::new("musicapp:persistent:DUPLICATE"),
                ],
                current_index: 1,
                current_source_index: 2,
                complete: true,
            },
            ..PlaybackSnapshot::default()
        },
        ..AppState::default()
    };

    assert!(reduce(&mut state, Action::JumpToPlayingTrack).is_empty());
    assert_eq!(
        state.content_selection, 2,
        "must not select the first duplicate"
    );
    assert!(matches!(
        state.playback.context,
        PlaybackContext::Playlist {
            current_index: 1,
            current_source_index: 2,
            ..
        }
    ));
}

#[test]
fn jump_to_playing_playlist_track_is_a_silent_no_op_for_other_or_unloaded_playlists() {
    let active_id = PlaylistId::new("active");
    let other_id = PlaylistId::new("other");
    let mut state = AppState {
        navigation: apple_music_tui::state::NavigationState {
            active: Route::PlaylistDetail {
                playlist_id: active_id.clone(),
            },
            history: Vec::new(),
        },
        content_selection: 1,
        playlists: vec![playlist(&active_id.as_str(), "Duplicate Name")],
        playback: PlaybackSnapshot {
            context: PlaybackContext::Playlist {
                playlist_id: other_id,
                ordered_track_ids: vec![TrackId::new("other-track")],
                current_index: 0,
                current_source_index: 0,
                complete: true,
            },
            ..PlaybackSnapshot::default()
        },
        ..AppState::default()
    };
    assert!(reduce(&mut state, Action::JumpToPlayingTrack).is_empty());
    assert_eq!(state.content_selection, 1);

    state.playback.context = PlaybackContext::NoContext;
    assert!(reduce(&mut state, Action::JumpToPlayingTrack).is_empty());
    assert_eq!(state.content_selection, 1);

    state.playback.context = PlaybackContext::Playlist {
        playlist_id: active_id,
        ordered_track_ids: vec![TrackId::new("not-loaded")],
        current_index: 0,
        current_source_index: 5,
        complete: false,
    };
    assert!(reduce(&mut state, Action::JumpToPlayingTrack).is_empty());
    assert_eq!(state.content_selection, 1);
}

#[test]
fn focus_left_returns_from_playlist_detail() {
    let mut state = AppState {
        navigation: apple_music_tui::state::NavigationState {
            active: Route::PlaylistDetail {
                playlist_id: PlaylistId::new("playlist-one"),
            },
            history: vec![apple_music_tui::state::NavigationEntry {
                route: Route::Section(Screen::Playlists),
                content_selection: 0,
            }],
        },
        focus: Focus::Content,
        ..AppState::default()
    };

    reduce(&mut state, Action::FocusLeft);

    assert_eq!(state.navigation.active, Route::Section(Screen::Playlists));
    assert_eq!(state.focus, Focus::Content);
}

#[test]
fn quit_sets_state_without_emitting_commands() {
    let mut state = AppState::default();
    let commands = reduce(&mut state, Action::Quit);

    assert!(state.should_quit);
    assert!(commands.is_empty());
}

#[test]
fn help_is_modal_and_q_closes_it_without_quitting() {
    let mut state = AppState::default();
    reduce(&mut state, Action::ToggleHelp);
    assert!(state.help_open);
    assert!(!state.should_quit);

    reduce(&mut state, Action::Quit);
    assert!(!state.help_open);
    assert!(!state.should_quit);

    reduce(&mut state, Action::Quit);
    assert!(state.should_quit);
}

#[test]
fn help_toggle_back_and_navigation_control_its_scroll_state() {
    let mut state = AppState::default();
    reduce(&mut state, Action::ToggleHelp);
    reduce(&mut state, Action::MoveDown);
    reduce(&mut state, Action::PageDown);
    assert_eq!(state.help_scroll, 2);
    reduce(&mut state, Action::JumpToStart);
    assert_eq!(state.help_scroll, 0);
    reduce(&mut state, Action::Back);
    assert!(!state.help_open);
}

#[test]
fn unsupported_actions_do_not_emit_commands() {
    let mut state = AppState::default();
    let commands = reduce(&mut state, Action::PlayPause);

    assert!(commands.is_empty());
    assert!(state.notification.is_some());
}

#[test]
fn ready_backend_enables_semantic_playback_command() {
    let mut state = AppState::default();
    reduce(
        &mut state,
        Action::Backend(Box::new(BackendEvent::Ready {
            name: "Mock Music",
            capabilities: Capabilities::mock(),
            snapshot: BackendSnapshot::default(),
        })),
    );

    assert_eq!(
        reduce(&mut state, Action::Play),
        vec![Command::Backend(BackendCommand::Play)]
    );
    assert_eq!(
        reduce(&mut state, Action::Pause),
        vec![Command::Backend(BackendCommand::Pause)]
    );
    assert_eq!(
        reduce(&mut state, Action::PlayPause),
        vec![Command::Backend(BackendCommand::PlayPause)]
    );
}

#[test]
fn queue_focus_is_only_reachable_when_the_queue_pane_is_visible() {
    let mut state = AppState {
        capabilities: Capabilities::mock(),
        ..AppState::default()
    };
    reduce(&mut state, Action::FocusRight);
    reduce(&mut state, Action::FocusRight);
    assert_eq!(state.focus, Focus::Content);

    reduce(
        &mut state,
        Action::Resize {
            width: 120,
            height: 30,
        },
    );
    reduce(&mut state, Action::FocusRight);
    assert_eq!(state.focus, Focus::Queue);

    reduce(
        &mut state,
        Action::Resize {
            width: 80,
            height: 24,
        },
    );
    assert_eq!(state.focus, Focus::Content);
}

#[test]
fn startup_backend_error_becomes_a_view_error() {
    let mut state = AppState::default();
    reduce(
        &mut state,
        Action::Backend(Box::new(BackendEvent::Error("offline".to_owned()))),
    );

    assert_eq!(
        state.backend_status,
        BackendStatus::Error {
            message: "offline".to_owned()
        }
    );
    assert_eq!(state.view_status, ViewStatus::Error("offline".to_owned()));
}

#[test]
fn backend_snapshot_replaces_stale_playback_metadata_and_position() {
    let old_track = Track::new(
        "old-track",
        "Old Title",
        "Old Artist",
        "Old Album",
        Duration::from_secs(180),
    );
    let new_track = Track::new(
        "new-track",
        "New Title",
        "New Artist",
        "New Album",
        Duration::from_secs(240),
    );
    let mut state = AppState {
        playback: PlaybackSnapshot {
            status: PlaybackStatus::Paused,
            current_track: Some(old_track),
            position: Duration::from_secs(10),
            ..PlaybackSnapshot::default()
        },
        ..AppState::default()
    };

    reduce(
        &mut state,
        Action::Backend(Box::new(BackendEvent::Update(BackendUpdate::Snapshot(
            BackendSnapshot {
                playback: PlaybackSnapshot {
                    status: PlaybackStatus::Playing,
                    current_track: Some(new_track),
                    position: Duration::from_millis(12_500),
                    ..PlaybackSnapshot::default()
                },
                ..BackendSnapshot::default()
            },
        )))),
    );

    assert_eq!(state.playback.status, PlaybackStatus::Playing);
    assert_eq!(state.playback.position, Duration::from_millis(12_500));
    let track = state.playback.current_track.expect("updated track");
    assert_eq!(track.title, "New Title");
    assert_eq!(track.artist, "New Artist");
    assert_eq!(track.album, "New Album");
}

#[test]
fn initial_backend_event_populates_real_playback_state() {
    let track = Track::new(
        "initial-track",
        "Initial Title",
        "Initial Artist",
        "Initial Album",
        Duration::from_secs(200),
    );
    let mut state = AppState::default();

    reduce(
        &mut state,
        Action::Backend(Box::new(BackendEvent::Ready {
            name: "Music.app",
            capabilities: Capabilities::macos(),
            snapshot: BackendSnapshot {
                playback: PlaybackSnapshot {
                    status: PlaybackStatus::Playing,
                    current_track: Some(track),
                    position: Duration::from_millis(12_500),
                    ..PlaybackSnapshot::default()
                },
                ..BackendSnapshot::default()
            },
        })),
    );

    assert_eq!(state.playback.status, PlaybackStatus::Playing);
    assert_eq!(state.playback.position, Duration::from_millis(12_500));
    let track = state.playback.current_track.expect("initial track");
    assert_eq!(track.title, "Initial Title");
    assert_eq!(track.artist, "Initial Artist");
    assert_eq!(track.album, "Initial Album");
}

#[test]
fn post_startup_backend_error_clears_connected_health() {
    let mut state = AppState {
        backend_status: BackendStatus::Ready {
            name: "Music.app".to_owned(),
        },
        ..AppState::default()
    };

    reduce(
        &mut state,
        Action::Backend(Box::new(BackendEvent::Error(
            "Backend worker stopped unexpectedly".to_owned(),
        ))),
    );

    assert_eq!(
        state.backend_availability,
        apple_music_tui::domain::BackendAvailability::Error(
            "Backend worker stopped unexpectedly".to_owned()
        )
    );
}

fn playlist(id: &str, name: &str) -> Playlist {
    Playlist::new(
        id,
        name,
        Some(format!("{name} description")),
        vec![
            Track::new(
                &format!("{id}-track-one"),
                "Track One",
                "Artist",
                "Album",
                Duration::from_secs(180),
            ),
            Track::new(
                &format!("{id}-track-two"),
                "Track Two",
                "Artist",
                "Album",
                Duration::from_secs(210),
            ),
        ],
    )
}

