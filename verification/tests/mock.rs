use apple_music_tui::backend::{BackendCommand, BackendUpdate};
use apple_music_tui::capabilities::Capability;
use apple_music_tui::domain::{
    AlbumId, BackendSnapshot, Duration, PlaybackContext, PlaybackStatus, PlaylistId, RepeatMode, Track, TrackId,
};
use apple_music_tui::mock::MockMusicBackend;

fn snapshot(update: BackendUpdate) -> BackendSnapshot {
    let BackendUpdate::Snapshot(snapshot) = update else {
        panic!("mock backend must emit full snapshots")
    };
    snapshot
}

#[test]
fn playback_commands_change_real_mock_state() {
    let mut backend = MockMusicBackend::new();
    assert!(backend.capabilities().supports(Capability::Playback));

    let playing = snapshot(backend.execute(BackendCommand::Play).expect("mock play succeeds"));
    assert_eq!(playing.playback.status, PlaybackStatus::Playing);

    let advanced = snapshot(
        backend
            .tick(Duration::from_secs(2))
            .expect("mock tick succeeds")
            .expect("playing backend emits a snapshot"),
    );
    assert_eq!(advanced.playback.position, Duration::from_secs(2));

    let paused = snapshot(backend.execute(BackendCommand::Pause).expect("mock pause succeeds"));
    assert_eq!(paused.playback.status, PlaybackStatus::Paused);
    assert!(backend.tick(Duration::from_secs(2)).expect("paused tick succeeds").is_none());

    let toggled = snapshot(backend.execute(BackendCommand::PlayPause).expect("mock toggle succeeds"));
    assert_eq!(toggled.playback.status, PlaybackStatus::Playing);

    let sought = snapshot(backend.execute(BackendCommand::SeekBy(30)).expect("mock seek succeeds"));
    assert_eq!(sought.playback.position, Duration::from_secs(32));

    let next = snapshot(backend.execute(BackendCommand::Next).expect("mock next succeeds"));
    assert_eq!(next.playback.current_track.as_ref().expect("current track").id.as_str(), "mock-002");

    let previous = snapshot(backend.execute(BackendCommand::Previous).expect("mock previous succeeds"));
    assert_eq!(previous.playback.current_track.as_ref().expect("current track").id.as_str(), "mock-001");

    let favorited = snapshot(backend.execute(BackendCommand::ToggleFavoriteCurrent).expect("mock favorite succeeds"));
    assert!(favorited.playback.current_track.expect("current track").is_favorite);

    let repeated = snapshot(backend.execute(BackendCommand::CycleRepeat).expect("mock repeat succeeds"));
    assert_eq!(repeated.playback.repeat, RepeatMode::All);
}

#[test]
fn queue_operations_mutate_the_queue() {
    let mut backend = MockMusicBackend::new();
    let original_length = backend.snapshot().expect("snapshot").queue.len();
    let extra = Track::new("mock-extra", "Extra", "Fixture", "Tests", Duration::from_secs(60));

    let appended = snapshot(backend.execute(BackendCommand::Enqueue(Box::new(extra))).expect("enqueue"));
    assert_eq!(appended.queue.len(), original_length + 1);
    assert_eq!(appended.queue[original_length].id.as_str(), "mock-queue-006");

    let moved = snapshot(
        backend
            .execute(BackendCommand::MoveQueueItem { from: original_length, to: 0 })
            .expect("reorder"),
    );
    assert_eq!(moved.queue[0].track.id.as_str(), "mock-extra");

    let removed = snapshot(backend.execute(BackendCommand::RemoveQueueItem(0)).expect("remove"));
    assert_eq!(removed.queue.len(), original_length);
}

#[test]
fn snapshot_exposes_navigable_mock_playlists() {
    let backend = MockMusicBackend::new();
    let snapshot = backend.snapshot().expect("snapshot");

    assert_eq!(snapshot.library.len(), 6);
    assert_eq!(snapshot.artists.len(), 3);
    assert_eq!(snapshot.albums.len(), 3);
    assert_eq!(snapshot.stations.len(), 3);
    assert_eq!(snapshot.playlists.len(), 5);
    assert_eq!(snapshot.artists[0].name, "The Asyncs");
    assert_eq!(snapshot.albums[0].title, "Event Loop");
    assert_eq!(snapshot.stations[0].name, "Apple Music 1 (Mock)");
    assert_eq!(snapshot.playlists[0].name, "Terminal Focus");
    assert!(snapshot.playlists[0].description.is_some());
    assert_eq!(snapshot.playlists[0].tracks.len(), 3);
    assert_eq!(snapshot.recently_played.len(), 2);
    assert_eq!(snapshot.recently_played[0].play_count, Some(12));
}

#[test]
fn play_track_selects_a_mock_library_song() {
    let mut backend = MockMusicBackend::new();
    let snapshot = snapshot(
        backend
            .execute(BackendCommand::PlayTrack(TrackId::new("mock-004")))
            .expect("play selected track"),
    );
    assert_eq!(snapshot.playback.status, PlaybackStatus::Playing);
    assert_eq!(snapshot.playback.current_track.expect("current track").id, TrackId::new("mock-004"));
    assert_eq!(snapshot.playback.position, Duration::zero());
}

#[test]
fn play_album_replaces_queue_in_supplied_track_order() {
    let mut backend = MockMusicBackend::new();
    let snapshot = snapshot(
        backend
            .execute(BackendCommand::PlayAlbum {
                album_id: AlbumId::new("mock-album-event-loop"),
                track_ids: vec![TrackId::new("mock-003"), TrackId::new("mock-001")],
            })
            .expect("play mock album"),
    );
    assert_eq!(snapshot.playback.status, PlaybackStatus::Playing);
    assert_eq!(
        snapshot.queue.iter().map(|entry| entry.track.id.clone()).collect::<Vec<_>>(),
        vec![TrackId::new("mock-003"), TrackId::new("mock-001")]
    );
    assert_eq!(snapshot.playback.current_track.expect("first album track").id, TrackId::new("mock-003"));
}

#[test]
fn selected_mock_playlist_track_keeps_ordered_context_and_advances() {
    let mut backend = MockMusicBackend::new();
    let ordered_track_ids = vec![TrackId::new("mock-001"), TrackId::new("mock-003"), TrackId::new("mock-005")];
    let started = snapshot(
        backend
            .execute(BackendCommand::PlayPlaylistTrack {
                playlist_id: PlaylistId::new("mock-playlist-terminal-focus"),
                ordered_track_ids: ordered_track_ids.clone(),
                selected_index: 1,
                complete: true,
            })
            .expect("start mock playlist context"),
    );
    assert!(matches!(started.playback.context, PlaybackContext::Playlist { current_index: 1, .. }));
    assert_eq!(started.playback.current_track.expect("selected track").id, TrackId::new("mock-003"));

    let advanced = snapshot(
        backend.tick(Duration::from_secs(264)).expect("mock tick").expect("mock transition"),
    );
    assert_eq!(advanced.playback.current_track.expect("next track").id, TrackId::new("mock-005"));
    assert_eq!(
        advanced.playback.context,
        PlaybackContext::Playlist {
            playlist_id: PlaylistId::new("mock-playlist-terminal-focus"),
            ordered_track_ids,
            current_index: 2,
            current_source_index: 2,
            complete: true,
        }
    );
}

#[test]
fn stop_clears_mock_playback_context() {
    let mut backend = MockMusicBackend::new();
    backend.execute(BackendCommand::Play).expect("play");
    let BackendUpdate::Stopped { playback, .. } = backend.execute(BackendCommand::Stop).expect("stop") else {
        panic!("stop must acknowledge shutdown");
    };
    assert_eq!(playback.status, PlaybackStatus::Stopped);
    assert_eq!(playback.context, PlaybackContext::NoContext);
}

#[test]
fn mock_errors_leave_the_state_unchanged() {
    let mut backend = MockMusicBackend::new();
    let before = backend.snapshot().expect("snapshot");
    assert!(backend.execute(BackendCommand::PlayTrack(TrackId::new("missing"))).is_err());
    assert!(backend.execute(BackendCommand::PlayPlaylist(PlaylistId::new("missing"))).is_err());
    assert!(backend.execute(BackendCommand::MoveQueueItem { from: 0, to: 99 }).is_err());
    assert!(backend.execute(BackendCommand::OpenPlayer).is_err());
    let after = backend.snapshot().expect("snapshot");
    assert_eq!(before.queue, after.queue);
    assert_eq!(before.playback.current_track, after.playback.current_track);
}

#[test]
fn seeking_stays_within_the_track_and_the_end_advances() {
    let mut backend = MockMusicBackend::new();
    backend.execute(BackendCommand::Play).expect("play");
    backend.execute(BackendCommand::SeekBy(-10)).expect("seek back");
    assert_eq!(backend.playback.position, Duration::zero());
    backend.execute(BackendCommand::SeekBy(10_000)).expect("seek past end");
    assert_eq!(backend.playback.position, Duration::from_secs(238));
    backend.tick(Duration::from_millis(1)).expect("tick");
    assert_eq!(backend.current_index, 1);
    assert_eq!(backend.playback.position, Duration::zero());
}
