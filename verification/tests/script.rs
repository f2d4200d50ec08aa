use apple_music_tui::script::{build_script, ScriptRequest, TrackSelector};

#[test]
fn commands_are_constructed_from_typed_values() {
    let seek = build_script(&ScriptRequest::SeekBy(-5));
    let volume = build_script(&ScriptRequest::SetVolume(73));
    let selected = build_script(&ScriptRequest::PlayTrack(TrackSelector::PersistentId(
        "ABC\"; malicious()".to_owned(),
    )));

    assert!(seek.contains("playerPosition()) + -5"));
    assert!(volume.contains("Math.min(100, 73)"));
    assert!(selected.contains(r#"persistentID: "ABC\"; malicious()""#));
    assert!(!selected.contains("persistentID: ABC"));
    assert!(!seek.contains("sh -c"));

    let artwork = build_script(&ScriptRequest::LoadTrackArtwork {
        track: TrackSelector::DatabaseId("42\"; malicious()".to_owned()),
        max_bytes: 1_024,
    });
    assert!(artwork.contains(r#"databaseID: "42\"; malicious()""#));
    assert!(artwork.contains("encodedBytes > 1024"));
    assert!(!artwork.contains("databaseID: 42"));
    assert!(artwork.contains("music.currentTrack()"));
    assert!(artwork.contains("resolver: 'current_track'"));
    assert!(artwork.contains("databaseID_library"));
    assert!(artwork.contains("artworkCurrentId !== null"));
    assert!(artwork.contains("artworkAttempts"));

    let playlist_track = build_script(&ScriptRequest::PlayPlaylistTrackOnce {
        playlist_persistent_id: "P\"; malicious()".to_owned(),
        track: TrackSelector::PersistentId("T\"; malicious()".to_owned()),
    });
    assert!(playlist_track.contains(r#"persistentID: "P\"; malicious()""#));
    assert!(playlist_track.contains(r#"persistentID: "T\"; malicious()""#));
    assert!(playlist_track.contains("music.play(selectedTracks[0], {once: true})"));

    let transition = build_script(&ScriptRequest::PollPlaylistTransition {
        playlist_persistent_id: "P\"; malicious()".to_owned(),
        expected: TrackSelector::PersistentId("FROM\"; malicious()".to_owned()),
        target: TrackSelector::DatabaseId("42\"; malicious()".to_owned()),
        max_wait_ms: 2_000,
    });
    assert!(transition.contains(r#"initialPersistentId === "FROM\"; malicious()""#));
    assert!(transition.contains(r#"databaseID: "42\"; malicious()""#));
    assert!(transition.contains("Date.now() + 2000"));
    assert!(transition.contains("delay(0.05)"));
    assert!(transition.contains("result.sessionAdvanced = true"));

    let removal = build_script(&ScriptRequest::RemovePlaylistTrack {
        playlist_persistent_id: "PLAYLIST-123".to_owned(),
        index: 2,
        expected: TrackSelector::PersistentId("TRACK-456".to_owned()),
    });
    assert!(removal.contains("music.userPlaylists.whose({persistentID: \"PLAYLIST-123\"})"));
    assert!(removal.contains("editableTracks[2]"));
    assert!(removal.contains("editableTrack.persistentID()) !== \"TRACK-456\""));
    assert!(removal.contains("music.delete(editableTrack);"));
    assert!(!removal.contains("\\\\\n"));
}

#[test]
fn polling_uses_correct_music_app_identifier_acronyms() {
    let poll = build_script(&ScriptRequest::Poll);
    assert!(poll.contains("track.persistentID()"));
    assert!(poll.contains("track.databaseID()"));
    assert!(!poll.contains("track.persistentId()"));
    assert!(poll.contains("includeFavorite = false"));
    assert!(build_script(&ScriptRequest::FullState).contains("includeFavorite = true"));
}

#[test]
fn library_requests_are_bounded_and_read_selected_properties() {
    let script = build_script(&ScriptRequest::LibraryBatch {
        start: 200,
        limit: 200,
        total: Some(12_997),
    });
    assert!(script.contains("readTrackBatch(music.libraryPlaylists()[0], 200, 200, 12997)"));
    assert!(script.contains("tracks.albumArtist()"));
    assert!(script.contains("tracks.cloudStatus()"));
    assert!(!script.contains("properties()"));
}

#[test]
fn opening_the_player_runs_before_the_running_check() {
    let open = build_script(&ScriptRequest::OpenPlayer);
    let activate = open.find("music.activate();").expect("activation statement");
    let check = open.find("result.running = Boolean(music.running());").expect("running check");
    assert!(activate < check);
    let play = build_script(&ScriptRequest::Play);
    let play_at = play.find("music.play();").expect("play statement");
    let check_at = play.find("result.running = Boolean(music.running());").expect("running check");
    assert!(check_at < play_at);
}

#[test]
fn playlist_batches_quote_the_playlist_and_fall_back_to_the_live_total() {
    let script = build_script(&ScriptRequest::PlaylistBatch {
        playlist_persistent_id: "ABCDEF".to_owned(),
        start: 40,
        limit: 200,
        total: None,
    });
    assert!(script.contains("music.playlists.whose({persistentID: \"ABCDEF\"})()"));
    assert!(script.contains("readTrackBatch(batchPlaylists[0], 40, 200, batchPlaylists[0].tracks().length)"));
    assert!(script.contains("playlistBatch.playlistPersistentId = \"ABCDEF\";"));
    let discover = build_script(&ScriptRequest::DiscoverPlaylists);
    assert!(discover.contains("music.userPlaylists.properties()"));
    assert!(build_script(&ScriptRequest::SeekBy(i64::MIN)).contains("+ -9223372036854775808);"));
}
