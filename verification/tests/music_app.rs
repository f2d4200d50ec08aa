use apple_music_tui::domain::{BackendAvailability, PlaybackStatus, PlaylistId, RepeatMode, TrackId};
use apple_music_tui::local_library::raw_track_to_domain;
use apple_music_tui::music_app::{
    cache_path_from, classify_automation_error, classify_script_error, normalize_identifier,
    persistent_playlist_selector, persistent_track_selector, playback_from_raw, playlist_id, raw_playlist_to_domain,
    track_selector, AutomationError, BackendFailure, RawPlaylist, RawScriptError,
};
use apple_music_tui::domain::PlaylistKind;
use apple_music_tui::script::TrackSelector;

#[test]
fn identities_round_trip_through_their_selectors() {
    let track = TrackId::new("musicapp:persistent:ABC123");
    assert_eq!(persistent_track_selector(&track), Some(("persistentID", "ABC123")));
    let database = TrackId::new("musicapp:database:42");
    assert_eq!(persistent_track_selector(&database), Some(("databaseID", "42")));
    assert_eq!(persistent_track_selector(&TrackId::new("mock-001")), None);
    assert_eq!(track_selector(&database).expect("selector"), TrackSelector::DatabaseId("42".to_owned()));
    assert!(track_selector(&TrackId::new("mock-001")).is_err());
    let playlist = playlist_id("P1");
    assert_eq!(playlist.as_str(), "musicapp:playlist:persistent:P1");
    assert_eq!(persistent_playlist_selector(&playlist), Some("P1"));
    assert_eq!(persistent_playlist_selector(&PlaylistId::new("mock-playlist")), None);
}

#[test]
fn placeholder_identifiers_are_missing() {
    assert_eq!(normalize_identifier("  ABC  ").as_deref(), Some("ABC"));
    for placeholder in ["", "  ", "null", "NULL", "undefined", "Missing Value", "0", "-1"] {
        assert_eq!(normalize_identifier(placeholder), None, "{placeholder}");
    }
    assert_eq!(normalize_identifier("00").as_deref(), Some("00"));
}

#[test]
fn listed_playlists_map_kinds_folders_and_blank_descriptions() {
    let folder = raw_playlist_to_domain(RawPlaylist {
        persistent_id: "F".to_owned(),
        name: "Work".to_owned(),
        description: Some("   ".to_owned()),
        kind: Some("folderPlaylist".to_owned()),
        smart: false,
        parent_persistent_id: None,
    });
    assert_eq!(folder.kind, PlaylistKind::Folder);
    assert_eq!(folder.description, None);
    let smart = raw_playlist_to_domain(RawPlaylist {
        persistent_id: "S".to_owned(),
        name: "Recent".to_owned(),
        description: Some("Rules".to_owned()),
        kind: Some("userPlaylist".to_owned()),
        smart: true,
        parent_persistent_id: Some("F".to_owned()),
    });
    assert_eq!(smart.kind, PlaylistKind::Smart);
    assert_eq!(smart.parent_id, Some(PlaylistId::new("musicapp:playlist:persistent:F")));
    assert_eq!(smart.id.as_str(), "musicapp:playlist:persistent:S");
}

#[test]
fn script_and_automation_errors_are_classified() {
    let denied = RawScriptError { number: Some(-1743), message: "nope".to_owned() };
    assert_eq!(classify_script_error(&denied), BackendFailure::PermissionDenied);
    let stopped = RawScriptError { number: Some(-600), message: "Application isn't running".to_owned() };
    assert_eq!(classify_script_error(&stopped), BackendFailure::NotRunning);
    let other = RawScriptError { number: None, message: "Not Authorized to send Apple events".to_owned() };
    assert_eq!(classify_script_error(&other), BackendFailure::PermissionDenied);
    assert_eq!(classify_automation_error(&AutomationError::UnsupportedPlatform), BackendFailure::Unavailable);
    let failed = AutomationError::Failed { code: Some(1), stderr: "boom".to_owned() };
    assert_eq!(
        classify_automation_error(&failed),
        BackendFailure::Error("osascript failed with status Some(1): boom".to_owned())
    );
}

#[test]
fn cache_path_follows_the_platform_cache_folder() {
    assert_eq!(
        cache_path_from(None, Some("/Users/me"), true).as_deref(),
        Some("/Users/me/Library/Caches/apple-music-tui/musicapp-library-v1.json")
    );
    assert_eq!(
        cache_path_from(Some("/var/cache"), Some("/home/me"), false).as_deref(),
        Some("/var/cache/apple-music-tui/musicapp-library-v1.json")
    );
    assert_eq!(cache_path_from(None, None, false), None);
}

fn bare_raw_track(persistent_id: &str, name: &str, seconds: u64) -> apple_music_tui::local_library::RawTrack {
    apple_music_tui::local_library::RawTrack {
        persistent_id: Some(persistent_id.to_owned()),
        database_id: None,
        name: Some(name.to_owned()),
        artist: Some("Artist".to_owned()),
        album: Some("Album".to_owned()),
        album_artist: None,
        composer: None,
        genre: None,
        duration: apple_music_tui::domain::Duration::from_secs(seconds),
        favorited: None,
        disliked: None,
        year: None,
        track_number: None,
        disc_number: None,
        played_count: None,
        skipped_count: None,
        date_added: None,
        played_date: None,
        skipped_date: None,
        modification_date: None,
        release_date: None,
        rating: None,
        enabled: None,
        cloud_status: None,
        media_kind: None,
    }
}

fn player(state: Option<&str>) -> apple_music_tui::music_app::RawPlayerState {
    apple_music_tui::music_app::RawPlayerState {
        running: true,
        state: state.map(str::to_owned),
        position: apple_music_tui::domain::Duration::from_millis(12_500),
        volume: 72,
        muted: None,
        shuffle: Some(true),
        repeat_mode: Some("all".to_owned()),
        track: Some(bare_raw_track("ABC", "Track", 180)),
    }
}

#[test]
fn maps_external_playback_state_without_a_local_boolean() {
    let raw = player(Some("playing"));
    let (_, playback) = apple_music_tui::music_app::playback_from_raw(&raw, None);
    assert_eq!(playback.status, apple_music_tui::domain::PlaybackStatus::Playing);
    assert_eq!(
        playback.current_track.expect("track").id.as_str(),
        "musicapp:persistent:ABC"
    );
}

#[test]
fn player_state_words_decide_status_and_availability() {

    let (availability, playback) = playback_from_raw(&player(Some("  Fast Forwarding ")), None);
    assert_eq!(availability, BackendAvailability::Available);
    assert_eq!(playback.status, PlaybackStatus::Playing);
    assert_eq!(playback.volume, 72);
    assert!(!playback.muted);
    assert!(playback.shuffle);
    assert_eq!(playback.repeat, RepeatMode::All);
    assert_eq!(playback.position, apple_music_tui::domain::Duration::from_millis(12_500));

    let (availability, playback) = playback_from_raw(&player(Some("Paused")), None);
    assert_eq!(availability, BackendAvailability::Available);
    assert_eq!(playback.status, PlaybackStatus::Paused);

    let (availability, playback) = playback_from_raw(&player(Some(" Buffering ")), None);
    assert_eq!(
        availability,
        BackendAvailability::Error("unknown Music.app player state 'buffering'".to_owned())
    );
    assert_eq!(playback.status, PlaybackStatus::Stopped);

    let (availability, _) = playback_from_raw(&player(None), None);
    assert_eq!(
        availability,
        BackendAvailability::Error("Music.app response omitted player state".to_owned())
    );

    let mut stopped = player(Some("stopped"));
    stopped.running = false;
    let (availability, playback) = playback_from_raw(&stopped, None);
    assert_eq!(availability, BackendAvailability::NotRunning);
    assert!(playback.current_track.is_none());
    assert_eq!(playback.volume, 50);
}

#[test]
fn a_cached_track_is_kept_over_the_reported_one() {

    let cached = raw_track_to_domain(bare_raw_track("CACHED", "Cached", 200));
    let (_, playback) = playback_from_raw(&player(Some("playing")), Some(cached.clone()));
    assert_eq!(playback.current_track, Some(cached));
    let mut one = player(Some("playing"));
    one.repeat_mode = Some("ONE".to_owned());
    let (_, playback) = playback_from_raw(&one, None);
    assert_eq!(playback.repeat, apple_music_tui::domain::RepeatMode::Off);
}
