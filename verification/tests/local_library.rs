use std::hash::{Hash, Hasher};

use apple_music_tui::domain::{DataOrigin, Duration, Track};
use apple_music_tui::local_library::{
    derive_library, raw_track_to_domain, search_track_ids, stable_id, RawTrack,
};

fn raw(id: &str, title: &str, artist: &str, album: &str, added: &str) -> RawTrack {
    RawTrack {
        persistent_id: Some(id.to_owned()),
        database_id: None,
        name: Some(title.to_owned()),
        artist: Some(artist.to_owned()),
        album: Some(album.to_owned()),
        album_artist: Some(artist.to_owned()),
        composer: Some("Composer".to_owned()),
        genre: Some("Ambient".to_owned()),
        duration: Duration::from_millis(180_250),
        favorited: Some(true),
        disliked: Some(false),
        year: Some(2025),
        track_number: Some(1),
        disc_number: Some(1),
        played_count: Some(7),
        skipped_count: Some(2),
        date_added: Some(added.to_owned()),
        played_date: None,
        skipped_date: None,
        modification_date: None,
        release_date: None,
        rating: Some(80),
        enabled: Some(true),
        cloud_status: Some("purchased".to_owned()),
        media_kind: Some("sharedTrack".to_owned()),
    }
}

fn expected_hash_id(namespace: &str, value: &str) -> String {
    let mut hasher = std::collections::hash_map::DefaultHasher::new();
    value.hash(&mut hasher);
    format!("{namespace}:{:016x}", hasher.finish())
}

#[test]
fn converts_rich_metadata_and_keeps_stable_music_identifier() {
    let track = raw_track_to_domain(raw("ABC", "Title", "Artist", "Album", "2025-01-01"));
    assert_eq!(track.id.as_str(), "musicapp:persistent:ABC");
    assert_eq!(track.metadata.genre.as_deref(), Some("Ambient"));
    assert_eq!(track.metadata.play_count, Some(7));
    assert_eq!(track.metadata.origin, DataOrigin::LocalMusicApp);
}

#[test]
fn derives_albums_artists_and_recently_added_deterministically() {
    let tracks = vec![
        raw_track_to_domain(raw("1", "One", "Artist", "Older", "2025-01-01")),
        raw_track_to_domain(raw("2", "Two", "Artist", "Newer", "2026-01-01")),
    ];
    let first = derive_library(&tracks);
    let second = derive_library(&tracks);

    assert_eq!(first, second);
    assert_eq!(first.artists.len(), 1);
    assert_eq!(first.albums.len(), 2);
    assert_eq!(first.recently_added[0].title, "Newer");
}

#[test]
fn album_identity_separates_reissues_and_orders_multiple_discs() {
    let mut disc_two = raw("d2t1", "Disc Two", "Artist", "Shared Title", "2025-01-01");
    disc_two.disc_number = Some(2);
    disc_two.track_number = Some(1);
    let mut disc_one_two = raw("d1t2", "Second", "Artist", "Shared Title", "2025-01-01");
    disc_one_two.disc_number = Some(1);
    disc_one_two.track_number = Some(2);
    let mut disc_one_one = raw("d1t1", "First", "Artist", "Shared Title", "2025-01-01");
    disc_one_one.disc_number = Some(1);
    disc_one_one.track_number = Some(1);
    let mut reissue = raw("reissue", "Reissue", "Artist", "Shared Title", "2026-01-01");
    reissue.year = Some(2026);

    let derived = derive_library(
        &[disc_two, disc_one_two, disc_one_one, reissue]
            .into_iter()
            .map(raw_track_to_domain)
            .collect::<Vec<_>>(),
    );

    assert_eq!(derived.albums.len(), 2);
    let original = derived
        .albums
        .iter()
        .find(|album| album.year == 2025)
        .expect("original album");
    assert_eq!(
        original
            .tracks
            .iter()
            .map(|track| track.title.as_str())
            .collect::<Vec<_>>(),
        vec!["First", "Second", "Disc Two"]
    );
}

#[test]
fn recently_played_uses_latest_real_date_and_deduplicates_track_identity() {
    let mut older = raw("same", "Song", "Artist", "Album", "2025-01-01");
    older.played_date = Some("2026-08-01T10:00:00.000Z".to_owned());
    let mut newer = older.clone();
    newer.played_date = Some("2026-08-03T10:00:00.000Z".to_owned());
    let mut second = raw("second", "Second", "Artist", "Album", "2025-01-01");
    second.played_date = Some("2026-08-02T10:00:00.000Z".to_owned());
    let missing = raw("missing", "Never", "Artist", "Album", "2025-01-01");

    let derived = derive_library(
        &[older, newer, second, missing]
            .into_iter()
            .map(raw_track_to_domain)
            .collect::<Vec<_>>(),
    );

    assert_eq!(derived.recently_played.len(), 2);
    assert_eq!(derived.recently_played[0].title, "Song");
    assert_eq!(
        derived.recently_played[0].played_at,
        "2026-08-03T10:00:00.000Z"
    );
    assert_eq!(derived.recently_played[1].title, "Second");
}

#[test]
fn local_search_matches_across_metadata_fields() {
    let tracks = vec![raw_track_to_domain(raw(
        "1",
        "Quiet Terminal",
        "The Asyncs",
        "Event Loop",
        "2025-01-01",
    ))];
    assert_eq!(
        search_track_ids(&tracks, "asyncs ambient", 10),
        vec![tracks[0].id.clone()]
    );
    assert!(search_track_ids(&tracks, "missing", 10).is_empty());
}

#[test]
fn stable_identities_hash_the_value_under_a_namespace() {
    let id = stable_id("musicapp:album", "artist\u{1f}album\u{1f}2025");
    assert_eq!(id, expected_hash_id("musicapp:album", "artist\u{1f}album\u{1f}2025"));
    assert_eq!(id.len(), "musicapp:album:".len() + 16);
    assert_ne!(id, stable_id("musicapp:album", "artist\u{1f}album\u{1f}2026"));
}

#[test]
fn album_and_artist_identities_hash_their_normalized_keys() {
    let mut track = raw("A1", "Song", "  The   Band ", "Greatest  HITS", "2025-01-01");
    track.year = Some(1999);
    let derived = derive_library(&[raw_track_to_domain(track)]);
    assert_eq!(derived.albums.len(), 1);
    let album = &derived.albums[0];
    assert_eq!(
        album.id.as_str(),
        expected_hash_id("musicapp:album", "the band\u{1f}greatest hits\u{1f}1999")
    );
    assert_eq!(album.artist, "  The   Band ");
    assert_eq!(album.title, "Greatest  HITS");
    assert_eq!(album.year, 1999);
    assert_eq!(derived.artists.len(), 1);
    assert_eq!(derived.artists[0].id.as_str(), expected_hash_id("musicapp:artist", "the band"));
    assert_eq!(derived.artists[0].name, "  The   Band ");
    assert_eq!(derived.artists[0].album_ids, vec![album.id.clone()]);
}

#[test]
fn identifiers_fall_back_to_database_then_to_a_hashed_identity() {
    let mut database = raw("null", "Song", "Artist", "Album", "2025-01-01");
    database.database_id = Some(" 42 ".to_owned());
    assert_eq!(raw_track_to_domain(database).id.as_str(), "musicapp:database:42");

    let mut anonymous = raw("missing value", "  ", "Artist", "Album", "2025-01-01");
    anonymous.database_id = Some("-1".to_owned());
    let track = raw_track_to_domain(anonymous);
    assert_eq!(track.title, "Unknown Track");
    assert_eq!(
        track.id.as_str(),
        expected_hash_id("musicapp:ephemeral", "Unknown Track\u{1f}Artist\u{1f}Album\u{1f}180250")
    );
}

#[test]
fn missing_fields_take_their_defaults_and_out_of_range_values_are_dropped() {
    let mut bare = raw("X", "Song", "Artist", "Album", "  ");
    bare.name = None;
    bare.artist = Some(String::new());
    bare.album = None;
    bare.favorited = None;
    bare.enabled = None;
    bare.year = Some(0);
    bare.track_number = Some(0);
    bare.rating = Some(101);
    let track = raw_track_to_domain(bare);
    assert_eq!(track.title, "Unknown Track");
    assert_eq!(track.artist, "Unknown Artist");
    assert_eq!(track.album, "Unknown Album");
    assert!(!track.is_favorite);
    assert!(track.metadata.enabled);
    assert_eq!(track.metadata.year, None);
    assert_eq!(track.metadata.track_number, None);
    assert_eq!(track.metadata.rating, None);
    assert_eq!(track.metadata.date_added, None);
    assert_eq!(track.duration, Duration::from_millis(180_250));
}

#[test]
fn albums_take_the_earliest_year_and_latest_date_added_and_sort_by_artist_then_title() {
    let mut late = raw("1", "B side", "Zed", "Alpha", "2025-03-01");
    late.year = None;
    let early = raw("2", "A side", "Zed", "Alpha", "2024-01-01");
    let other = raw("3", "Tune", "Abba", "Omega", "2023-01-01");
    let derived = derive_library(
        &[late, early, other].into_iter().map(raw_track_to_domain).collect::<Vec<Track>>(),
    );
    let titles: Vec<&str> = derived.albums.iter().map(|album| album.title.as_str()).collect();
    assert_eq!(titles, vec!["Omega", "Alpha", "Alpha"]);
    let undated = &derived.albums[1];
    assert_eq!(undated.year, 0);
    assert_eq!(undated.added_date, "2025-03-01");
    let dated = &derived.albums[2];
    assert_eq!(dated.year, 2025);
    let names: Vec<&str> = derived.artists.iter().map(|artist| artist.name.as_str()).collect();
    assert_eq!(names, vec!["Abba", "Zed"]);
    assert_eq!(derived.artists[1].top_track_ids.len(), 2);
    assert_eq!(derived.artists[1].top_track_ids[0].as_str(), "musicapp:persistent:1");
    let added: Vec<&str> = derived.recently_added.iter().map(|album| album.added_date.as_str()).collect();
    assert_eq!(added, vec!["2025-03-01", "2024-01-01", "2023-01-01"]);
}

#[test]
fn unicode_whitespace_separates_words_in_normalized_keys() {
    assert_eq!(
        apple_music_tui::text::normalize_search_text("\u{3000}The\u{2003}Band\u{85} "),
        "the band"
    );
}

#[test]
fn every_track_lands_in_exactly_one_album() {
    let tracks: Vec<Track> = [
        raw("1", "One", "A", "X", "2025-01-01"),
        raw("2", "Two", "A", "Y", "2025-01-01"),
        raw("3", "Three", "B", "X", "2025-01-01"),
        raw("4", "Four", "A", "X", "2025-01-01"),
    ]
    .into_iter()
    .map(raw_track_to_domain)
    .collect();
    let derived = derive_library(&tracks);
    for track in &tracks {
        let holding = derived
            .albums
            .iter()
            .filter(|album| album.tracks.iter().any(|t| t.id == track.id))
            .count();
        assert_eq!(holding, 1);
    }
    assert_eq!(derived.albums.iter().map(|album| album.tracks.len()).sum::<usize>(), tracks.len());
}
