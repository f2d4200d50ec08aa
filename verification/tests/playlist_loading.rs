use apple_music_tui::domain::{Duration, Playlist, PlaylistId, PlaylistLoadState, Track};
use apple_music_tui::playlist_loading::{
    fill_playlist_batch, playlist_batch_limit, playlist_batch_step, BatchOutcome, PendingPlaylistLoad,
};

fn pending(next: usize) -> PendingPlaylistLoad {
    PendingPlaylistLoad { id: PlaylistId::new("musicapp:playlist:persistent:P"), next, total: None }
}

fn track(id: &str) -> Track {
    Track::new(id, id, "Artist", "Album", Duration::from_secs(60))
}

#[test]
fn first_batch_is_small_and_later_batches_are_larger() {
    assert_eq!(playlist_batch_limit(&pending(0)), 40);
    assert_eq!(playlist_batch_limit(&pending(40)), 200);
}

#[test]
fn a_batch_advances_the_load_until_the_reported_total() {
    assert_eq!(
        playlist_batch_step(&pending(0), 0, 40, 100),
        BatchOutcome::Progress {
            loaded: 40,
            complete: false,
            next: Some(PendingPlaylistLoad {
                id: PlaylistId::new("musicapp:playlist:persistent:P"),
                next: 40,
                total: Some(100),
            }),
        }
    );
    assert_eq!(
        playlist_batch_step(&pending(40), 40, 200, 100),
        BatchOutcome::Progress { loaded: 100, complete: true, next: None }
    );
    assert_eq!(
        playlist_batch_step(&pending(0), 0, 0, 0),
        BatchOutcome::Progress { loaded: 0, complete: true, next: None }
    );
}

#[test]
fn an_empty_batch_before_the_total_fails() {
    assert_eq!(
        playlist_batch_step(&pending(40), 40, 0, 100),
        BatchOutcome::Failed("Music.app returned no tracks at offset 40 before the reported total 100".to_owned())
    );
}

#[test]
fn batches_replace_from_the_start_and_append_later() {
    let mut playlist = Playlist::new("p", "P", None, vec![track("old")]);
    fill_playlist_batch(&mut playlist, 0, &vec![track("a"), track("b")], 2, 3, false);
    assert_eq!(playlist.tracks.iter().map(|t| t.id.as_str()).collect::<Vec<_>>(), vec!["a", "b"]);
    assert_eq!(playlist.track_count, 3);
    assert_eq!(playlist.contents_state, PlaylistLoadState::PartiallyLoaded { loaded: 2, total: 3 });
    fill_playlist_batch(&mut playlist, 2, &vec![track("c")], 3, 3, true);
    assert_eq!(playlist.tracks.iter().map(|t| t.id.as_str()).collect::<Vec<_>>(), vec!["a", "b", "c"]);
    assert_eq!(playlist.contents_state, PlaylistLoadState::Loaded { total: 3 });
    fill_playlist_batch(&mut playlist, 0, &Vec::new(), 0, 0, true);
    assert_eq!(playlist.contents_state, PlaylistLoadState::Empty);
    assert!(playlist.tracks.is_empty());
}
