use apple_music_tui::domain::{PlaybackContext, PlaylistId, RepeatMode, TrackId};
use apple_music_tui::session::{create_playlist_session, PlaybackSession, SessionAdvance};

const SEED: u64 = 0x5eed_1234_abcd_0042;

fn ids(names: &[&str]) -> Vec<TrackId> {
    names
        .iter()
        .map(|id| TrackId::new(&format!("musicapp:persistent:{id}")))
        .collect()
}

fn numbered(count: usize) -> Vec<TrackId> {
    (1..=count)
        .map(|index| TrackId::new(&format!("musicapp:persistent:T{index}")))
        .collect()
}

fn session_ids(session: &PlaybackSession) -> Vec<TrackId> {
    session.tracks.iter().map(|track| track.id.clone()).collect()
}

#[test]
fn selected_playlist_track_initializes_its_real_session_position() {
    let playlist_id = PlaylistId::new("musicapp:playlist:persistent:SHUFFLE");
    let expected_ids = ids(&["T1", "T2", "T3", "T4"]);
    let session = create_playlist_session(playlist_id.clone(), expected_ids.clone(), 2, true, Some(SEED))
        .expect("shuffle session");

    let PlaybackContext::Playlist {
        playlist_id: actual_playlist_id,
        ordered_track_ids,
        current_index,
        complete,
        ..
    } = session.context()
    else {
        panic!("playlist context")
    };
    assert_eq!(actual_playlist_id, playlist_id);
    assert_eq!(current_index, 2);
    assert!(complete);
    assert_eq!(ordered_track_ids[2], expected_ids[2]);
    let mut actual_set = ordered_track_ids;
    actual_set.sort();
    let mut expected_set = expected_ids;
    expected_set.sort();
    assert_eq!(actual_set, expected_set);
}

#[test]
fn playlist_session_initializes_first_and_sixth_selected_tracks() {
    let ids = numbered(6);
    for (selected_index, expected_index) in [(0, 0), (5, 5)] {
        let session = create_playlist_session(
            PlaylistId::new("musicapp:playlist:persistent:P"),
            ids.clone(),
            selected_index,
            true,
            None,
        )
        .expect("create playlist session");
        assert_eq!(session.index, expected_index);
    }
}

#[test]
fn shuffled_playlist_session_keeps_history_current_and_future_for_selected_sixth_track() {
    let session = create_playlist_session(
        PlaylistId::new("musicapp:playlist:persistent:P"),
        numbered(10),
        5,
        true,
        Some(SEED),
    )
    .expect("create shuffled playlist session");
    assert_eq!(session.index, 5);
    assert_eq!(session.tracks[session.index].id, TrackId::new("musicapp:persistent:T6"));
    assert_eq!(
        session.tracks[..session.index]
            .iter()
            .map(|track| track.source_index)
            .collect::<Vec<_>>(),
        vec![0, 1, 2, 3, 4]
    );
    assert!(session.tracks[session.index + 1..].iter().all(|track| track.source_index > 5));
}

#[test]
fn session_position_reconciliation_keeps_shuffled_order_intact() {
    let mut session = create_playlist_session(
        PlaylistId::new("musicapp:playlist:persistent:P"),
        ids(&["A", "B", "C", "D", "E"]),
        0,
        true,
        Some(SEED),
    )
    .expect("create shuffled session");
    let ordered_before = session_ids(&session);
    let target = ordered_before[3].clone();
    session.reconcile_current_track(&target);
    assert_eq!(session_ids(&session), ordered_before);
    assert_eq!(session.index, 3);
    assert!(session.shuffle_enabled);
}

#[test]
fn shuffled_future_never_keeps_the_canonical_order() {
    for seed in 0..64u64 {
        let session = create_playlist_session(
            PlaylistId::new("musicapp:playlist:persistent:P"),
            numbered(3),
            0,
            true,
            Some(seed),
        )
        .expect("session");
        let future = session.tracks[1..].iter().map(|t| t.source_index).collect::<Vec<_>>();
        assert_ne!(future, vec![1, 2]);
        let mut sorted = future.clone();
        sorted.sort();
        assert_eq!(sorted, vec![1, 2]);
    }
}

#[test]
fn unknown_selection_and_foreign_identities_are_rejected() {
    let playlist = PlaylistId::new("musicapp:playlist:persistent:P");
    assert!(create_playlist_session(playlist.clone(), numbered(2), 2, true, None).is_err());
    let mut mixed = numbered(2);
    mixed.insert(1, TrackId::new("mock-001"));
    assert!(create_playlist_session(playlist.clone(), mixed.clone(), 1, true, None).is_err());
    let session = create_playlist_session(playlist, mixed, 2, false, None).expect("session");
    assert_eq!(session.tracks.len(), 2);
    assert_eq!(session.index, 1);
    assert_eq!(session.tracks[1].source_index, 2);
}

#[test]
fn next_index_follows_repeat_modes_and_completeness() {
    let playlist = PlaylistId::new("musicapp:playlist:persistent:P");
    let mut session = create_playlist_session(playlist.clone(), numbered(3), 2, false, None).expect("session");
    assert_eq!(session.next_index(RepeatMode::Off), None);
    assert_eq!(session.next_index(RepeatMode::One), Some(2));
    assert_eq!(session.next_index(RepeatMode::All), None);
    assert_eq!(session.automatic_advance(RepeatMode::Off), SessionAdvance::WaitForMore);
    assert!(session.waiting_for_more);
    session.extend(&playlist, &numbered(4), true, SEED);
    assert_eq!(session.tracks.len(), 4);
    assert_eq!(session.next_index(RepeatMode::Off), Some(3));
    let complete = create_playlist_session(playlist, numbered(3), 2, true, None).expect("session");
    assert_eq!(complete.next_index(RepeatMode::All), Some(0));
}

#[test]
fn disabling_shuffle_restores_the_source_order_of_the_future() {
    let playlist = PlaylistId::new("musicapp:playlist:persistent:P");
    let mut session = create_playlist_session(playlist, numbered(6), 1, true, Some(SEED)).expect("session");
    session.reconcile_shuffle(false, SEED);
    assert!(!session.shuffle_enabled);
    assert_eq!(session.shuffle_seed, None);
    assert_eq!(
        session.tracks.iter().map(|t| t.source_index).collect::<Vec<_>>(),
        vec![0, 1, 2, 3, 4, 5]
    );
}
