//! Loading a playlist's contents from Music.app in batches.
//!
//! The first batch asks for a few tracks so the playlist shows quickly; later batches ask
//! for more.  Each reported batch says where it starts and how many tracks the playlist
//! holds; a batch that brings no tracks before the reported total is a failure.
use vstd::prelude::*;

use crate::domain::{Playlist, PlaylistId, PlaylistLoadState, Track};
use crate::text::{push_decimal, push_text, spec_decimal};

verus! {

/// How many tracks the first batch of a playlist asks for.
pub const PLAYLIST_INITIAL_BATCH_SIZE: usize = 40;

/// How many tracks each later batch of a playlist asks for.
pub const PLAYLIST_CONTINUATION_BATCH_SIZE: usize = 200;

/// A playlist whose contents are being loaded: where the next batch starts, and the total
/// once Music.app reported it.
#[derive(Clone, Debug, PartialEq, Eq)]
pub struct PendingPlaylistLoad {
    pub id: PlaylistId,
    pub next: usize,
    pub total: Option<usize>,
}

/// How many tracks the next batch of a load asks for.
pub fn playlist_batch_limit(load: &PendingPlaylistLoad) -> (r: usize)
    ensures
        r == (if load.next == 0 { PLAYLIST_INITIAL_BATCH_SIZE } else { PLAYLIST_CONTINUATION_BATCH_SIZE }),
{
    if load.next == 0 {
        PLAYLIST_INITIAL_BATCH_SIZE
    } else {
        PLAYLIST_CONTINUATION_BATCH_SIZE
    }
}

/// How many tracks are loaded after a batch of `count` tracks starting at `start`: its
/// end (saturating at the largest `usize`), but no more than the reported total.
pub open spec fn batch_loaded(start: usize, count: usize, total: usize) -> usize {
    let end = if start + count > usize::MAX { usize::MAX } else { (start + count) as usize };
    if end < total {
        end
    } else {
        total
    }
}

/// The message of a batch that brought no tracks before the reported total.
pub open spec fn empty_batch_message(start: usize, total: usize) -> Seq<char> {
    "Music.app returned no tracks at offset "@ + spec_decimal(start as nat) + " before the reported total "@
        + spec_decimal(total as nat)
}

/// What one reported batch means for the load.
#[derive(Clone, Debug, PartialEq, Eq)]
pub enum BatchOutcome {
    /// The load failed with this message and stops.
    Failed(String),
    /// The batch was taken: how many tracks are loaded, whether that is all of them, and
    /// the load still pending, if any.
    Progress { loaded: usize, complete: bool, next: Option<PendingPlaylistLoad> },
}

/// What a batch of `count` tracks starting at `start`, of `total` tracks in all, means for
/// `load`: no tracks before the total is a failure; otherwise the loaded count is
/// `batch_loaded`, the load is complete when it reaches the total, and an incomplete load
/// goes on from there with the reported total.
pub fn playlist_batch_step(load: &PendingPlaylistLoad, start: usize, count: usize, total: usize) -> (r: BatchOutcome)
    ensures
        ({
            let loaded = batch_loaded(start, count, total);
            let complete = loaded >= total;
            if count == 0 && !complete {
                r matches BatchOutcome::Failed(m) && m@ == empty_batch_message(start, total)
            } else {
                r == BatchOutcome::Progress {
                    loaded,
                    complete,
                    next: if complete {
                        None
                    } else {
                        Some(PendingPlaylistLoad { id: load.id, next: loaded, total: Some(total) })
                    },
                }
            }
        }),
{
    let end = start.saturating_add(count);
    let loaded = if end < total {
        end
    } else {
        total
    };
    let complete = loaded >= total;
    if count == 0 && !complete {
        let mut message = "Music.app returned no tracks at offset ".to_owned();
        push_decimal(&mut message, start as u64);
        push_text(&mut message, " before the reported total ");
        push_decimal(&mut message, total as u64);
        proof {
            reveal_strlit("Music.app returned no tracks at offset ");
            reveal_strlit(" before the reported total ");
        }
        return BatchOutcome::Failed(message);
    }
    let next = if complete {
        None
    } else {
        Some(PendingPlaylistLoad { id: load.id.duplicate(), next: loaded, total: Some(total) })
    };
    BatchOutcome::Progress { loaded, complete, next }
}

/// The state of a playlist after a batch: empty when complete with no tracks, loaded when
/// complete, still loading when nothing is loaded, otherwise partially loaded.
pub open spec fn batch_state(loaded: usize, total: usize, complete: bool) -> PlaylistLoadState {
    if complete && total == 0 {
        PlaylistLoadState::Empty
    } else if complete {
        PlaylistLoadState::Loaded { total }
    } else if loaded == 0 {
        PlaylistLoadState::Loading { loaded, total: Some(total) }
    } else {
        PlaylistLoadState::PartiallyLoaded { loaded, total }
    }
}

/// Takes a batch into a playlist: a batch from the start replaces its tracks, a later one
/// appends to them; the track count becomes the reported total and the state follows
/// `batch_state`.  Nothing else of the playlist changes.
pub fn fill_playlist_batch(
    playlist: &mut Playlist,
    start: usize,
    tracks: &Vec<Track>,
    loaded: usize,
    total: usize,
    complete: bool,
)
    ensures
        final(playlist).tracks@ == (if start == 0 { Seq::empty() } else { old(playlist).tracks@ }) + tracks@,
        final(playlist).track_count == total,
        final(playlist).contents_state == batch_state(loaded, total, complete),
        final(playlist).id == old(playlist).id,
        final(playlist).name == old(playlist).name,
        final(playlist).description == old(playlist).description,
        final(playlist).kind == old(playlist).kind,
        final(playlist).parent_id == old(playlist).parent_id,
        final(playlist).origin == old(playlist).origin,
{
    if start == 0 {
        playlist.tracks = Vec::new();
    }
    let ghost base = playlist.tracks@;
    assert(base =~= (if start == 0 { Seq::<Track>::empty() } else { old(playlist).tracks@ }));
    let mut i: usize = 0;
    while i < tracks.len()
        invariant
            i <= tracks@.len(),
            playlist.tracks@ == base + tracks@.subrange(0, i as int),
            base == (if start == 0 { Seq::<Track>::empty() } else { old(playlist).tracks@ }),
            playlist.id == old(playlist).id,
            playlist.name == old(playlist).name,
            playlist.description == old(playlist).description,
            playlist.kind == old(playlist).kind,
            playlist.parent_id == old(playlist).parent_id,
            playlist.origin == old(playlist).origin,
        decreases tracks.len() - i,
    {
        playlist.tracks.push(tracks[i].duplicate());
        assert(playlist.tracks@ =~= base + tracks@.subrange(0, i + 1));
        i = i + 1;
    }
    assert(tracks@.subrange(0, tracks@.len() as int) =~= tracks@);
    playlist.track_count = total;
    playlist.contents_state = if complete && total == 0 {
        PlaylistLoadState::Empty
    } else if complete {
        PlaylistLoadState::Loaded { total }
    } else if loaded == 0 {
        PlaylistLoadState::Loading { loaded, total: Some(total) }
    } else {
        PlaylistLoadState::PartiallyLoaded { loaded, total }
    };
}

} // verus!
