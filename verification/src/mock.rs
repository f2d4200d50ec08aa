//! The demonstration backend: an in-memory library and a queue that plays without audio.
//!
//! The queue always has a current position: the first entry when the queue is empty of
//! choices, otherwise one of its entries.  Every command either fails without effect or
//! changes the state as a real player would and answers with a full snapshot.
use vstd::prelude::*;

use crate::artwork::ArtworkResult;
use crate::backend::{BackendCommand, BackendError, BackendUpdate};
use crate::capabilities::{Capabilities, Capability};
use crate::copies::{all_copied, copy_all, copy_exact, copy_option, Duplicate};
use crate::domain::{
    secs_duration, sum_duration, zero_duration, Album, AlbumId, Artist, BackendAvailability, BackendSnapshot, CollectionLoadState, Duration,
    PlaybackContext, PlaybackSnapshot, PlaybackStatus, Playlist, PlaylistId, QueueItem,
    RecentlyPlayedEntry, RepeatMode, Station, Track, TrackId,
};
use crate::text::{push_decimal, push_text, spec_decimal};

verus! {

/// The demonstration backend's state.
#[derive(Clone, Debug)]
pub struct MockMusicBackend {
    pub library: Vec<Track>,
    pub artists: Vec<Artist>,
    pub albums: Vec<Album>,
    pub stations: Vec<Station>,
    pub playlists: Vec<Playlist>,
    pub queue: Vec<QueueItem>,
    pub current_index: usize,
    pub next_queue_id: u64,
    pub playback: PlaybackSnapshot,
}

/// A number written with at least three digits, padded with leading zeros.
pub open spec fn padded3(n: nat) -> Seq<char> {
    if n < 10 {
        seq!['0', '0'] + spec_decimal(n)
    } else if n < 100 {
        seq!['0'] + spec_decimal(n)
    } else {
        spec_decimal(n)
    }
}

/// `prefix` followed by a number padded to three digits.
pub fn numbered_id(prefix: &str, n: u64) -> (r: String)
    ensures
        r@ == prefix@ + padded3(n as nat),
{
    let mut s = prefix.to_owned();
    if n < 10 {
        push_text(&mut s, "00");
        proof {
            reveal_strlit("00");
            assert("00"@ == seq!['0', '0']);
        }
    } else if n < 100 {
        push_text(&mut s, "0");
        proof {
            reveal_strlit("0");
            assert("0"@ == seq!['0']);
        }
    }
    push_decimal(&mut s, n);
    assert(s@ =~= prefix@ + padded3(n as nat));
    s
}

/// The context with its position moved to `index`; a playlist played from the queue plays
/// in its own order, so its source position moves too.
pub open spec fn context_at(context: PlaybackContext, index: usize) -> PlaybackContext {
    match context {
        PlaybackContext::NoContext => PlaybackContext::NoContext,
        PlaybackContext::Album { album_id, ordered_track_ids, .. } => PlaybackContext::Album {
            album_id,
            ordered_track_ids,
            current_index: index,
        },
        PlaybackContext::Playlist { playlist_id, ordered_track_ids, complete, .. } => PlaybackContext::Playlist {
            playlist_id,
            ordered_track_ids,
            current_index: index,
            current_source_index: index,
            complete,
        },
    }
}

/// The playback state once the entry at `index` of `queue` is current.
pub open spec fn playback_at(p: PlaybackSnapshot, queue: Seq<QueueItem>, index: usize) -> PlaybackSnapshot {
    PlaybackSnapshot {
        current_entry_id: if index < queue.len() {
            Some(queue[index as int].id)
        } else {
            None
        },
        current_track: if index < queue.len() {
            Some(queue[index as int].track)
        } else {
            None
        },
        context: context_at(p.context, index),
        ..p
    }
}

/// The backend once its current position is reflected in its playback state.
pub open spec fn reselected(b: MockMusicBackend) -> MockMusicBackend {
    MockMusicBackend { playback: playback_at(b.playback, b.queue@, b.current_index), ..b }
}

/// The backend with a new queue, position and playback state.
pub open spec fn with_queue(b: MockMusicBackend, queue: Vec<QueueItem>, index: usize, playback: PlaybackSnapshot) -> MockMusicBackend {
    MockMusicBackend { queue, current_index: index, playback, ..b }
}

/// The first queue position holding a track with this identity.
pub open spec fn first_queue_track(queue: Seq<QueueItem>, id: Seq<char>, k: int) -> bool {
    &&& 0 <= k < queue.len()
    &&& queue[k].track.id@ == id
    &&& forall|j: int| 0 <= j < k ==> (#[trigger] queue[j]).track.id@ != id
}

impl MockMusicBackend {
    /// The current position names a queue entry, or the first place of an empty queue.
    pub open spec fn wf(&self) -> bool {
        if self.queue@.len() == 0 {
            self.current_index == 0
        } else {
            self.current_index < self.queue@.len()
        }
    }

    /// Fails with `EmptyQueue` when there is nothing to play.
    pub fn require_track(&self) -> (r: Result<(), BackendError>)
        ensures
            r == (if self.queue@.len() == 0 {
                Err(BackendError::EmptyQueue)
            } else {
                Ok::<(), BackendError>(())
            }),
    {
        if self.queue.len() == 0 {
            Err(BackendError::EmptyQueue)
        } else {
            Ok(())
        }
    }

    /// Reflects the current queue position in the playback state.
    pub fn select_current(&mut self)
        ensures
            *final(self) == reselected(*old(self)),
    {
        let index = self.current_index;
        if index < self.queue.len() {
            self.playback.current_entry_id = Some(self.queue[index].id.copy_of());
            self.playback.current_track = Some(self.queue[index].track.duplicate());
        } else {
            self.playback.current_entry_id = None;
            self.playback.current_track = None;
        }
        let mut context = PlaybackContext::NoContext;
        std::mem::swap(&mut context, &mut self.playback.context);
        let moved = match context {
            PlaybackContext::NoContext => PlaybackContext::NoContext,
            PlaybackContext::Album { album_id, ordered_track_ids, .. } => PlaybackContext::Album {
                album_id,
                ordered_track_ids,
                current_index: index,
            },
            PlaybackContext::Playlist { playlist_id, ordered_track_ids, complete, .. } => PlaybackContext::Playlist {
                playlist_id,
                ordered_track_ids,
                current_index: index,
                current_source_index: index,
                complete,
            },
        };
        self.playback.context = moved;
    }
}

/// The playback state with the position reset.
pub open spec fn rewound(p: PlaybackSnapshot) -> PlaybackSnapshot {
    PlaybackSnapshot { position: zero_duration(), ..p }
}

/// The state after moving to the next track.  When playback ends on its own and repeats
/// one track, the track starts over; otherwise the next entry becomes current, the first
/// one again under repeat-all, or playback stops at the end and leaves its context.
pub open spec fn advanced(b: MockMusicBackend, automatic: bool) -> MockMusicBackend {
    if automatic && b.playback.repeat == RepeatMode::One {
        MockMusicBackend { playback: rewound(b.playback), ..b }
    } else if b.current_index + 1 < b.queue@.len() {
        reselected(MockMusicBackend { current_index: (b.current_index + 1) as usize, playback: rewound(b.playback), ..b })
    } else if b.playback.repeat == RepeatMode::All {
        reselected(MockMusicBackend { current_index: 0, playback: rewound(b.playback), ..b })
    } else {
        reselected(MockMusicBackend {
            playback: PlaybackSnapshot {
                status: PlaybackStatus::Stopped,
                context: PlaybackContext::NoContext,
                ..rewound(b.playback)
            },
            ..b
        })
    }
}

/// The seek target in whole seconds: the current second moved by `seconds`, kept between
/// the start and the end of the current track.
pub open spec fn seek_target(current: nat, seconds: int, duration: nat) -> nat {
    let moved = if seconds < 0 {
        if current + seconds < 0 { 0 } else { (current + seconds) as nat }
    } else if current + seconds > u64::MAX {
        u64::MAX as nat
    } else {
        (current + seconds) as nat
    };
    if moved < duration { moved } else { duration }
}

/// The whole seconds of the current track.
pub open spec fn current_track_secs(p: PlaybackSnapshot) -> nat {
    match p.current_track {
        Some(t) => t.duration@ / 1_000_000_000,
        None => 0,
    }
}

/// The first library position holding a track with this identity.
pub open spec fn first_library_track(library: Seq<Track>, id: Seq<char>, k: int) -> bool {
    &&& 0 <= k < library.len()
    &&& library[k].id@ == id
    &&& forall|j: int| 0 <= j < k ==> (#[trigger] library[j]).id@ != id
}

/// The state after the current queue entry's favorite mark was flipped, in the queue and
/// in the first library track with its identity.
pub open spec fn favorite_toggled(old: MockMusicBackend, new: MockMusicBackend) -> bool {
    let i = old.current_index as int;
    let t = old.queue@[i].track;
    let flipped = Track { is_favorite: !t.is_favorite, ..t };
    let queue = old.queue@.update(i, QueueItem { track: flipped, ..old.queue@[i] });
    &&& new.queue@ == queue
    &&& new.current_index == old.current_index
    &&& new.playback == playback_at(old.playback, queue, old.current_index)
    &&& new.library@.len() == old.library@.len()
    &&& if exists|k: int| first_library_track(old.library@, t.id@, k) {
        let k = choose|k: int| first_library_track(old.library@, t.id@, k);
        new.library@ == old.library@.update(k, Track { is_favorite: !t.is_favorite, ..old.library@[k] })
    } else {
        new.library@ == old.library@
    }
    &&& new.artists == old.artists
    &&& new.albums == old.albums
    &&& new.stations == old.stations
    &&& new.playlists == old.playlists
    &&& new.next_queue_id == old.next_queue_id
}

/// The queue position and playback state after the entry at `index` left the queue.
pub open spec fn removal_position(old: MockMusicBackend, index: int) -> (usize, PlaybackSnapshot) {
    let len = old.queue@.len() - 1;
    let ci = old.current_index as int;
    if len == 0 {
        (0, PlaybackSnapshot { status: PlaybackStatus::Stopped, ..rewound(old.playback) })
    } else if index < ci {
        ((ci - 1) as usize, old.playback)
    } else if ci >= len {
        ((len - 1) as usize, rewound(old.playback))
    } else if index == ci {
        (old.current_index, rewound(old.playback))
    } else {
        (old.current_index, old.playback)
    }
}

/// The outcome of `next_track`.
pub open spec fn next_done(old: MockMusicBackend, new: MockMusicBackend, automatic: bool, r: Result<(), BackendError>) -> bool {
    &&& old.queue@.len() == 0 ==> r == Err::<(), BackendError>(BackendError::EmptyQueue) && new == old
    &&& old.queue@.len() > 0 ==> r is Ok && new == advanced(old, automatic)
}

/// The outcome of `previous_track`.
pub open spec fn previous_done(old: MockMusicBackend, new: MockMusicBackend, r: Result<(), BackendError>) -> bool {
    &&& old.queue@.len() == 0 ==> r == Err::<(), BackendError>(BackendError::EmptyQueue) && new == old
    &&& old.queue@.len() > 0 ==> r is Ok && new == reselected(MockMusicBackend {
        current_index: if old.current_index == 0 { 0 } else { (old.current_index - 1) as usize },
        playback: rewound(old.playback),
        ..old
            })
}

/// The outcome of `play_track`.
pub open spec fn track_played(old: MockMusicBackend, new: MockMusicBackend, track_id: TrackId, r: Result<(), BackendError>) -> bool {
    &&& ({
        let left = MockMusicBackend {
            playback: PlaybackSnapshot { context: PlaybackContext::NoContext, ..old.playback },
            ..old
        };
        if exists|k: int| first_queue_track(old.queue@, track_id@, k) {
            let k = choose|k: int| first_queue_track(old.queue@, track_id@, k);
            r is Ok && new == reselected(MockMusicBackend {
                current_index: k as usize,
                playback: PlaybackSnapshot { status: PlaybackStatus::Playing, ..rewound(left.playback) },
                ..left
            })
        } else {
            r == Err::<(), BackendError>(BackendError::TrackNotFound(track_id)) && new == left
        }
            })
}

/// The outcome of `seek_by`.
pub open spec fn seek_done(old: MockMusicBackend, new: MockMusicBackend, seconds: i64, r: Result<(), BackendError>) -> bool {
    &&& old.queue@.len() == 0 ==> r == Err::<(), BackendError>(BackendError::EmptyQueue) && new == old
    &&& old.queue@.len() > 0 ==> r is Ok && new == (MockMusicBackend {
        playback: PlaybackSnapshot {
            position: secs_duration(seek_target(
                old.playback.position@ / 1_000_000_000,
                seconds as int,
                current_track_secs(old.playback),
            ) as u64),
            ..old.playback
        },
        ..old
            })
}

/// The outcome of `toggle_favorite`.
pub open spec fn favorite_done(old: MockMusicBackend, new: MockMusicBackend, r: Result<(), BackendError>) -> bool {
    &&& old.queue@.len() == 0 ==> r == Err::<(), BackendError>(BackendError::EmptyQueue) && new == old
    &&& old.queue@.len() > 0 ==> r is Ok && favorite_toggled(old, new)
}

/// The outcome of `remove_queue_item`.
pub open spec fn removal_done(old: MockMusicBackend, new: MockMusicBackend, index: usize, r: Result<(), BackendError>) -> bool {
    &&& index >= old.queue@.len() ==> r == Err::<(), BackendError>(BackendError::QueueIndex { index, length: old.queue@.len() as usize })
        && new == old
    &&& index < old.queue@.len() ==> r is Ok && ({
        let (ci, playback) = removal_position(old, index as int);
        &&& new.queue@ == old.queue@.remove(index as int)
        &&& new == reselected(MockMusicBackend { queue: new.queue, current_index: ci, playback, ..old })
            })
}

/// The outcome of `move_queue_item`.
pub open spec fn move_done(old: MockMusicBackend, new: MockMusicBackend, from: usize, to: usize, r: Result<(), BackendError>) -> bool {
    &&& from >= old.queue@.len() ==> r == Err::<(), BackendError>(BackendError::QueueIndex { index: from, length: old.queue@.len() as usize })
        && new == old
    &&& from < old.queue@.len() && to >= old.queue@.len() ==> r == Err::<(), BackendError>(BackendError::QueueIndex { index: to, length: old.queue@.len() as usize })
        && new == old
    &&& from < old.queue@.len() && to < old.queue@.len() ==> r is Ok && ({
        let queue = old.queue@.remove(from as int).insert(to as int, old.queue@[from as int]);
        let current = old.queue@[old.current_index as int].id@;
        &&& new.queue@ == queue
        &&& 0 <= new.current_index < queue.len()
        &&& queue[new.current_index as int].id@ == current
        &&& forall|j: int| 0 <= j < new.current_index ==> (#[trigger] queue[j]).id@ != current
        &&& new == reselected(MockMusicBackend { queue: new.queue, current_index: new.current_index, ..old })
            })
}

/// The outcome of `play_playlist`.
pub open spec fn playlist_played(old: MockMusicBackend, new: MockMusicBackend, playlist_id: PlaylistId, r: Result<(), BackendError>) -> bool {
    &&& match r {
        Ok(()) => exists|k: int| #![trigger old.playlists@[k]] first_playlist(old.playlists@, playlist_id@, k) && ({
            let tracks = old.playlists@[k].tracks@;
            &&& started_queue(old, new, tracks, "mock-playlist-"@, 0)
            &&& new.playback.context matches PlaybackContext::Playlist { playlist_id: p, ordered_track_ids: ids, current_index: 0, current_source_index: 0, complete: true }
                && p == playlist_id && id_seq(ids@) == track_ids_of(tracks)
        }),
        Err(e) => e == BackendError::PlaylistNotFound(playlist_id) && new == old
            && forall|k: int| 0 <= k < old.playlists@.len() ==> (#[trigger] old.playlists@[k]).id@ != playlist_id@
    }
}

/// The outcome of `play_playlist_track`.
pub open spec fn playlist_track_played(old: MockMusicBackend, new: MockMusicBackend, playlist_id: PlaylistId, ordered_track_ids: Vec<TrackId>, selected_index: usize, complete: bool, r: Result<(), BackendError>) -> bool {
    &&& match r {
        Ok(()) => exists|k: int, tracks: Seq<Track>| #![trigger first_playlist(old.playlists@, playlist_id@, k), resolved(old.playlists@[k].tracks@, ordered_track_ids@, tracks)]
            first_playlist(old.playlists@, playlist_id@, k)
            && resolved(old.playlists@[k].tracks@, ordered_track_ids@, tracks)
            && selected_index < tracks.len()
            && started_queue(old, new, tracks, "mock-playlist-"@, selected_index)
            && (new.playback.context matches PlaybackContext::Playlist { playlist_id: p, ordered_track_ids: ids, current_index: c, current_source_index: s, complete: d }
            && p == playlist_id && ids@ == ordered_track_ids@ && c == selected_index && s == selected_index && d == complete),
        Err(e) => new == old && ({
            ||| e == BackendError::PlaylistNotFound(playlist_id)
                && forall|k: int| 0 <= k < old.playlists@.len() ==> (#[trigger] old.playlists@[k]).id@ != playlist_id@
            ||| exists|k: int, i: int| #![trigger first_playlist(old.playlists@, playlist_id@, k), first_unresolved(old.playlists@[k].tracks@, ordered_track_ids@, i)]
                first_playlist(old.playlists@, playlist_id@, k)
                && first_unresolved(old.playlists@[k].tracks@, ordered_track_ids@, i)
                && e == BackendError::TrackNotFound(ordered_track_ids@[i])
            ||| exists|k: int, tracks: Seq<Track>| #![trigger first_playlist(old.playlists@, playlist_id@, k), resolved(old.playlists@[k].tracks@, ordered_track_ids@, tracks)]
                first_playlist(old.playlists@, playlist_id@, k)
                && resolved(old.playlists@[k].tracks@, ordered_track_ids@, tracks)
                && selected_index >= tracks.len() && e == BackendError::PlaylistNotFound(playlist_id)
        })
    }
}

/// The outcome of `play_album`.
pub open spec fn album_played(old: MockMusicBackend, new: MockMusicBackend, album_id: AlbumId, track_ids: Vec<TrackId>, r: Result<(), BackendError>) -> bool {
    &&& match r {
        Ok(()) => exists|tracks: Seq<Track>| #![trigger resolved(old.library@, track_ids@, tracks)]
            resolved(old.library@, track_ids@, tracks) && tracks.len() > 0
            && (exists|a: int| 0 <= a < old.albums@.len() && (#[trigger] old.albums@[a]).id@ == album_id@)
            && started_queue(old, new, tracks, "mock-album-"@, 0)
            && (new.playback.context matches PlaybackContext::Album { album_id: a, ordered_track_ids: ids, current_index: 0 }
            && a == album_id && ids@ == track_ids@),
        Err(e) => new == old && ({
            ||| e == BackendError::AlbumNotFound(album_id)
                && forall|a: int| 0 <= a < old.albums@.len() ==> (#[trigger] old.albums@[a]).id@ != album_id@
            ||| exists|i: int| #![trigger first_unresolved(old.library@, track_ids@, i)]
                first_unresolved(old.library@, track_ids@, i) && e == BackendError::TrackNotFound(track_ids@[i])
            ||| track_ids@.len() == 0 && e == BackendError::AlbumNotFound(album_id)
        })
    }
}

fn find_queue_track(queue: &Vec<QueueItem>, id: &TrackId) -> (r: Option<usize>)
    ensures
        match r {
            Some(k) => first_queue_track(queue@, id@, k as int),
            None => forall|j: int| 0 <= j < queue@.len() ==> (#[trigger] queue@[j]).track.id@ != id@,
        },
{
    let mut k: usize = 0;
    while k < queue.len()
        invariant
            k <= queue@.len(),
            forall|j: int| 0 <= j < k ==> (#[trigger] queue@[j]).track.id@ != id@,
        decreases queue.len() - k,
    {
        if queue[k].track.id.same(id) {
            return Some(k);
        }
        k = k + 1;
    }
    None
}

fn find_library_track(library: &Vec<Track>, id: &TrackId) -> (r: Option<usize>)
    ensures
        match r {
            Some(k) => first_library_track(library@, id@, k as int),
            None => forall|j: int| 0 <= j < library@.len() ==> (#[trigger] library@[j]).id@ != id@,
        },
{
    let mut k: usize = 0;
    while k < library.len()
        invariant
            k <= library@.len(),
            forall|j: int| 0 <= j < k ==> (#[trigger] library@[j]).id@ != id@,
        decreases library.len() - k,
    {
        if library[k].id.same(id) {
            return Some(k);
        }
        k = k + 1;
    }
    None
}

fn find_entry(queue: &Vec<QueueItem>, id: &crate::domain::QueueEntryId) -> (r: usize)
    requires
        exists|j: int| 0 <= j < queue@.len() && queue@[j].id@ == id@,
    ensures
        r < queue@.len(),
        queue@[r as int].id@ == id@,
        forall|j: int| 0 <= j < r ==> (#[trigger] queue@[j]).id@ != id@,
{
    let mut k: usize = 0;
    while k < queue.len()
        invariant
            k <= queue@.len(),
            exists|j: int| k <= j < queue@.len() && queue@[j].id@ == id@,
            forall|j: int| 0 <= j < k ==> (#[trigger] queue@[j]).id@ != id@,
        decreases queue.len() - k,
    {
        if crate::text::same_text(queue[k].id.as_str(), id.as_str()) {
            return k;
        }
        k = k + 1;
    }
    proof {
        assert(false);
    }
    0
}

impl MockMusicBackend {
    /// Moves to the next track, as `advanced` describes; fails on an empty queue.
    pub fn next_track(&mut self, automatic: bool) -> (r: Result<(), BackendError>)
        requires
            old(self).wf(),
        ensures
            final(self).wf(),
            next_done(*old(self), *final(self), automatic, r),
    {
        self.require_track()?;
        if automatic && self.playback.repeat == RepeatMode::One {
            self.playback.position = Duration::zero();
            return Ok(());
        }
        let n = self.queue.len();
        if self.current_index + 1 < n {
            self.current_index = self.current_index + 1;
        } else if self.playback.repeat == RepeatMode::All {
            self.current_index = 0;
        } else {
            self.playback.status = PlaybackStatus::Stopped;
            self.playback.context = PlaybackContext::NoContext;
        }
        self.playback.position = Duration::zero();
        self.select_current();
        Ok(())
    }

    /// Moves to the previous entry, staying on the first one; fails on an empty queue.
    pub fn previous_track(&mut self) -> (r: Result<(), BackendError>)
        requires
            old(self).wf(),
        ensures
            final(self).wf(),
            previous_done(*old(self), *final(self), r),
    {
        self.require_track()?;
        self.current_index = if self.current_index == 0 {
            0
        } else {
            self.current_index - 1
        };
        self.playback.position = Duration::zero();
        self.select_current();
        Ok(())
    }

    /// Plays the first queue entry holding the track, leaving any playback context; a track
    /// that is not queued fails with `TrackNotFound`, after the context was left.
    pub fn play_track(&mut self, track_id: &TrackId) -> (r: Result<(), BackendError>)
        requires
            old(self).wf(),
        ensures
            final(self).wf(),
            track_played(*old(self), *final(self), *track_id, r),
    {
        self.playback.context = PlaybackContext::NoContext;
        let k = match find_queue_track(&self.queue, track_id) {
            Some(k) => k,
            None => {
                proof {
                    assert(!exists|k: int| first_queue_track(self.queue@, track_id@, k));
                }
                return Err(BackendError::TrackNotFound(track_id.duplicate()));
            },
        };
        proof {
            let c = choose|c: int| first_queue_track(self.queue@, track_id@, c);
            assert(c == k as int) by {
                if c < k {
                    assert(self.queue@[c].track.id@ != track_id@);
                } else if k < c {
                    assert(self.queue@[k as int].track.id@ != track_id@);
                }
            }
        }
        self.current_index = k;
        self.playback.position = Duration::zero();
        self.playback.status = PlaybackStatus::Playing;
        self.select_current();
        Ok(())
    }

    /// Moves the position by whole seconds within the current track; fails on an empty queue.
    pub fn seek_by(&mut self, seconds: i64) -> (r: Result<(), BackendError>)
        requires
            old(self).wf(),
        ensures
            seek_done(*old(self), *final(self), seconds, r),
    {
        self.require_track()?;
        let duration = match &self.playback.current_track {
            Some(track) => track.duration.as_secs(),
            None => 0,
        };
        let current = self.playback.position.as_secs();
        let moved = if seconds < 0 {
            let back: u64 = if seconds == i64::MIN {
                9_223_372_036_854_775_808u64
            } else {
                (-seconds) as u64
            };
            current.saturating_sub(back)
        } else {
            current.saturating_add(seconds as u64)
        };
        let updated = if moved < duration {
            moved
        } else {
            duration
        };
        self.playback.position = Duration::from_secs(updated);
        Ok(())
    }

    /// Flips the favorite mark of the current entry's track, in the queue and in the
    /// library; fails on an empty queue.
    pub fn toggle_favorite(&mut self) -> (r: Result<(), BackendError>)
        requires
            old(self).wf(),
        ensures
            final(self).wf(),
            favorite_done(*old(self), *final(self), r),
    {
        self.require_track()?;
        let i = self.current_index;
        let id = self.queue[i].track.id.duplicate();
        let favorite = !self.queue[i].track.is_favorite;
        let ghost before = *self;
        self.queue[i].track.is_favorite = favorite;
        proof {
            let t = before.queue@[i as int].track;
            assert(self.queue@ =~= before.queue@.update(i as int, QueueItem {
                track: Track { is_favorite: !t.is_favorite, ..t },
                ..before.queue@[i as int]
            }));
        }
        match find_library_track(&self.library, &id) {
            Some(k) => {
                self.library[k].is_favorite = favorite;
                proof {
                    let c = choose|c: int| first_library_track(before.library@, id@, c);
                    assert(c == k as int) by {
                        if c < k {
                            assert(before.library@[c].id@ != id@);
                        } else if k < c {
                            assert(before.library@[k as int].id@ != id@);
                        }
                    }
                    assert(self.library@ =~= before.library@.update(k as int, Track { is_favorite: favorite, ..before.library@[k as int] }));
                }
            },
            None => {
                proof {
                    assert(!exists|c: int| first_library_track(before.library@, id@, c));
                }
            },
        }
        self.select_current();
        Ok(())
    }

    /// Removes the entry at `index`, keeping the current track current when another entry
    /// goes; removing the current entry makes the next one current from its start.  An
    /// index past the queue fails with `QueueIndex`.
    pub fn remove_queue_item(&mut self, index: usize) -> (r: Result<(), BackendError>)
        requires
            old(self).wf(),
        ensures
            final(self).wf(),
            removal_done(*old(self), *final(self), index, r),
    {
        let length = self.queue.len();
        if index >= length {
            return Err(BackendError::QueueIndex { index, length });
        }
        let _removed = self.queue.remove(index);
        let n = self.queue.len();
        if n == 0 {
            self.current_index = 0;
            self.playback.status = PlaybackStatus::Stopped;
            self.playback.position = Duration::zero();
        } else if index < self.current_index {
            self.current_index = self.current_index - 1;
        } else if self.current_index >= n {
            self.current_index = n - 1;
            self.playback.position = Duration::zero();
        } else if index == self.current_index {
            self.playback.position = Duration::zero();
        }
        self.select_current();
        Ok(())
    }

    /// Moves the entry at `from` to `to`, keeping the current entry current; either index
    /// past the queue fails with `QueueIndex`.
    pub fn move_queue_item(&mut self, from: usize, to: usize) -> (r: Result<(), BackendError>)
        requires
            old(self).wf(),
        ensures
            final(self).wf(),
            move_done(*old(self), *final(self), from, to, r),
    {
        let length = self.queue.len();
        if from >= length {
            return Err(BackendError::QueueIndex { index: from, length });
        }
        if to >= length {
            return Err(BackendError::QueueIndex { index: to, length });
        }
        let current_id = self.queue[self.current_index].id.copy_of();
        let ghost before = self.queue@;
        let item = self.queue.remove(from);
        self.queue.insert(to, item);
        proof {
            assert(self.queue@ == before.remove(from as int).insert(to as int, before[from as int]));
            assert(exists|j: int| 0 <= j < self.queue@.len() && self.queue@[j].id@ == current_id@) by {
                let c = self.current_index as int;
                let mid = before.remove(from as int);
                if c == from as int {
                    assert(self.queue@[to as int] == before[c]);
                } else {
                    let m = if c < from { c } else { c - 1 };
                    assert(mid[m] == before[c]);
                    let p = if m < to { m } else { m + 1 };
                    assert(self.queue@[p] == mid[m]);
                }
            }
        }
        let k = find_entry(&self.queue, &current_id);
        self.current_index = k;
        self.select_current();
        Ok(())
    }
}

/// Whether a queue holds `tracks` in order, entry `i` named `prefix` and `i` padded to three
/// digits.
pub open spec fn queue_matches(queue: Seq<QueueItem>, tracks: Seq<Track>, prefix: Seq<char>) -> bool {
    &&& queue.len() == tracks.len()
    &&& forall|i: int| 0 <= i < queue.len() ==> (#[trigger] queue[i]).id@ == prefix + padded3(i as nat) && queue[i].track == tracks[i]
}

/// Whether playback started over a new queue from entry `index`: playing from the start of
/// that entry, with the other settings and the catalog unchanged.
pub open spec fn started_queue(old: MockMusicBackend, new: MockMusicBackend, tracks: Seq<Track>, prefix: Seq<char>, index: usize) -> bool {
    &&& queue_matches(new.queue@, tracks, prefix)
    &&& new.current_index == index
    &&& index < tracks.len() || (tracks.len() == 0 && index == 0)
    &&& new.playback.status == PlaybackStatus::Playing
    &&& new.playback.position == zero_duration()
    &&& new.playback.current_entry_id == (if index < tracks.len() { Some(new.queue@[index as int].id) } else { None })
    &&& new.playback.current_track == (if index < tracks.len() { Some(tracks[index as int]) } else { None })
    &&& new.playback.volume == old.playback.volume
    &&& new.playback.muted == old.playback.muted
    &&& new.playback.shuffle == old.playback.shuffle
    &&& new.playback.repeat == old.playback.repeat
    &&& new.library == old.library
    &&& new.artists == old.artists
    &&& new.albums == old.albums
    &&& new.stations == old.stations
    &&& new.playlists == old.playlists
    &&& new.next_queue_id == old.next_queue_id
}

/// The first playlist with this identity.
pub open spec fn first_playlist(playlists: Seq<Playlist>, id: Seq<char>, k: int) -> bool {
    &&& 0 <= k < playlists.len()
    &&& playlists[k].id@ == id
    &&& forall|j: int| 0 <= j < k ==> (#[trigger] playlists[j]).id@ != id
}

/// The tracks of `source` that the identities name, each the first with its identity.
pub open spec fn resolved(source: Seq<Track>, ids: Seq<TrackId>, tracks: Seq<Track>) -> bool {
    &&& tracks.len() == ids.len()
    &&& forall|i: int| 0 <= i < ids.len() ==> exists|k: int| first_library_track(source, (#[trigger] ids[i])@, k) && tracks[i] == source[k]
}

/// Whether some track of `source` has this identity.
pub open spec fn names_track(source: Seq<Track>, id: Seq<char>) -> bool {
    exists|k: int| 0 <= k < source.len() && (#[trigger] source[k]).id@ == id
}

/// The first identity that names no track of `source`.
pub open spec fn first_unresolved(source: Seq<Track>, ids: Seq<TrackId>, i: int) -> bool {
    &&& 0 <= i < ids.len()
    &&& !names_track(source, ids[i]@)
    &&& forall|j: int| 0 <= j < i ==> names_track(source, (#[trigger] ids[j])@)
}

/// The identities of tracks, in order.
pub open spec fn track_ids_of(tracks: Seq<Track>) -> Seq<Seq<char>> {
    tracks.map_values(|t: Track| t.id@)
}

/// The identities, in order.
pub open spec fn id_seq(ids: Seq<TrackId>) -> Seq<Seq<char>> {
    ids.map_values(|id: TrackId| id@)
}

/// The tracks of the library with a last played date, as recently played entries.
pub open spec fn recent_entries(library: Seq<Track>) -> Seq<RecentlyPlayedEntry>
    decreases library.len(),
{
    if library.len() == 0 {
        Seq::empty()
    } else {
        let rest = recent_entries(library.drop_last());
        let t = library.last();
        match t.metadata.last_played_date {
            Some(played_at) => rest.push(RecentlyPlayedEntry {
                track_id: t.id,
                title: t.title,
                artist: t.artist,
                play_count: t.metadata.play_count,
                played_at,
            }),
            None => rest,
        }
    }
}

fn resolve_tracks(source: &Vec<Track>, ids: &Vec<TrackId>) -> (r: Result<Vec<Track>, usize>)
    ensures
        match r {
            Ok(tracks) => resolved(source@, ids@, tracks@),
            Err(i) => first_unresolved(source@, ids@, i as int),
        },
{
    let mut tracks: Vec<Track> = Vec::new();
    let mut i: usize = 0;
    while i < ids.len()
        invariant
            i <= ids@.len(),
            resolved(source@, ids@.take(i as int), tracks@),
        decreases ids.len() - i,
    {
        match find_library_track(source, &ids[i]) {
            Some(k) => {
                let ghost before = tracks@;
                tracks.push(source[k].duplicate());
                proof {
                    assert forall|j: int| 0 <= j < i + 1 implies exists|k: int| first_library_track(source@, (#[trigger] ids@.take(i + 1)[j])@, k) && tracks@[j] == source@[k] by {
                        if j < i {
                            assert(ids@.take(i + 1)[j] == ids@.take(i as int)[j]);
                        } else {
                            assert(first_library_track(source@, ids@[i as int]@, k as int));
                        }
                    }
                }
            },
            None => {
                proof {
                    assert forall|j: int| 0 <= j < i implies names_track(source@, (#[trigger] ids@[j])@) by {
                        assert(ids@.take(i as int)[j] == ids@[j]);
                        let k = choose|k: int| first_library_track(source@, ids@.take(i as int)[j]@, k) && tracks@[j] == source@[k];
                        assert(source@[k].id@ == ids@[j]@);
                    }
                }
                return Err(i);
            },
        }
        i = i + 1;
    }
    assert(ids@.take(ids@.len() as int) =~= ids@);
    Ok(tracks)
}

fn build_queue(tracks: Vec<Track>, prefix: &str) -> (r: Vec<QueueItem>)
    ensures
        queue_matches(r@, tracks@, prefix@),
{
    let mut queue: Vec<QueueItem> = Vec::new();
    let mut i: usize = 0;
    while i < tracks.len()
        invariant
            i <= tracks@.len(),
            queue_matches(queue@, tracks@.take(i as int), prefix@),
        decreases tracks.len() - i,
    {
        let id = numbered_id(prefix, i as u64);
        let ghost before = queue@;
        queue.push(QueueItem::new(id.as_str(), tracks[i].duplicate()));
        proof {
            assert forall|j: int| 0 <= j < queue@.len() implies (#[trigger] queue@[j]).id@ == prefix@ + padded3(j as nat) && queue@[j].track == tracks@.take(i + 1)[j] by {
                if j < i {
                    assert(queue@[j] == before[j]);
                    assert(tracks@.take(i + 1)[j] == tracks@.take(i as int)[j]);
                }
            }
        }
        i = i + 1;
    }
    assert(tracks@.take(tracks@.len() as int) =~= tracks@);
    queue
}

fn track_id_list(tracks: &Vec<Track>) -> (r: Vec<TrackId>)
    ensures
        id_seq(r@) == track_ids_of(tracks@),
{
    let mut ids: Vec<TrackId> = Vec::new();
    let mut i: usize = 0;
    while i < tracks.len()
        invariant
            i <= tracks@.len(),
            id_seq(ids@) == track_ids_of(tracks@.take(i as int)),
        decreases tracks.len() - i,
    {
        let ghost before = ids@;
        ids.push(tracks[i].id.duplicate());
        proof {
            assert(id_seq(ids@) =~= id_seq(before).push(tracks@[i as int].id@));
            assert(track_ids_of(tracks@.take(i + 1)) =~= track_ids_of(tracks@.take(i as int)).push(tracks@[i as int].id@));
        }
        i = i + 1;
    }
    assert(tracks@.take(tracks@.len() as int) =~= tracks@);
    ids
}

fn find_playlist(playlists: &Vec<Playlist>, id: &PlaylistId) -> (r: Option<usize>)
    ensures
        match r {
            Some(k) => first_playlist(playlists@, id@, k as int),
            None => forall|j: int| 0 <= j < playlists@.len() ==> (#[trigger] playlists@[j]).id@ != id@,
        },
{
    let mut k: usize = 0;
    while k < playlists.len()
        invariant
            k <= playlists@.len(),
            forall|j: int| 0 <= j < k ==> (#[trigger] playlists@[j]).id@ != id@,
        decreases playlists.len() - k,
    {
        if playlists[k].id.same(id) {
            return Some(k);
        }
        k = k + 1;
    }
    None
}

impl MockMusicBackend {
    fn start_queue(&mut self, tracks: Vec<Track>, prefix: &str, index: usize, context: PlaybackContext)
        requires
            old(self).wf(),
            index < tracks@.len() || (tracks@.len() == 0 && index == 0),
        ensures
            final(self).wf(),
            started_queue(*old(self), *final(self), tracks@, prefix@, index),
            final(self).playback.context == context_at(context, index),
    {
        let ghost t = tracks@;
        self.queue = build_queue(tracks, prefix);
        self.current_index = index;
        self.playback.position = Duration::zero();
        self.playback.status = PlaybackStatus::Playing;
        self.playback.context = context;
        self.select_current();
    }

    /// Plays a playlist from its first track, its tracks becoming the queue; an unknown
    /// playlist fails with `PlaylistNotFound`.
    pub fn play_playlist(&mut self, playlist_id: &PlaylistId) -> (r: Result<(), BackendError>)
        requires
            old(self).wf(),
        ensures
            final(self).wf(),
            playlist_played(*old(self), *final(self), *playlist_id, r),
    {
        let k = match find_playlist(&self.playlists, playlist_id) {
            Some(k) => k,
            None => return Err(BackendError::PlaylistNotFound(playlist_id.duplicate())),
        };
        let ordered = track_id_list(&self.playlists[k].tracks);
        let tracks = copy_exact(&self.playlists[k].tracks);
        let context = PlaybackContext::Playlist {
            playlist_id: playlist_id.duplicate(),
            ordered_track_ids: ordered,
            current_index: 0,
            current_source_index: 0,
            complete: true,
        };
        self.start_queue(tracks, "mock-playlist-", 0, context);
        Ok(())
    }

    /// Plays the selected entry of a playlist's supplied order.  An unknown playlist fails
    /// with `PlaylistNotFound`, an identity the playlist lacks with `TrackNotFound`, and a
    /// selection past the order with `PlaylistNotFound`.
    pub fn play_playlist_track(
        &mut self,
        playlist_id: &PlaylistId,
        ordered_track_ids: &Vec<TrackId>,
        selected_index: usize,
        complete: bool,
    ) -> (r: Result<(), BackendError>)
        requires
            old(self).wf(),
        ensures
            final(self).wf(),
            playlist_track_played(*old(self), *final(self), *playlist_id, *ordered_track_ids, selected_index, complete, r),
    {
        let k = match find_playlist(&self.playlists, playlist_id) {
            Some(k) => k,
            None => return Err(BackendError::PlaylistNotFound(playlist_id.duplicate())),
        };
        let tracks = match resolve_tracks(&self.playlists[k].tracks, ordered_track_ids) {
            Ok(tracks) => tracks,
            Err(i) => {
                proof {
                    assert(first_unresolved(self.playlists@[k as int].tracks@, ordered_track_ids@, i as int));
                }
                return Err(BackendError::TrackNotFound(ordered_track_ids[i].duplicate()));
            },
        };
        if selected_index >= tracks.len() {
            return Err(BackendError::PlaylistNotFound(playlist_id.duplicate()));
        }
        let ghost resolved_tracks = tracks@;
        let context = PlaybackContext::Playlist {
            playlist_id: playlist_id.duplicate(),
            ordered_track_ids: copy_exact(ordered_track_ids),
            current_index: selected_index,
            current_source_index: selected_index,
            complete,
        };
        self.start_queue(tracks, "mock-playlist-", selected_index, context);
        proof {
            assert(first_playlist(self.playlists@, playlist_id@, k as int));
        }
        Ok(())
    }

    /// Plays an album's tracks in the supplied order.  An unknown album, or no tracks at
    /// all, fails with `AlbumNotFound`; an identity the library lacks with `TrackNotFound`.
    pub fn play_album(&mut self, album_id: &AlbumId, track_ids: &Vec<TrackId>) -> (r: Result<(), BackendError>)
        requires
            old(self).wf(),
        ensures
            final(self).wf(),
            album_played(*old(self), *final(self), *album_id, *track_ids, r),
    {
        let mut found = false;
        let mut a: usize = 0;
        while a < self.albums.len()
            invariant
                a <= self.albums@.len(),
                !found ==> forall|j: int| 0 <= j < a ==> (#[trigger] self.albums@[j]).id@ != album_id@,
                found ==> exists|j: int| 0 <= j < self.albums@.len() && (#[trigger] self.albums@[j]).id@ == album_id@,
            decreases self.albums.len() - a,
        {
            if self.albums[a].id.same(album_id) {
                found = true;
            }
            a = a + 1;
        }
        if !found {
            return Err(BackendError::AlbumNotFound(album_id.duplicate()));
        }
        let tracks = match resolve_tracks(&self.library, track_ids) {
            Ok(tracks) => tracks,
            Err(i) => return Err(BackendError::TrackNotFound(track_ids[i].duplicate())),
        };
        if tracks.len() == 0 {
            return Err(BackendError::AlbumNotFound(album_id.duplicate()));
        }
        let context = PlaybackContext::Album {
            album_id: album_id.duplicate(),
            ordered_track_ids: copy_exact(track_ids),
            current_index: 0,
        };
        self.start_queue(tracks, "mock-album-", 0, context);
        Ok(())
    }
}

/// Whether `s` is the snapshot of `b`: everything the backend holds, the albums again as
/// the recently added ones, the recently played entries of the library, and both
/// collections loaded.
pub open spec fn snapshot_of(b: MockMusicBackend, s: BackendSnapshot) -> bool {
    &&& s.availability == BackendAvailability::Available
    &&& s.playback.copied_from(&b.playback)
    &&& s.queue@ == b.queue@
    &&& s.library@ == b.library@
    &&& all_copied(s.artists@, b.artists@)
    &&& all_copied(s.albums@, b.albums@)
    &&& all_copied(s.recently_added@, b.albums@)
    &&& s.recently_played@ == recent_entries(b.library@)
    &&& s.stations@ == b.stations@
    &&& all_copied(s.playlists@, b.playlists@)
    &&& s.library_status == (CollectionLoadState::Loaded { total: b.library@.len() as usize })
    &&& s.playlist_status == (CollectionLoadState::Loaded { total: b.playlists@.len() as usize })
}

/// Whether `r` answers a successful command on `b` with its snapshot.
pub open spec fn answered_with_snapshot(b: MockMusicBackend, r: Result<BackendUpdate, BackendError>) -> bool {
    r matches Ok(BackendUpdate::Snapshot(s)) && snapshot_of(b, s)
}

/// Whether `r` carries the outcome of an operation: its error, or the snapshot of `b`.
pub open spec fn answered(op: Result<(), BackendError>, b: MockMusicBackend, r: Result<BackendUpdate, BackendError>) -> bool {
    match op {
        Ok(()) => answered_with_snapshot(b, r),
        Err(e) => r == Err::<BackendUpdate, BackendError>(e),
    }
}

/// The backend with only its playback state changed.
pub open spec fn with_playback(b: MockMusicBackend, p: PlaybackSnapshot) -> MockMusicBackend {
    MockMusicBackend { playback: p, ..b }
}

/// Whether a command on an empty queue failed, or else changed the playback state to `p`
/// and answered with a snapshot.
pub open spec fn playback_command(old: MockMusicBackend, new: MockMusicBackend, p: PlaybackSnapshot, r: Result<BackendUpdate, BackendError>) -> bool {
    if old.queue@.len() == 0 {
        r == Err::<BackendUpdate, BackendError>(BackendError::EmptyQueue) && new == old
    } else {
        new == with_playback(old, p) && answered_with_snapshot(new, r)
    }
}

/// What executing a command does to the demonstration backend and answers.
pub open spec fn executed(old: MockMusicBackend, new: MockMusicBackend, command: BackendCommand, r: Result<BackendUpdate, BackendError>) -> bool {
    match command {
        BackendCommand::RefreshLibrary => new == old && (r matches Ok(BackendUpdate::Notice { availability, playback, message })
            && availability == BackendAvailability::Available && playback.copied_from(&old.playback)
            && message@ == "Mock library is already ready"@),
        BackendCommand::OpenPlayer => new == old && r == Err::<BackendUpdate, BackendError>(BackendError::Unsupported(Capability::Launch)),
        BackendCommand::Play => playback_command(old, new, PlaybackSnapshot { status: PlaybackStatus::Playing, ..old.playback }, r),
        BackendCommand::Pause => playback_command(old, new, PlaybackSnapshot {
            status: if old.playback.status == PlaybackStatus::Playing { PlaybackStatus::Paused } else { old.playback.status },
            ..old.playback
        }, r),
        BackendCommand::Stop => new == with_playback(old, PlaybackSnapshot {
            status: PlaybackStatus::Stopped,
            position: zero_duration(),
            context: PlaybackContext::NoContext,
            ..old.playback
        }) && (r matches Ok(BackendUpdate::Stopped { availability, playback })
            && availability == BackendAvailability::Available && playback.copied_from(&new.playback)),
        BackendCommand::PlayPause => playback_command(old, new, PlaybackSnapshot {
            status: if old.playback.status == PlaybackStatus::Playing { PlaybackStatus::Paused } else { PlaybackStatus::Playing },
            ..old.playback
        }, r),
        BackendCommand::PlayTrack(id) => exists|op: Result<(), BackendError>| track_played(old, new, id, op) && answered(op, new, r),
        BackendCommand::PlayPlaylistTrack { playlist_id, ordered_track_ids, selected_index, complete } =>
            exists|op: Result<(), BackendError>| playlist_track_played(old, new, playlist_id, ordered_track_ids, selected_index, complete, op)
                && answered(op, new, r),
        BackendCommand::PlayPlaylist(id) => exists|op: Result<(), BackendError>| playlist_played(old, new, id, op) && answered(op, new, r),
        BackendCommand::PlayAlbum { album_id, track_ids } =>
            exists|op: Result<(), BackendError>| album_played(old, new, album_id, track_ids, op) && answered(op, new, r),
        BackendCommand::LoadTrackArtwork { key, .. } => new == old && (r matches Ok(BackendUpdate::Artwork { availability, playback, key: k, result })
            && availability == BackendAvailability::Available && playback.copied_from(&old.playback)
            && k == key && result == ArtworkResult::Missing),
        BackendCommand::LoadPlaylist(_) => new == old && answered_with_snapshot(new, r),
        BackendCommand::RemovePlaylistTrack { .. } => new == old
            && r == Err::<BackendUpdate, BackendError>(BackendError::Unsupported(Capability::PlaylistTrackRemove)),
        BackendCommand::Next => exists|op: Result<(), BackendError>| next_done(old, new, false, op) && answered(op, new, r),
        BackendCommand::Previous => exists|op: Result<(), BackendError>| previous_done(old, new, op) && answered(op, new, r),
        BackendCommand::SeekBy(seconds) => exists|op: Result<(), BackendError>| seek_done(old, new, seconds, op) && answered(op, new, r),
        BackendCommand::SetVolume(volume) => new == with_playback(old, PlaybackSnapshot {
            volume: if volume < 100 { volume } else { 100 },
            ..old.playback
        }) && answered_with_snapshot(new, r),
        BackendCommand::ToggleMute => new == with_playback(old, PlaybackSnapshot { muted: !old.playback.muted, ..old.playback })
            && answered_with_snapshot(new, r),
        BackendCommand::ToggleShuffle => new == with_playback(old, PlaybackSnapshot {
            shuffle: !old.playback.shuffle,
            context: PlaybackContext::NoContext,
            ..old.playback
        }) && answered_with_snapshot(new, r),
        BackendCommand::CycleRepeat => new == with_playback(old, PlaybackSnapshot { repeat: old.playback.repeat.spec_next(), ..old.playback })
            && answered_with_snapshot(new, r),
        BackendCommand::ToggleFavoriteCurrent => exists|op: Result<(), BackendError>| favorite_done(old, new, op) && answered(op, new, r),
        BackendCommand::Enqueue(track) => enqueued(old, new, *track) && answered_with_snapshot(new, r),
        BackendCommand::RemoveQueueItem(index) => exists|op: Result<(), BackendError>| removal_done(old, new, index, op) && answered(op, new, r),
        BackendCommand::MoveQueueItem { from, to } => exists|op: Result<(), BackendError>| move_done(old, new, from, to, op) && answered(op, new, r),
    }
}

/// The state after a track was appended to the queue under the next queue number; when
/// nothing was current, the first entry becomes current.
pub open spec fn enqueued(old: MockMusicBackend, new: MockMusicBackend, track: Track) -> bool {
    let queue = new.queue@;
    &&& queue.len() == old.queue@.len() + 1
    &&& queue.take(old.queue@.len() as int) == old.queue@
    &&& queue.last().id@ == "mock-queue-"@ + padded3(old.next_queue_id as nat)
    &&& queue.last().track == track
    &&& new.next_queue_id == (if old.next_queue_id == u64::MAX { u64::MAX } else { (old.next_queue_id + 1) as u64 })
    &&& if old.playback.current_track is None {
        new == reselected(MockMusicBackend { queue: new.queue, current_index: 0, next_queue_id: new.next_queue_id, ..old })
    } else {
        new == MockMusicBackend { queue: new.queue, next_queue_id: new.next_queue_id, ..old }
    }
}

/// What one tick of playback does: only while playing, the position moves on by the
/// elapsed time, and at the end of the track playback moves to the next track on its own.
pub open spec fn ticked(old: MockMusicBackend, new: MockMusicBackend, elapsed: Duration, r: Result<Option<BackendUpdate>, BackendError>) -> bool {
    if old.playback.status != PlaybackStatus::Playing {
        new == old && r == Ok::<Option<BackendUpdate>, BackendError>(None)
    } else {
        let position = sum_duration(old.playback.position, elapsed);
        let moved = with_playback(old, PlaybackSnapshot { position, ..old.playback });
        let length = match old.playback.current_track {
            Some(t) => t.duration@,
            None => 0,
        };
        if position@ >= length {
            exists|op: Result<(), BackendError>| next_done(moved, new, true, op) && match op {
                Ok(()) => r matches Ok(Some(BackendUpdate::Snapshot(s))) && snapshot_of(new, s),
                Err(e) => r == Err::<Option<BackendUpdate>, BackendError>(e),
            }
        } else {
            new == moved && (r matches Ok(Some(BackendUpdate::Snapshot(s))) && snapshot_of(new, s))
        }
    }
}

fn recent_list(library: &Vec<Track>) -> (r: Vec<RecentlyPlayedEntry>)
    ensures
        r@ == recent_entries(library@),
{
    let mut out: Vec<RecentlyPlayedEntry> = Vec::new();
    let mut i: usize = 0;
    while i < library.len()
        invariant
            i <= library@.len(),
            out@ == recent_entries(library@.take(i as int)),
        decreases library.len() - i,
    {
        proof {
            assert(library@.take(i + 1).drop_last() =~= library@.take(i as int));
        }
        let t = &library[i];
        match &t.metadata.last_played_date {
            Some(played_at) => {
                out.push(RecentlyPlayedEntry {
                    track_id: t.id.duplicate(),
                    title: t.title.clone(),
                    artist: t.artist.clone(),
                    play_count: t.metadata.play_count,
                    played_at: played_at.clone(),
                });
            },
            None => {},
        }
        i = i + 1;
    }
    assert(library@.take(library@.len() as int) =~= library@);
    out
}

impl MockMusicBackend {
    /// The backend's display name.
    pub fn name(&self) -> (r: &'static str)
        ensures
            r@ == "Mock Playback (no audio)"@,
    {
        "Mock Playback (no audio)"
    }

    /// What the demonstration backend can do.
    pub fn capabilities(&self) -> (r: Capabilities)
        ensures
            r@ == crate::capabilities::mock_capabilities(),
    {
        Capabilities::mock()
    }

    /// Everything the backend holds, as a snapshot.
    pub fn snapshot_value(&self) -> (r: BackendSnapshot)
        ensures
            snapshot_of(*self, r),
    {
        let library_total = self.library.len();
        let playlist_total = self.playlists.len();
        BackendSnapshot {
            availability: BackendAvailability::Available,
            playback: self.playback.copy_of(),
            queue: copy_exact(&self.queue),
            library: copy_exact(&self.library),
            artists: copy_all(&self.artists),
            albums: copy_all(&self.albums),
            recently_added: copy_all(&self.albums),
            recently_played: recent_list(&self.library),
            stations: copy_exact(&self.stations),
            playlists: copy_all(&self.playlists),
            library_status: CollectionLoadState::Loaded { total: library_total },
            playlist_status: CollectionLoadState::Loaded { total: playlist_total },
        }
    }

    /// The snapshot, as the backend reports it to the application.
    pub fn snapshot(&self) -> (r: Result<BackendSnapshot, BackendError>)
        ensures
            r matches Ok(s) && snapshot_of(*self, s),
    {
        Ok(self.snapshot_value())
    }

    fn answer(&self, op: Result<(), BackendError>) -> (r: Result<BackendUpdate, BackendError>)
        ensures
            answered(op, *self, r),
    {
        match op {
            Ok(()) => Ok(BackendUpdate::Snapshot(self.snapshot_value())),
            Err(e) => Err(e),
        }
    }

    /// Executes one command, as `executed` describes.
    pub fn execute(&mut self, command: BackendCommand) -> (r: Result<BackendUpdate, BackendError>)
        requires
            old(self).wf(),
        ensures
            final(self).wf(),
            executed(*old(self), *final(self), command, r),
    {
        let ghost start = *self;
        match command {
            BackendCommand::RefreshLibrary => {
                return Ok(BackendUpdate::Notice {
                    availability: BackendAvailability::Available,
                    playback: self.playback.copy_of(),
                    message: "Mock library is already ready".to_owned(),
                });
            },
            BackendCommand::OpenPlayer => {
                return Err(BackendError::Unsupported(Capability::Launch));
            },
            BackendCommand::Play => {
                self.require_track()?;
                self.playback.status = PlaybackStatus::Playing;
            },
            BackendCommand::Pause => {
                self.require_track()?;
                if self.playback.status == PlaybackStatus::Playing {
                    self.playback.status = PlaybackStatus::Paused;
                }
            },
            BackendCommand::Stop => {
                self.playback.status = PlaybackStatus::Stopped;
                self.playback.position = Duration::zero();
                self.playback.context = PlaybackContext::NoContext;
                return Ok(BackendUpdate::Stopped {
                    availability: BackendAvailability::Available,
                    playback: self.playback.copy_of(),
                });
            },
            BackendCommand::PlayPause => {
                self.require_track()?;
                self.playback.status = match self.playback.status {
                    PlaybackStatus::Playing => PlaybackStatus::Paused,
                    PlaybackStatus::Paused => PlaybackStatus::Playing,
                    PlaybackStatus::Stopped => PlaybackStatus::Playing,
                };
            },
            BackendCommand::PlayTrack(track_id) => {
                let op = self.play_track(&track_id);
                return self.answer(op);
            },
            BackendCommand::PlayPlaylistTrack { playlist_id, ordered_track_ids, selected_index, complete } => {
                let op = self.play_playlist_track(&playlist_id, &ordered_track_ids, selected_index, complete);
                return self.answer(op);
            },
            BackendCommand::PlayPlaylist(playlist_id) => {
                let op = self.play_playlist(&playlist_id);
                return self.answer(op);
            },
            BackendCommand::PlayAlbum { album_id, track_ids } => {
                let op = self.play_album(&album_id, &track_ids);
                return self.answer(op);
            },
            BackendCommand::LoadTrackArtwork { key, .. } => {
                return Ok(BackendUpdate::Artwork {
                    availability: BackendAvailability::Available,
                    playback: self.playback.copy_of(),
                    key,
                    result: ArtworkResult::Missing,
                });
            },
            BackendCommand::LoadPlaylist(_) => {},
            BackendCommand::RemovePlaylistTrack { .. } => {
                return Err(BackendError::Unsupported(Capability::PlaylistTrackRemove));
            },
            BackendCommand::Next => {
                let op = self.next_track(false);
                return self.answer(op);
            },
            BackendCommand::Previous => {
                let op = self.previous_track();
                return self.answer(op);
            },
            BackendCommand::SeekBy(seconds) => {
                let op = self.seek_by(seconds);
                return self.answer(op);
            },
            BackendCommand::SetVolume(volume) => {
                self.playback.volume = if volume < 100 {
                    volume
                } else {
                    100
                };
            },
            BackendCommand::ToggleMute => {
                self.playback.muted = !self.playback.muted;
            },
            BackendCommand::ToggleShuffle => {
                self.playback.shuffle = !self.playback.shuffle;
                self.playback.context = PlaybackContext::NoContext;
            },
            BackendCommand::CycleRepeat => {
                self.playback.repeat = self.playback.repeat.next();
            },
            BackendCommand::ToggleFavoriteCurrent => {
                let op = self.toggle_favorite();
                return self.answer(op);
            },
            BackendCommand::Enqueue(track) => {
                let queue_id = numbered_id("mock-queue-", self.next_queue_id);
                self.next_queue_id = self.next_queue_id.saturating_add(1);
                let ghost before = self.queue@;
                self.queue.push(QueueItem::new(queue_id.as_str(), *track));
                proof {
                    assert(self.queue@.take(before.len() as int) =~= before);
                }
                if self.playback.current_track.is_none() {
                    self.current_index = 0;
                    self.select_current();
                }
            },
            BackendCommand::RemoveQueueItem(index) => {
                let op = self.remove_queue_item(index);
                return self.answer(op);
            },
            BackendCommand::MoveQueueItem { from, to } => {
                let op = self.move_queue_item(from, to);
                return self.answer(op);
            },
        }
        Ok(BackendUpdate::Snapshot(self.snapshot_value()))
    }

    /// Moves playback on by `elapsed`, as `ticked` describes.
    pub fn tick(&mut self, elapsed: Duration) -> (r: Result<Option<BackendUpdate>, BackendError>)
        requires
            old(self).wf(),
        ensures
            final(self).wf(),
            ticked(*old(self), *final(self), elapsed, r),
    {
        if self.playback.status != PlaybackStatus::Playing {
            return Ok(None);
        }
        self.playback.position = self.playback.position.saturating_add(elapsed);
        let length = match &self.playback.current_track {
            Some(track) => track.duration,
            None => Duration::zero(),
        };
        proof {
            crate::domain::lemma_duration_values(0, self.playback.position, elapsed);
        }
        if self.playback.position.is_at_least(&length) {
            let op = self.next_track(true);
            match op {
                Ok(()) => {},
                Err(e) => {
                    return Err(e);
                },
            }
        }
        Ok(Some(BackendUpdate::Snapshot(self.snapshot_value())))
    }
}

impl Default for MockMusicBackend {
    fn default() -> (r: Self)
        ensures
            r.wf(),
    {
        MockMusicBackend::new()
    }
}

/// The identities of the demonstration tracks, in library order.
pub open spec fn mock_track_ids() -> Seq<Seq<char>> {
    seq!["mock-001"@, "mock-002"@, "mock-003"@, "mock-004"@, "mock-005"@, "mock-006"@]
}

/// The identities of the demonstration albums, in order.
pub open spec fn mock_album_ids() -> Seq<Seq<char>> {
    seq!["mock-album-event-loop"@, "mock-album-safe-transitions"@, "mock-album-terminal-safety"@]
}

/// The identities of the demonstration artists, in order.
pub open spec fn mock_artist_ids() -> Seq<Seq<char>> {
    seq!["mock-artist-asyncs"@, "mock-artist-ferris"@, "mock-artist-raw-mode"@]
}

/// The identities of the demonstration stations, in order.
pub open spec fn mock_station_ids() -> Seq<Seq<char>> {
    seq!["mock-station-music-one"@, "mock-station-chill"@, "mock-station-alternative"@]
}

/// The identities of the demonstration playlists, in order.
pub open spec fn mock_playlist_ids() -> Seq<Seq<char>> {
    seq![
        "mock-playlist-terminal-focus"@,
        "mock-playlist-safe-transitions"@,
        "mock-playlist-all-tracks"@,
        "mock-playlist-folder-work"@,
        "mock-playlist-nested-terminal-focus"@,
    ]
}

impl MockMusicBackend {
    /// The demonstration state: six tracks in three albums by three artists, three
    /// stations, five playlists (one a folder holding a playlist whose name repeats a
    /// top-level one), and the library queued with its first track current and stopped.
    pub fn new() -> (r: Self)
        ensures
            r.wf(),
            r.library@.len() == 6,
            forall|i: int| 0 <= i < 6 ==> (#[trigger] r.library@[i]).id@ == mock_track_ids()[i],
            queue_matches(r.queue@, r.library@, "mock-queue-"@),
            r.current_index == 0,
            r.next_queue_id == 6,
            r.artists@.len() == 3,
            r.albums@.len() == 3,
            r.stations@.len() == 3,
            r.playlists@.len() == 5,
            forall|i: int| 0 <= i < 3 ==> (#[trigger] r.albums@[i]).id@ == mock_album_ids()[i],
            forall|i: int| 0 <= i < 3 ==> (#[trigger] r.artists@[i]).id@ == mock_artist_ids()[i],
            forall|i: int| 0 <= i < 3 ==> (#[trigger] r.stations@[i]).id@ == mock_station_ids()[i],
            forall|i: int| 0 <= i < 5 ==> (#[trigger] r.playlists@[i]).id@ == mock_playlist_ids()[i],
            r.albums@[0].tracks@ == seq![r.library@[0], r.library@[2]],
            r.albums@[1].tracks@ == seq![r.library@[1], r.library@[3]],
            r.albums@[2].tracks@ == seq![r.library@[4], r.library@[5]],
            r.artists@[0].name@ == "The Asyncs"@,
            r.albums@[0].title@ == "Event Loop"@,
            r.stations@[0].name@ == "Apple Music 1 (Mock)"@,
            r.playlists@[0].name@ == "Terminal Focus"@,
            r.playlists@[0].description is Some,
            r.playlists@[0].tracks@.len() == 3,
            r.playlists@[3].kind == crate::domain::PlaylistKind::Folder,
            r.playlists@[4].parent_id matches Some(p) && p@ == r.playlists@[3].id@,
            r.library@[0].metadata.play_count == Some(12u64),
            r.library@[1].metadata.play_count == Some(4u64),
            r.library@[0].metadata.last_played_date is Some,
            r.library@[1].metadata.last_played_date is Some,
            forall|i: int| 2 <= i < 6 ==> (#[trigger] r.library@[i]).metadata.last_played_date is None,
            r.playback.status == PlaybackStatus::Stopped,
            r.playback.position@ == 0,
            r.playback.current_entry_id == Some(r.queue@[0].id),
            r.playback.current_track == Some(r.library@[0]),
            r.playback.context == PlaybackContext::NoContext,
            r.playback.volume == 50,
            !r.playback.muted,
            !r.playback.shuffle,
            r.playback.repeat == RepeatMode::Off,
    {
        let mut library: Vec<Track> = Vec::new();
        library.push(Track::new("mock-001", "Midnight Terminal", "The Asyncs", "Event Loop", Duration::from_secs(238)));
        library.push(Track::new("mock-002", "Borrowed Time", "Ferris & Friends", "Safe Transitions", Duration::from_secs(194)));
        library.push(Track::new("mock-003", "No Blocking Calls", "The Asyncs", "Event Loop", Duration::from_secs(263)));
        library.push(Track::new("mock-004", "Capability Blues", "Ferris & Friends", "Safe Transitions", Duration::from_secs(221)));
        library.push(Track::new("mock-005", "Alternate Screen", "Raw Mode", "Terminal Safety", Duration::from_secs(207)));
        library.push(Track::new("mock-006", "Stale Request", "Raw Mode", "Terminal Safety", Duration::from_secs(182)));
        library[0].metadata.last_played_date = Some("2026-08-03T18:30:00.000Z".to_owned());
        library[0].metadata.play_count = Some(12);
        library[1].metadata.last_played_date = Some("2026-08-02T09:15:00.000Z".to_owned());
        library[1].metadata.play_count = Some(4);
        let queue = build_queue(copy_exact(&library), "mock-queue-");
        let mut albums: Vec<Album> = Vec::new();
        let mut event_loop: Vec<Track> = Vec::new();
        event_loop.push(library[0].duplicate());
        event_loop.push(library[2].duplicate());
        albums.push(Album::new("mock-album-event-loop", "Event Loop", "The Asyncs", 2026, "2026-07-30", event_loop));
        let mut safe: Vec<Track> = Vec::new();
        safe.push(library[1].duplicate());
        safe.push(library[3].duplicate());
        albums.push(Album::new("mock-album-safe-transitions", "Safe Transitions", "Ferris & Friends", 2026, "2026-07-24", safe));
        let mut terminal: Vec<Track> = Vec::new();
        terminal.push(library[4].duplicate());
        terminal.push(library[5].duplicate());
        albums.push(Album::new("mock-album-terminal-safety", "Terminal Safety", "Raw Mode", 2025, "2026-07-12", terminal));
        let mut artists: Vec<Artist> = Vec::new();
        let mut asyncs_albums: Vec<AlbumId> = Vec::new();
        asyncs_albums.push(albums[0].id.duplicate());
        let mut asyncs_tracks: Vec<TrackId> = Vec::new();
        asyncs_tracks.push(library[0].id.duplicate());
        asyncs_tracks.push(library[2].id.duplicate());
        artists.push(Artist::new("mock-artist-asyncs", "The Asyncs", asyncs_albums, asyncs_tracks));
        let mut ferris_albums: Vec<AlbumId> = Vec::new();
        ferris_albums.push(albums[1].id.duplicate());
        let mut ferris_tracks: Vec<TrackId> = Vec::new();
        ferris_tracks.push(library[1].id.duplicate());
        ferris_tracks.push(library[3].id.duplicate());
        artists.push(Artist::new("mock-artist-ferris", "Ferris & Friends", ferris_albums, ferris_tracks));
        let mut raw_albums: Vec<AlbumId> = Vec::new();
        raw_albums.push(albums[2].id.duplicate());
        let mut raw_tracks: Vec<TrackId> = Vec::new();
        raw_tracks.push(library[4].id.duplicate());
        raw_tracks.push(library[5].id.duplicate());
        artists.push(Artist::new("mock-artist-raw-mode", "Raw Mode", raw_albums, raw_tracks));
        let mut stations: Vec<Station> = Vec::new();
        stations.push(Station::new("mock-station-music-one", "Apple Music 1 (Mock)", "Demo global pop and artist interviews."));
        stations.push(Station::new("mock-station-chill", "Chill Station (Mock)", "Deterministic low-key selections for focus."));
        stations.push(Station::new("mock-station-alternative", "Alternative Station (Mock)", "A demo mix of alternative catalog tracks."));
        let folder_id = PlaylistId::new("mock-playlist-folder-work");
        let mut folder = Playlist::new(
            "mock-playlist-folder-work",
            "Work",
            Some("A mock folder for hierarchy and expansion tests.".to_owned()),
            Vec::new(),
        );
        folder.kind = crate::domain::PlaylistKind::Folder;
        let mut nested_tracks: Vec<Track> = Vec::new();
        nested_tracks.push(library[0].duplicate());
        nested_tracks.push(library[4].duplicate());
        let mut nested_duplicate = Playlist::new(
            "mock-playlist-nested-terminal-focus",
            "Terminal Focus",
            Some("A duplicate name nested under the Work folder.".to_owned()),
            nested_tracks,
        );
        nested_duplicate.parent_id = Some(folder_id.duplicate());
        let mut focus_tracks: Vec<Track> = Vec::new();
        focus_tracks.push(library[0].duplicate());
        focus_tracks.push(library[2].duplicate());
        focus_tracks.push(library[4].duplicate());
        let mut safe_tracks: Vec<Track> = Vec::new();
        safe_tracks.push(library[1].duplicate());
        safe_tracks.push(library[3].duplicate());
        safe_tracks.push(library[5].duplicate());
        let mut playlists: Vec<Playlist> = Vec::new();
        playlists.push(Playlist::new(
            "mock-playlist-terminal-focus",
            "Terminal Focus",
            Some("A focused set for building reliable terminal applications.".to_owned()),
            focus_tracks,
        ));
        playlists.push(Playlist::new(
            "mock-playlist-safe-transitions",
            "Safe Transitions",
            Some("Deterministic tracks for testing state changes.".to_owned()),
            safe_tracks,
        ));
        playlists.push(Playlist::new("mock-playlist-all-tracks", "Mock Library", None, copy_exact(&library)));
        playlists.push(folder);
        playlists.push(nested_duplicate);
        let mut playback = PlaybackSnapshot::initial();
        playback.current_entry_id = Some(queue[0].id.copy_of());
        playback.current_track = Some(queue[0].track.duplicate());
        proof {
            assert(queue@[0].track == library@[0]);
        }
        MockMusicBackend {
            library,
            artists,
            albums,
            stations,
            playlists,
            queue,
            current_index: 0,
            next_queue_id: 6,
            playback,
        }
    }
}

/// Flipping the current track's favorite mark twice restores the queue and, where the
/// library's copy of the track carries the same mark, the library.
pub proof fn law_favorite_toggle_twice(a: MockMusicBackend, b: MockMusicBackend, c: MockMusicBackend)
    requires
        a.wf(),
        a.queue@.len() > 0,
        forall|k: int| #[trigger] first_library_track(a.library@, a.queue@[a.current_index as int].track.id@, k)
            ==> a.library@[k].is_favorite == a.queue@[a.current_index as int].track.is_favorite,
        favorite_done(a, b, Ok(())),
        favorite_done(b, c, Ok(())),
    ensures
        c.queue@ == a.queue@,
        c.library@ == a.library@,
        c.current_index == a.current_index,
{
    let i = a.current_index as int;
    assert(b.queue@.len() == a.queue@.len());
    assert(b.current_index == a.current_index);
    assert(c.queue@ =~= a.queue@) by {
        assert(c.queue@[i] == a.queue@[i]);
    }
    let t = a.queue@[i].track;
    assert(b.queue@[i].track.id@ == t.id@);
    if exists|k: int| first_library_track(a.library@, t.id@, k) {
        let k = choose|k: int| first_library_track(a.library@, t.id@, k);
        assert(first_library_track(b.library@, t.id@, k)) by {
            assert forall|j: int| 0 <= j < k implies (#[trigger] b.library@[j]).id@ != t.id@ by {
                assert(b.library@[j] == a.library@[j]);
            }
        }
        let k2 = choose|k: int| first_library_track(b.library@, t.id@, k);
        assert(k2 == k) by {
            if k2 < k {
                assert(b.library@[k2] == a.library@[k2]);
            } else if k < k2 {
                assert(b.library@[k].id@ == t.id@);
            }
        }
        assert(c.library@ =~= a.library@);
    } else {
        assert(!exists|k: int| first_library_track(b.library@, t.id@, k)) by {
            if exists|k: int| first_library_track(b.library@, t.id@, k) {
                let k = choose|k: int| first_library_track(b.library@, t.id@, k);
                assert(b.library@ == a.library@);
                assert(first_library_track(a.library@, t.id@, k));
            }
        }
    }
}

} // verus!
