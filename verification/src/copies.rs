//! Exact copies of domain values, and of lists of them.
use vstd::prelude::*;

use crate::domain::{
    Album, AlbumId, Artist, ArtistId, PlaybackContext, PlaybackSnapshot, Playlist, PlaylistId,
    QueueEntryId, QueueItem, RecentlyPlayedEntry, Station, StationId, Track, TrackId,
};

verus! {

/// Values that can be copied: the copy holds the same data, lists of it by their elements.
pub trait Duplicate: Sized {
    /// Whether `self` holds the same data as `original`.
    spec fn copied_from(&self, original: &Self) -> bool;

    fn copy_of(&self) -> (r: Self)
        ensures
            r.copied_from(self),
    ;
}

/// Whether every element of `copy` is a copy of the element of `original` at its position.
pub open spec fn all_copied<T: Duplicate>(copy: Seq<T>, original: Seq<T>) -> bool {
    copy.len() == original.len() && forall|i: int| 0 <= i < copy.len() ==> (#[trigger] copy[i]).copied_from(&original[i])
}

/// A copy of a list, element by element.
pub fn copy_all<T: Duplicate>(v: &Vec<T>) -> (r: Vec<T>)
    ensures
        all_copied(r@, v@),
{
    let mut out: Vec<T> = Vec::new();
    let mut i: usize = 0;
    while i < v.len()
        invariant
            i <= v@.len(),
            out@.len() == i,
            forall|k: int| 0 <= k < i ==> (#[trigger] out@[k]).copied_from(&v@[k]),
        decreases v.len() - i,
    {
        out.push(v[i].copy_of());
        i = i + 1;
    }
    out
}

/// An exact copy of a list of values whose copies are equal to them.
pub fn copy_exact<T: Duplicate>(v: &Vec<T>) -> (r: Vec<T>)
    requires
        forall|a: T, b: T| #[trigger] a.copied_from(&b) ==> a == b,
    ensures
        r@ == v@,
{
    let r = copy_all(v);
    assert(r@ =~= v@) by {
        assert forall|i: int| 0 <= i < r@.len() implies r@[i] == v@[i] by {
            assert(r@[i].copied_from(&v@[i]));
        }
    }
    r
}

/// An exact copy of an optional value whose copies are equal to it.
pub fn copy_option<T: Duplicate>(o: &Option<T>) -> (r: Option<T>)
    requires
        forall|a: T, b: T| #[trigger] a.copied_from(&b) ==> a == b,
    ensures
        r == *o,
{
    match o {
        Some(v) => Some(v.copy_of()),
        None => None,
    }
}

/// Whether two playback contexts name the same collection, track order and position.
pub open spec fn context_copied(a: PlaybackContext, b: PlaybackContext) -> bool {
    match (a, b) {
        (PlaybackContext::NoContext, PlaybackContext::NoContext) => true,
        (
            PlaybackContext::Album { album_id: x, ordered_track_ids: xs, current_index: i },
            PlaybackContext::Album { album_id: y, ordered_track_ids: ys, current_index: j },
        ) => x == y && xs@ == ys@ && i == j,
        (
            PlaybackContext::Playlist { playlist_id: x, ordered_track_ids: xs, current_index: i, current_source_index: si, complete: c },
            PlaybackContext::Playlist { playlist_id: y, ordered_track_ids: ys, current_index: j, current_source_index: sj, complete: d },
        ) => x == y && xs@ == ys@ && i == j && si == sj && c == d,
        _ => false,
    }
}

impl Duplicate for String {
    open spec fn copied_from(&self, original: &Self) -> bool {
        *self == *original
    }

    fn copy_of(&self) -> (r: Self) {
        self.clone()
    }
}

impl Duplicate for TrackId {
    open spec fn copied_from(&self, original: &Self) -> bool {
        *self == *original
    }

    fn copy_of(&self) -> (r: Self) {
        self.duplicate()
    }
}

impl Duplicate for PlaylistId {
    open spec fn copied_from(&self, original: &Self) -> bool {
        *self == *original
    }

    fn copy_of(&self) -> (r: Self) {
        self.duplicate()
    }
}

impl Duplicate for AlbumId {
    open spec fn copied_from(&self, original: &Self) -> bool {
        *self == *original
    }

    fn copy_of(&self) -> (r: Self) {
        self.duplicate()
    }
}

impl Duplicate for ArtistId {
    open spec fn copied_from(&self, original: &Self) -> bool {
        *self == *original
    }

    fn copy_of(&self) -> (r: Self) {
        self.duplicate()
    }
}

impl Duplicate for StationId {
    open spec fn copied_from(&self, original: &Self) -> bool {
        *self == *original
    }

    fn copy_of(&self) -> (r: Self) {
        self.duplicate()
    }
}

impl Duplicate for QueueEntryId {
    open spec fn copied_from(&self, original: &Self) -> bool {
        *self == *original
    }

    fn copy_of(&self) -> (r: Self) {
        self.duplicate()
    }
}

impl Duplicate for Track {
    open spec fn copied_from(&self, original: &Self) -> bool {
        *self == *original
    }

    fn copy_of(&self) -> (r: Self) {
        self.duplicate()
    }
}

impl Duplicate for QueueItem {
    open spec fn copied_from(&self, original: &Self) -> bool {
        *self == *original
    }

    fn copy_of(&self) -> (r: Self) {
        QueueItem { id: self.id.copy_of(), track: self.track.duplicate() }
    }
}

impl Duplicate for Album {
    open spec fn copied_from(&self, original: &Self) -> bool {
        self.id == original.id && self.title == original.title && self.artist == original.artist
            && self.year == original.year && self.added_date == original.added_date && self.tracks@ == original.tracks@
    }

    fn copy_of(&self) -> (r: Self) {
        Album {
            id: self.id.duplicate(),
            title: self.title.clone(),
            artist: self.artist.clone(),
            year: self.year,
            added_date: self.added_date.clone(),
            tracks: copy_exact(&self.tracks),
        }
    }
}

impl Duplicate for Artist {
    open spec fn copied_from(&self, original: &Self) -> bool {
        self.id == original.id && self.name == original.name && self.album_ids@ == original.album_ids@
            && self.top_track_ids@ == original.top_track_ids@
    }

    fn copy_of(&self) -> (r: Self) {
        Artist {
            id: self.id.duplicate(),
            name: self.name.clone(),
            album_ids: copy_exact(&self.album_ids),
            top_track_ids: copy_exact(&self.top_track_ids),
        }
    }
}

impl Duplicate for Station {
    open spec fn copied_from(&self, original: &Self) -> bool {
        *self == *original
    }

    fn copy_of(&self) -> (r: Self) {
        Station { id: self.id.copy_of(), name: self.name.clone(), description: self.description.clone() }
    }
}

impl Duplicate for Playlist {
    open spec fn copied_from(&self, original: &Self) -> bool {
        self.id == original.id && self.name == original.name && self.description == original.description
            && self.tracks@ == original.tracks@ && self.track_count == original.track_count
            && self.contents_state == original.contents_state && self.kind == original.kind
            && self.parent_id == original.parent_id && self.origin == original.origin
    }

    fn copy_of(&self) -> (r: Self) {
        Playlist {
            id: self.id.duplicate(),
            name: self.name.clone(),
            description: copy_option(&self.description),
            tracks: copy_exact(&self.tracks),
            track_count: self.track_count,
            contents_state: self.contents_state.duplicate(),
            kind: self.kind,
            parent_id: copy_option(&self.parent_id),
            origin: self.origin,
        }
    }
}

impl Duplicate for RecentlyPlayedEntry {
    open spec fn copied_from(&self, original: &Self) -> bool {
        *self == *original
    }

    fn copy_of(&self) -> (r: Self) {
        RecentlyPlayedEntry {
            track_id: self.track_id.duplicate(),
            title: self.title.clone(),
            artist: self.artist.clone(),
            play_count: self.play_count,
            played_at: self.played_at.clone(),
        }
    }
}

impl Duplicate for PlaybackContext {
    open spec fn copied_from(&self, original: &Self) -> bool {
        context_copied(*self, *original)
    }

    fn copy_of(&self) -> (r: Self) {
        match self {
            PlaybackContext::NoContext => PlaybackContext::NoContext,
            PlaybackContext::Album { album_id, ordered_track_ids, current_index } => PlaybackContext::Album {
                album_id: album_id.duplicate(),
                ordered_track_ids: copy_exact(ordered_track_ids),
                current_index: *current_index,
            },
            PlaybackContext::Playlist { playlist_id, ordered_track_ids, current_index, current_source_index, complete } => {
                PlaybackContext::Playlist {
                    playlist_id: playlist_id.duplicate(),
                    ordered_track_ids: copy_exact(ordered_track_ids),
                    current_index: *current_index,
                    current_source_index: *current_source_index,
                    complete: *complete,
                }
            },
        }
    }
}

impl Duplicate for PlaybackSnapshot {
    open spec fn copied_from(&self, original: &Self) -> bool {
        self.status == original.status && self.current_entry_id == original.current_entry_id
            && self.current_track == original.current_track && self.position == original.position
            && self.volume == original.volume && self.muted == original.muted && self.shuffle == original.shuffle
            && self.repeat == original.repeat && context_copied(self.context, original.context)
    }

    fn copy_of(&self) -> (r: Self) {
        PlaybackSnapshot {
            status: self.status,
            current_entry_id: copy_option(&self.current_entry_id),
            current_track: copy_option(&self.current_track),
            position: self.position,
            volume: self.volume,
            muted: self.muted,
            shuffle: self.shuffle,
            repeat: self.repeat,
            context: self.context.copy_of(),
        }
    }
}

} // verus!
