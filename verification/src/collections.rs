//! Sorting and filtering of the Songs, Albums and Artists collections.
//!
//! Every row of a collection has a sort entry: a primary key (whether the sorted
//! field is present, a number, and a text) and the row's identity. Rows are ordered by
//! the primary key, ascending or descending, and rows with equal primary keys by their
//! identity, ascending.
use vstd::prelude::*;
use vstd::multiset::Multiset;
use vstd::seq_lib::*;

use crate::domain::{Album, Artist, Track};
use crate::state::{CollectionKind, CollectionSort};
use crate::text::{chars_of, compare_chars, join_space, lemma_lex_order_flip, lemma_lex_order_range, lex_order, normalize_search_text, opt_text, spec_normalize};

verus! {

/// The sort fields offered for a collection, in menu order.
pub open spec fn spec_sort_fields(collection: CollectionKind) -> Seq<CollectionSort> {
    match collection {
        CollectionKind::Songs => seq![
            CollectionSort::SongTitle,
            CollectionSort::SongArtist,
            CollectionSort::SongAlbum,
            CollectionSort::SongDateAdded,
            CollectionSort::SongYear,
            CollectionSort::SongPlayCount,
        ],
        CollectionKind::Albums => seq![
            CollectionSort::AlbumTitle,
            CollectionSort::AlbumArtist,
            CollectionSort::AlbumYear,
            CollectionSort::AlbumRecentlyAdded,
        ],
        CollectionKind::Artists => seq![
            CollectionSort::ArtistName,
            CollectionSort::ArtistAlbumCount,
            CollectionSort::ArtistTrackCount,
        ],
    }
}

pub fn sort_fields(collection: CollectionKind) -> (r: Vec<CollectionSort>)
    ensures
        r@ == spec_sort_fields(collection),
{
    let r = match collection {
        CollectionKind::Songs => vec![
            CollectionSort::SongTitle,
            CollectionSort::SongArtist,
            CollectionSort::SongAlbum,
            CollectionSort::SongDateAdded,
            CollectionSort::SongYear,
            CollectionSort::SongPlayCount,
        ],
        CollectionKind::Albums => vec![
            CollectionSort::AlbumTitle,
            CollectionSort::AlbumArtist,
            CollectionSort::AlbumYear,
            CollectionSort::AlbumRecentlyAdded,
        ],
        CollectionKind::Artists => vec![
            CollectionSort::ArtistName,
            CollectionSort::ArtistAlbumCount,
            CollectionSort::ArtistTrackCount,
        ],
    };
    assert(r@ =~= spec_sort_fields(collection));
    r
}

/// The sort position and identity of one collection row.
pub struct SortEntry {
    pub present: bool,
    pub number: u64,
    pub text: Vec<char>,
    pub identity: Vec<char>,
}

pub open spec fn entry_view(e: SortEntry) -> (bool, int, Seq<char>, Seq<char>) {
    (e.present, e.number as int, e.text@, e.identity@)
}

/// Primary-key comparison: absent before present, then by number, then by text.
pub open spec fn primary_order(a: (bool, int, Seq<char>, Seq<char>), b: (bool, int, Seq<char>, Seq<char>)) -> int {
    if a.0 != b.0 {
        if !a.0 {
            -1
        } else {
            1
        }
    } else if a.1 < b.1 {
        -1
    } else if a.1 > b.1 {
        1
    } else {
        lex_order(a.2, b.2)
    }
}

/// The row order: primary key (reversed when descending), then identity.
pub open spec fn row_order(a: (bool, int, Seq<char>, Seq<char>), b: (bool, int, Seq<char>, Seq<char>), descending: bool) -> int {
    let p = primary_order(a, b);
    let q = if descending {
        -p
    } else {
        p
    };
    if q != 0 {
        q
    } else {
        lex_order(a.3, b.3)
    }
}

/// Comparing rows in the other order flips the sign.
pub proof fn lemma_row_order_flip(a: (bool, int, Seq<char>, Seq<char>), b: (bool, int, Seq<char>, Seq<char>), descending: bool)
    ensures
        row_order(a, b, descending) == -row_order(b, a, descending),
{
    lemma_lex_order_flip(a.2, b.2);
    lemma_lex_order_flip(a.3, b.3);
}

/// Compares two rows as `row_order` does.
pub fn compare_entries(a: &SortEntry, b: &SortEntry, descending: bool) -> (r: i8)
    ensures
        r as int == row_order(entry_view(*a), entry_view(*b), descending),
{
    let p: i8 = if a.present != b.present {
        if !a.present {
            -1
        } else {
            1
        }
    } else if a.number < b.number {
        -1
    } else if a.number > b.number {
        1
    } else {
        compare_chars(&a.text, &b.text)
    };
    proof {
        lemma_lex_order_range(a.text@, b.text@);
    }
    let q: i8 = if descending {
        -p
    } else {
        p
    };
    if q != 0 {
        q
    } else {
        compare_chars(&a.identity, &b.identity)
    }
}

/// `out` lists rows in order: each row is at or before the next.
pub open spec fn sorted_by(out: Seq<usize>, entries: Seq<SortEntry>, descending: bool) -> bool {
    forall|k: int|
        0 <= k < out.len() - 1 ==> row_order(
            entry_view(entries[#[trigger] out[k] as int]),
            entry_view(entries[out[k + 1] as int]),
            descending,
        ) <= 0
}

/// Every position in `s` is a row of `entries`.
pub open spec fn within(s: Seq<usize>, n: nat) -> bool {
    forall|k: int| 0 <= k < s.len() ==> #[trigger] s[k] < n
}

proof fn lemma_empty_multiset()
    ensures
        Seq::<usize>::empty().to_multiset() == Multiset::<usize>::empty(),
{
    broadcast use vstd::seq_lib::group_to_multiset_ensures;
    assert(Seq::<usize>::empty().to_multiset() =~= Multiset::<usize>::empty());
}

/// Orders `indices` by the rows' sort entries (insertion sort, stable for equal rows).
/// The result holds exactly the given positions, in row order.
pub fn sort_indices(indices: &Vec<usize>, entries: &Vec<SortEntry>, descending: bool) -> (r: Vec<usize>)
    requires
        within(indices@, entries@.len()),
    ensures
        r@.to_multiset() == indices@.to_multiset(),
        within(r@, entries@.len()),
        sorted_by(r@, entries@, descending),
{
    let mut out: Vec<usize> = Vec::new();
    let mut i: usize = 0;
    proof {
        assert(indices@.take(0) =~= Seq::<usize>::empty());
        assert(out@ =~= Seq::<usize>::empty());
        lemma_empty_multiset();
    }
    while i < indices.len()
        invariant
            i <= indices@.len(),
            within(indices@, entries@.len()),
            within(out@, entries@.len()),
            out@.to_multiset() == indices@.take(i as int).to_multiset(),
            sorted_by(out@, entries@, descending),
        decreases indices.len() - i,
    {
        let x = indices[i];
        let mut pos = out.len();
        while pos > 0 && compare_entries(&entries[x], &entries[out[pos - 1]], descending) < 0
            invariant
                pos <= out@.len(),
                x < entries@.len(),
                within(out@, entries@.len()),
                pos < out@.len() ==> row_order(entry_view(entries@[x as int]), entry_view(entries@[out@[pos as int] as int]), descending) < 0,
            decreases pos,
        {
            pos = pos - 1;
        }
        proof {
            if pos > 0 {
                lemma_row_order_flip(entry_view(entries@[x as int]), entry_view(entries@[out@[pos - 1] as int]), descending);
            }
        }
        let ghost before = out@;
        out.insert(pos, x);
        proof {
            assert(out@ =~= before.insert(pos as int, x));
            to_multiset_insert(before, pos as int, x);
            assert(indices@.take(i + 1) =~= indices@.take(i as int).push(x));
            to_multiset_build(indices@.take(i as int), x);
            assert forall|k: int| 0 <= k < out@.len() implies #[trigger] out@[k] < entries@.len() by {
                if k < pos {
                    assert(out@[k] == before[k]);
                } else if k > pos {
                    assert(out@[k] == before[k - 1]);
                }
            }
            assert forall|k: int|
                0 <= k < out@.len() - 1 implies row_order(
                entry_view(entries@[#[trigger] out@[k] as int]),
                entry_view(entries@[out@[k + 1] as int]),
                descending,
            ) <= 0 by {
                if k + 1 < pos {
                    assert(out@[k] == before[k]);
                    assert(out@[k + 1] == before[k + 1]);
                } else if k + 1 == pos {
                    assert(out@[k] == before[k]);
                    assert(out@[k + 1] == x);
                } else if k == pos {
                    assert(out@[k] == x);
                    assert(out@[k + 1] == before[k]);
                } else {
                    assert(out@[k] == before[k - 1]);
                    assert(out@[k + 1] == before[k]);
                }
            }
        }
        i = i + 1;
    }
    assert(indices@.take(indices@.len() as int) =~= indices@);
    out
}

/// The normalized filter text of a song: title, artist, album, album artist and genre.
pub open spec fn song_filter_text(t: Track) -> Seq<char> {
    spec_normalize(join_space(seq![t.title@, t.artist@, t.album@, opt_text(t.metadata.album_artist), opt_text(t.metadata.genre)]))
}

/// The normalized filter text of an album: title and artist.
pub open spec fn album_filter_text(a: Album) -> Seq<char> {
    spec_normalize(join_space(seq![a.title@, a.artist@]))
}

/// The normalized filter text of an artist: the name.
pub open spec fn artist_filter_text(a: Artist) -> Seq<char> {
    spec_normalize(a.name@)
}

/// The sort entry of a song under a sort field.
pub open spec fn song_entry(t: Track, sort: CollectionSort) -> (bool, int, Seq<char>, Seq<char>) {
    let primary: (bool, int, Seq<char>) = match sort {
        CollectionSort::SongTitle => (true, 0, spec_normalize(t.title@)),
        CollectionSort::SongArtist => (true, 0, spec_normalize(t.artist@)),
        CollectionSort::SongAlbum => (true, 0, spec_normalize(t.album@)),
        CollectionSort::SongDateAdded => (t.metadata.date_added is Some, 0, opt_text(t.metadata.date_added)),
        CollectionSort::SongYear => (t.metadata.year is Some, match t.metadata.year {
            Some(y) => y as int,
            None => 0,
        }, Seq::empty()),
        CollectionSort::SongPlayCount => (t.metadata.play_count is Some, match t.metadata.play_count {
            Some(c) => c as int,
            None => 0,
        }, Seq::empty()),
        _ => (true, 0, Seq::empty()),
    };
    (primary.0, primary.1, primary.2, t.id@)
}

/// The sort entry of an album under a sort field.
pub open spec fn album_entry(a: Album, sort: CollectionSort) -> (bool, int, Seq<char>, Seq<char>) {
    let primary: (bool, int, Seq<char>) = match sort {
        CollectionSort::AlbumTitle => (true, 0, spec_normalize(a.title@)),
        CollectionSort::AlbumArtist => (true, 0, spec_normalize(a.artist@)),
        CollectionSort::AlbumYear => (true, a.year as int, Seq::empty()),
        CollectionSort::AlbumRecentlyAdded => (true, 0, a.added_date@),
        _ => (true, 0, Seq::empty()),
    };
    (primary.0, primary.1, primary.2, a.id@)
}

/// The sort entry of an artist under a sort field.
pub open spec fn artist_entry(a: Artist, sort: CollectionSort) -> (bool, int, Seq<char>, Seq<char>) {
    let primary: (bool, int, Seq<char>) = match sort {
        CollectionSort::ArtistName => (true, 0, spec_normalize(a.name@)),
        CollectionSort::ArtistAlbumCount => (true, a.album_ids@.len() as int, Seq::empty()),
        CollectionSort::ArtistTrackCount => (true, a.top_track_ids@.len() as int, Seq::empty()),
        _ => (true, 0, Seq::empty()),
    };
    (primary.0, primary.1, primary.2, a.id@)
}

fn text_entry(text: &str, identity: &str) -> (r: SortEntry)
    ensures
        entry_view(r) == (true, 0int, spec_normalize(text@), identity@),
{
    let normalized = normalize_search_text(text);
    SortEntry { present: true, number: 0, text: chars_of(normalized.as_str()), identity: chars_of(identity) }
}

fn number_entry(present: bool, number: u64, identity: &str) -> (r: SortEntry)
    ensures
        entry_view(r) == (present, number as int, Seq::<char>::empty(), identity@),
{
    SortEntry { present, number, text: Vec::new(), identity: chars_of(identity) }
}

/// The sort entry of a song.
pub fn song_sort_entry(t: &Track, sort: CollectionSort) -> (r: SortEntry)
    ensures
        entry_view(r) == song_entry(*t, sort),
{
    match sort {
        CollectionSort::SongTitle => text_entry(t.title.as_str(), t.id.as_str()),
        CollectionSort::SongArtist => text_entry(t.artist.as_str(), t.id.as_str()),
        CollectionSort::SongAlbum => text_entry(t.album.as_str(), t.id.as_str()),
        CollectionSort::SongDateAdded => match &t.metadata.date_added {
            Some(d) => SortEntry { present: true, number: 0, text: chars_of(d.as_str()), identity: chars_of(t.id.as_str()) },
            None => number_entry(false, 0, t.id.as_str()),
        },
        CollectionSort::SongYear => match t.metadata.year {
            Some(y) => number_entry(true, y as u64, t.id.as_str()),
            None => number_entry(false, 0, t.id.as_str()),
        },
        CollectionSort::SongPlayCount => match t.metadata.play_count {
            Some(c) => number_entry(true, c, t.id.as_str()),
            None => number_entry(false, 0, t.id.as_str()),
        },
        _ => number_entry(true, 0, t.id.as_str()),
    }
}

/// The sort entry of an album.
pub fn album_sort_entry(a: &Album, sort: CollectionSort) -> (r: SortEntry)
    ensures
        entry_view(r) == album_entry(*a, sort),
{
    match sort {
        CollectionSort::AlbumTitle => text_entry(a.title.as_str(), a.id.as_str()),
        CollectionSort::AlbumArtist => text_entry(a.artist.as_str(), a.id.as_str()),
        CollectionSort::AlbumYear => number_entry(true, a.year as u64, a.id.as_str()),
        CollectionSort::AlbumRecentlyAdded => SortEntry {
            present: true,
            number: 0,
            text: chars_of(a.added_date.as_str()),
            identity: chars_of(a.id.as_str()),
        },
        _ => number_entry(true, 0, a.id.as_str()),
    }
}

/// The sort entry of an artist.
pub fn artist_sort_entry(a: &Artist, sort: CollectionSort) -> (r: SortEntry)
    ensures
        entry_view(r) == artist_entry(*a, sort),
{
    match sort {
        CollectionSort::ArtistName => text_entry(a.name.as_str(), a.id.as_str()),
        CollectionSort::ArtistAlbumCount => number_entry(true, a.album_ids.len() as u64, a.id.as_str()),
        CollectionSort::ArtistTrackCount => number_entry(true, a.top_track_ids.len() as u64, a.id.as_str()),
        _ => number_entry(true, 0, a.id.as_str()),
    }
}

} // verus!
