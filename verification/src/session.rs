//! Synthesized playback sessions over a playlist or an album.
//!
//! Music.app plays one track at a time; the session remembers the ordered tracks of the
//! collection and where playback stands in it.  Every session track carries the selector
//! that addresses it in Music.app and its index in the source collection.  With shuffle,
//! the tracks after the current one are ordered by a rank derived from a per-cycle seed;
//! the tracks before it stay as history.
use std::hash::Hasher;
use vstd::prelude::*;

use crate::backend::BackendError;
use crate::domain::{AlbumId, PlaybackContext, PlaylistId, RepeatMode, TrackId};
use crate::music_app::{selector_view, spec_selector_view, track_selector};
use crate::script::TrackSelector;

verus! {

/// One track of a session: its identity, how Music.app addresses it, and its index in the
/// source collection.
#[derive(Clone, Debug, PartialEq, Eq)]
pub struct SessionTrack {
    pub id: TrackId,
    pub selector: TrackSelector,
    pub source_index: usize,
}

/// The collection a session plays.
#[derive(Clone, Debug, PartialEq, Eq)]
pub enum SessionSource {
    Playlist { playlist_id: PlaylistId, complete: bool, known_source_len: usize },
    Album { album_id: AlbumId },
}

/// A track change the session asked Music.app for and has not yet observed.
#[derive(Clone, Debug, PartialEq, Eq)]
pub struct ExpectedTransition {
    pub from: Option<TrackSelector>,
    pub to: TrackSelector,
    /// Until when, in the caller's monotonic milliseconds, the old track may still show.
    pub deadline_ms: u64,
}

/// An ordered collection being played track by track.
#[derive(Clone, Debug, PartialEq, Eq)]
pub struct PlaybackSession {
    pub source: SessionSource,
    pub tracks: Vec<SessionTrack>,
    pub index: usize,
    /// The confirmed Music.app shuffle mode committed to this session.
    pub shuffle_enabled: bool,
    /// One ordering seed per enabled shuffle cycle.
    pub shuffle_seed: Option<u64>,
    pub transition: Option<ExpectedTransition>,
    pub waiting_for_more: bool,
}

/// What a session does when the current track ends.
#[derive(Clone, Copy, Debug, PartialEq, Eq, Structural)]
pub enum SessionAdvance {
    Play(usize),
    WaitForMore,
    End,
}

/// The identity and source index of a session track.
pub open spec fn entry_of(t: SessionTrack) -> (Seq<char>, int) {
    (t.id@, t.source_index as int)
}

/// The identities and source indices of session tracks, in order.
pub open spec fn entries_of(ts: Seq<SessionTrack>) -> Seq<(Seq<char>, int)> {
    ts.map_values(|t: SessionTrack| entry_of(t))
}

/// A session track's selector is the one its identity gives.
pub open spec fn track_wf(t: SessionTrack) -> bool {
    spec_selector_view(t.id@) == Some(selector_view(t.selector))
}

/// Whether every track's selector is the one its identity gives.
pub open spec fn tracks_wf(ts: Seq<SessionTrack>) -> bool {
    forall|i: int| 0 <= i < ts.len() ==> track_wf(#[trigger] ts[i])
}

/// The tracks of a source collection that Music.app can address, each with its index:
/// those among the identities from `start` up to `n` that carry a Music.app selector.
pub open spec fn selectable_range(ids: Seq<Seq<char>>, start: nat, n: nat) -> Seq<(Seq<char>, int)>
    decreases n,
{
    if n <= start {
        Seq::empty()
    } else {
        let previous = selectable_range(ids, start, (n - 1) as nat);
        if spec_selector_view(ids[n - 1]) is Some {
            previous.push((ids[n - 1], n - 1))
        } else {
            previous
        }
    }
}

/// The addressable tracks among the first `n` identities, each with its index.
pub open spec fn selectable_entries(ids: Seq<Seq<char>>, n: nat) -> Seq<(Seq<char>, int)> {
    selectable_range(ids, 0, n)
}

/// The views of a list of track identities.
pub open spec fn id_views(ids: Seq<TrackId>) -> Seq<Seq<char>> {
    ids.map_values(|id: TrackId| id@)
}

/// Whether a list of identities lists the session tracks' identities in order.
pub open spec fn ids_match(ids: Seq<TrackId>, ts: Seq<SessionTrack>) -> bool {
    ids.len() == ts.len() && forall|i: int| 0 <= i < ts.len() ==> (#[trigger] ids[i])@ == ts[i].id@
}

/// What the shuffle rank of a track is: `DefaultHasher` fed the seed and the source index as
/// little-endian 64-bit words, then the bytes of the identity and a 0xff byte.  The input
/// bytes have a fixed width, so the rank is the same on every machine.
pub uninterp spec fn track_rank(seed: u64, source_index: usize, id: Seq<char>) -> u64;

/// The shuffle rank of a session track.
pub open spec fn rank_of(seed: u64, t: SessionTrack) -> u64 {
    track_rank(seed, t.source_index, t.id@)
}

/// An order of session tracks: by shuffle rank under a seed, or by source index.
#[derive(Clone, Copy, Debug, PartialEq, Eq, Structural)]
pub enum TrackOrder {
    Shuffled(u64),
    Source,
}

/// The key a track is ordered by.
pub open spec fn order_key(order: TrackOrder, t: SessionTrack) -> int {
    match order {
        TrackOrder::Shuffled(seed) => rank_of(seed, t) as int,
        TrackOrder::Source => t.source_index as int,
    }
}

/// Whether tracks are in nondecreasing order of their keys.
pub open spec fn sorted_by(ts: Seq<SessionTrack>, order: TrackOrder) -> bool {
    forall|i: int, j: int| 0 <= i < j < ts.len() ==> order_key(order, #[trigger] ts[i]) <= order_key(order, #[trigger] ts[j])
}

/// Whether tracks are in nondecreasing shuffle rank.
pub open spec fn sorted_by_rank(ts: Seq<SessionTrack>, seed: u64) -> bool {
    sorted_by(ts, TrackOrder::Shuffled(seed))
}

/// Trusted: writes the seed and the source index as little-endian 64-bit words, then the
/// identity's bytes and a 0xff byte, into `std::collections::hash_map::DefaultHasher::new`
/// (`Hasher::write`, which hashes exactly the bytes given), and returns `finish`; the result
/// is named `track_rank`.  Fixed-width encodings keep the rank independent of the
/// machine's word size and byte order, which hashing `usize` natively would not.
#[verifier::external_body]
fn shuffled_track_rank(seed: u64, track: &SessionTrack) -> (r: u64)
    ensures
        r == track_rank(seed, track.source_index, track.id@),
{
    let mut hasher = std::collections::hash_map::DefaultHasher::new();
    hasher.write(&seed.to_le_bytes());
    hasher.write(&(track.source_index as u64).to_le_bytes());
    hasher.write(track.id.as_str().as_bytes());
    hasher.write(&[0xff]);
    hasher.finish()
}

/// `ts` with its first element moved to the end.
pub open spec fn rotate_left(ts: Seq<SessionTrack>) -> Seq<SessionTrack> {
    ts.drop_first().push(ts[0])
}

/// How a shuffled future relates to its canonical order: a rank-sorted permutation in which
/// tracks of equal rank keep their canonical order, moved on by one place when the ranks
/// happen to keep the canonical order of more than one track.
pub open spec fn shuffled_from(future: Seq<SessionTrack>, canonical: Seq<SessionTrack>, seed: u64) -> bool {
    &&& future.to_multiset() == canonical.to_multiset()
    &&& {
        ||| sorted_by_rank(future, seed) && stable_by(future, canonical, TrackOrder::Shuffled(seed))
            && !(canonical.len() > 1 && entries_of(future) == entries_of(canonical))
        ||| canonical.len() > 1 && sorted_by_rank(canonical, seed)
            && entries_of(future) == entries_of(rotate_left(canonical))
    }
}

fn key_of(order: TrackOrder, t: &SessionTrack) -> (r: u64)
    ensures
        r as int == order_key(order, *t),
{
    match order {
        TrackOrder::Shuffled(seed) => shuffled_track_rank(seed, t),
        TrackOrder::Source => t.source_index as u64,
    }
}

/// The tracks of `ts` whose key under `order` is `k`, in their order in `ts`.
pub open spec fn with_key(ts: Seq<SessionTrack>, order: TrackOrder, k: int) -> Seq<SessionTrack>
    decreases ts.len(),
{
    if ts.len() == 0 {
        Seq::empty()
    } else if order_key(order, ts.last()) == k {
        with_key(ts.drop_last(), order, k).push(ts.last())
    } else {
        with_key(ts.drop_last(), order, k)
    }
}

/// Whether `out` keeps the tracks of equal key in their order in `inp`.
pub open spec fn stable_by(out: Seq<SessionTrack>, inp: Seq<SessionTrack>, order: TrackOrder) -> bool {
    forall|k: int| #[trigger] with_key(out, order, k) == with_key(inp, order, k)
}

proof fn lemma_with_key_add(a: Seq<SessionTrack>, b: Seq<SessionTrack>, order: TrackOrder, k: int)
    ensures
        with_key(a + b, order, k) == with_key(a, order, k) + with_key(b, order, k),
    decreases b.len(),
{
    if b.len() == 0 {
        assert(a + b =~= a);
        assert(with_key(b, order, k) =~= Seq::<SessionTrack>::empty());
        assert(with_key(a, order, k) + Seq::<SessionTrack>::empty() =~= with_key(a, order, k));
    } else {
        assert((a + b).drop_last() =~= a + b.drop_last());
        assert((a + b).last() == b.last());
        lemma_with_key_add(a, b.drop_last(), order, k);
        if order_key(order, b.last()) == k {
            assert(with_key(a, order, k) + with_key(b.drop_last(), order, k).push(b.last()) =~= (with_key(a, order, k)
                + with_key(b.drop_last(), order, k)).push(b.last()));
        }
    }
}

proof fn lemma_with_key_none(a: Seq<SessionTrack>, order: TrackOrder, k: int)
    requires
        forall|j: int| 0 <= j < a.len() ==> order_key(order, #[trigger] a[j]) != k,
    ensures
        with_key(a, order, k) == Seq::<SessionTrack>::empty(),
    decreases a.len(),
{
    if a.len() > 0 {
        lemma_with_key_none(a.drop_last(), order, k);
        assert(a.last() == a[a.len() - 1]);
    }
}

proof fn lemma_with_key_one(t: SessionTrack, order: TrackOrder, k: int)
    ensures
        with_key(seq![t], order, k) == (if order_key(order, t) == k { seq![t] } else { Seq::<SessionTrack>::empty() }),
{
    assert(seq![t].drop_last() =~= Seq::<SessionTrack>::empty());
    assert(with_key(seq![t].drop_last(), order, k) == Seq::<SessionTrack>::empty());
    assert(seq![t].last() == t);
    if order_key(order, t) == k {
        assert(Seq::<SessionTrack>::empty().push(t) =~= seq![t]);
    }
}

/// The tracks in the given order; a stable selection of the least key first.
fn sort_tracks(tracks: Vec<SessionTrack>, order: TrackOrder) -> (r: Vec<SessionTrack>)
    ensures
        r@.to_multiset() == tracks@.to_multiset(),
        sorted_by(r@, order),
        stable_by(r@, tracks@, order),
{
    let ghost original = tracks@;
    let mut rest = tracks;
    let mut out: Vec<SessionTrack> = Vec::new();
    proof {
        broadcast use vstd::seq_lib::group_to_multiset_ensures, vstd::multiset::group_multiset_axioms;
        assert(out@.to_multiset() =~= vstd::multiset::Multiset::empty());
        assert(out@.to_multiset().add(rest@.to_multiset()) =~= original.to_multiset());
        assert forall|k: int| #[trigger] with_key(out@, order, k) + with_key(rest@, order, k) == with_key(original, order, k) by {
            assert(with_key(out@, order, k) =~= Seq::<SessionTrack>::empty());
            assert(Seq::<SessionTrack>::empty() + with_key(rest@, order, k) =~= with_key(rest@, order, k));
        }
    }
    while rest.len() > 0
        invariant
            out@.to_multiset().add(rest@.to_multiset()) == original.to_multiset(),
            forall|k: int| #[trigger] with_key(out@, order, k) + with_key(rest@, order, k) == with_key(original, order, k),
            sorted_by(out@, order),
            forall|i: int, j: int| 0 <= i < out@.len() && 0 <= j < rest@.len() ==> order_key(order, #[trigger] out@[i]) <= order_key(order, #[trigger] rest@[j]),
        decreases rest.len(),
    {
        let mut best: usize = 0;
        let mut best_rank = key_of(order, &rest[0]);
        let mut i: usize = 1;
        while i < rest.len()
            invariant
                0 < rest@.len(),
                best < rest@.len(),
                1 <= i <= rest@.len(),
                best_rank as int == order_key(order, rest@[best as int]),
                forall|j: int| 0 <= j < i ==> best_rank <= order_key(order, #[trigger] rest@[j]),
                forall|j: int| 0 <= j < best ==> best_rank < order_key(order, #[trigger] rest@[j]),
            decreases rest.len() - i,
        {
            let r = key_of(order, &rest[i]);
            if r < best_rank {
                best = i;
                best_rank = r;
            }
            i = i + 1;
        }
        let ghost before_rest = rest@;
        proof {
            broadcast use vstd::seq_lib::group_to_multiset_ensures, vstd::multiset::group_multiset_axioms;
        }
        let ghost before_out = out@;
        let t = rest.remove(best);
        out.push(t);
        proof {
            assert(rest@ == before_rest.remove(best as int));
            assert(out@ == before_out.push(t));
            assert(t == before_rest[best as int]);
            assert(out@.to_multiset().add(rest@.to_multiset()) =~= original.to_multiset());
            let pre = before_rest.subrange(0, best as int);
            let post = before_rest.subrange(best + 1, before_rest.len() as int);
            assert(before_rest =~= pre + seq![t] + post);
            assert(rest@ =~= pre + post);
            assert(out@ =~= before_out + seq![t]);
            assert forall|k: int| #[trigger] with_key(out@, order, k) + with_key(rest@, order, k) == with_key(original, order, k) by {
                lemma_with_key_add(before_out, seq![t], order, k);
                lemma_with_key_add(pre + seq![t], post, order, k);
                lemma_with_key_add(pre, seq![t], order, k);
                lemma_with_key_add(pre, post, order, k);
                lemma_with_key_one(t, order, k);
                let wo = with_key(before_out, order, k);
                let wp = with_key(pre, order, k);
                let wt = with_key(seq![t], order, k);
                let wq = with_key(post, order, k);
                assert(with_key(before_out, order, k) + with_key(before_rest, order, k) == with_key(original, order, k));
                assert(with_key(before_rest, order, k) == wp + wt + wq);
                assert(with_key(out@, order, k) == wo + wt);
                assert(with_key(rest@, order, k) == wp + wq);
                if order_key(order, t) == k {
                    assert forall|j: int| 0 <= j < pre.len() implies order_key(order, #[trigger] pre[j]) != k by {
                        assert(pre[j] == before_rest[j]);
                    }
                    lemma_with_key_none(pre, order, k);
                    assert(wo + wt + (wp + wq) =~= wo + (wp + wt + wq));
                } else {
                    assert(wt =~= Seq::<SessionTrack>::empty());
                    assert(wo + wt + (wp + wq) =~= wo + (wp + wt + wq));
                }
            }
            assert forall|a: int, b: int| 0 <= a < b < out@.len() implies order_key(order, #[trigger] out@[a]) <= order_key(order, #[trigger] out@[b]) by {
                if b == out@.len() - 1 {
                    assert(out@[b] == before_rest[best as int]);
                    assert(out@[a] == before_out[a]);
                } else {
                    assert(out@[a] == before_out[a]);
                    assert(out@[b] == before_out[b]);
                }
            }
            assert forall|a: int, b: int| 0 <= a < out@.len() && 0 <= b < rest@.len() implies order_key(order, #[trigger] out@[a]) <= order_key(order, #[trigger] rest@[b]) by {
                let ob = if b < best { b } else { b + 1 };
                assert(rest@[b] == before_rest[ob]);
                if a == out@.len() - 1 {
                    assert(out@[a] == before_rest[best as int]);
                } else {
                    assert(out@[a] == before_out[a]);
                }
            }
        }
    }
    proof {
        broadcast use vstd::seq_lib::group_to_multiset_ensures, vstd::multiset::group_multiset_axioms;
        assert(rest@.to_multiset() =~= vstd::multiset::Multiset::empty());
        assert(out@.to_multiset() =~= original.to_multiset());
        assert forall|k: int| #[trigger] with_key(out@, order, k) == with_key(original, order, k) by {
            assert(with_key(rest@, order, k) =~= Seq::<SessionTrack>::empty());
            assert(with_key(out@, order, k) + with_key(rest@, order, k) == with_key(original, order, k));
            assert(with_key(out@, order, k) + Seq::<SessionTrack>::empty() =~= with_key(out@, order, k));
        }
    }
    out
}

/// The tracks ordered by shuffle rank.
fn sort_by_rank(tracks: Vec<SessionTrack>, seed: u64) -> (r: Vec<SessionTrack>)
    ensures
        r@.to_multiset() == tracks@.to_multiset(),
        sorted_by_rank(r@, seed),
        stable_by(r@, tracks@, TrackOrder::Shuffled(seed)),
{
    sort_tracks(tracks, TrackOrder::Shuffled(seed))
}

/// Whether two lists of session tracks hold the same identities and source indices.
fn same_entries(a: &Vec<SessionTrack>, b: &Vec<SessionTrack>) -> (r: bool)
    ensures
        r == (entries_of(a@) == entries_of(b@)),
{
    if a.len() != b.len() {
        proof {
            assert(entries_of(a@).len() != entries_of(b@).len());
        }
        return false;
    }
    let mut i: usize = 0;
    while i < a.len()
        invariant
            a@.len() == b@.len(),
            i <= a@.len(),
            forall|k: int| 0 <= k < i ==> entry_of(#[trigger] a@[k]) == entry_of(b@[k]),
        decreases a.len() - i,
    {
        if a[i].source_index != b[i].source_index || !a[i].id.same(&b[i].id) {
            proof {
                assert(entries_of(a@)[i as int] != entries_of(b@)[i as int]);
            }
            return false;
        }
        i = i + 1;
    }
    proof {
        assert(entries_of(a@) =~= entries_of(b@));
    }
    true
}

/// The shuffled order of a future: ranked, and moved on by one place when the ranks keep
/// the canonical order of more than one track.
fn shuffle_future(canonical: Vec<SessionTrack>, seed: u64) -> (r: Vec<SessionTrack>)
    ensures
        shuffled_from(r@, canonical@, seed),
{
    let ghost c = canonical@;
    let snapshot_len = canonical.len();
    let mut copy: Vec<SessionTrack> = Vec::new();
    let mut k: usize = 0;
    while k < canonical.len()
        invariant
            k <= canonical@.len(),
            copy@.len() == k,
            forall|j: int| 0 <= j < k ==> entry_of(#[trigger] copy@[j]) == entry_of(canonical@[j]),
        decreases canonical.len() - k,
    {
        let t = SessionTrack {
            id: canonical[k].id.duplicate(),
            selector: canonical[k].selector.clone(),
            source_index: canonical[k].source_index,
        };
        copy.push(t);
        k = k + 1;
    }
    proof {
        assert(entries_of(copy@) =~= entries_of(canonical@));
    }
    let mut future = sort_by_rank(canonical, seed);
    if snapshot_len > 1 && same_entries(&future, &copy) {
        proof {
            lemma_same_entries_sorted(future@, c, seed);
        }
        let ghost sorted = future@;
        let first = future.remove(0);
        future.push(first);
        proof {
            assert(future@ =~= rotate_left(sorted));
            lemma_rotate_multiset(sorted);
            vstd::seq_lib::to_multiset_len(sorted);
            vstd::seq_lib::to_multiset_len(c);
            lemma_rotate_entries(sorted, c);
        }
    }
    future
}

/// A rank-sorted permutation with the same entries as the canonical order is the
/// canonical order itself.
proof fn lemma_same_entries_sorted(sorted: Seq<SessionTrack>, canonical: Seq<SessionTrack>, seed: u64)
    requires
        sorted.to_multiset() == canonical.to_multiset(),
        sorted_by_rank(sorted, seed),
        entries_of(sorted) == entries_of(canonical),
    ensures
        sorted_by_rank(canonical, seed),
{
    assert forall|i: int, j: int| 0 <= i < j < canonical.len() implies rank_of(seed, #[trigger] canonical[i]) <= rank_of(seed, #[trigger] canonical[j]) by {
        assert(sorted.len() == canonical.len()) by {
            vstd::seq_lib::to_multiset_len(sorted);
            vstd::seq_lib::to_multiset_len(canonical);
        }
        assert(entries_of(sorted)[i] == entries_of(canonical)[i]);
        assert(entries_of(sorted)[j] == entries_of(canonical)[j]);
        assert(entries_of(sorted)[i] == entry_of(sorted[i]));
        assert(entries_of(sorted)[j] == entry_of(sorted[j]));
        assert(entries_of(canonical)[i] == entry_of(canonical[i]));
        assert(entries_of(canonical)[j] == entry_of(canonical[j]));
        assert(rank_of(seed, sorted[i]) == rank_of(seed, canonical[i]));
        assert(rank_of(seed, sorted[j]) == rank_of(seed, canonical[j]));
    }
}

proof fn lemma_rotate_entries(a: Seq<SessionTrack>, b: Seq<SessionTrack>)
    requires
        a.len() == b.len(),
        a.len() > 0,
        entries_of(a) == entries_of(b),
    ensures
        entries_of(rotate_left(a)) == entries_of(rotate_left(b)),
{
    assert forall|i: int| 0 <= i < a.len() implies entry_of(#[trigger] a[i]) == entry_of(b[i]) by {
        assert(entries_of(a)[i] == entry_of(a[i]));
        assert(entries_of(b)[i] == entry_of(b[i]));
    }
    assert forall|i: int| 0 <= i < a.len() implies #[trigger] entries_of(rotate_left(a))[i] == entries_of(rotate_left(b))[i] by {
        if i < a.len() - 1 {
            assert(rotate_left(a)[i] == a[i + 1]);
            assert(rotate_left(b)[i] == b[i + 1]);
        } else {
            assert(rotate_left(a)[i] == a[0]);
            assert(rotate_left(b)[i] == b[0]);
        }
    }
    assert(entries_of(rotate_left(a)) =~= entries_of(rotate_left(b)));
}

proof fn lemma_rotate_multiset(c: Seq<SessionTrack>)
    requires
        c.len() > 0,
    ensures
        rotate_left(c).to_multiset() == c.to_multiset(),
{
    assert(c =~= seq![c[0]] + c.drop_first());
    assert(rotate_left(c) =~= c.drop_first() + seq![c[0]]);
    vstd::seq_lib::lemma_seq_union_to_multiset_commutative(c.drop_first(), seq![c[0]]);
}

impl PlaybackSession {
    /// A session's current position names one of its tracks, and every selector is the one
    /// its track's identity gives.
    pub open spec fn wf(&self) -> bool {
        &&& self.index < self.tracks@.len()
        &&& tracks_wf(self.tracks@)
    }

    /// Whether the source collection is fully known: always for an album.
    pub open spec fn spec_source_is_complete(&self) -> bool {
        match self.source {
            SessionSource::Playlist { complete, .. } => complete,
            SessionSource::Album { .. } => true,
        }
    }

    /// Whether the source collection is fully known.
    pub fn source_is_complete(&self) -> (r: bool)
        ensures
            r == self.spec_source_is_complete(),
    {
        match &self.source {
            SessionSource::Playlist { complete, .. } => *complete,
            SessionSource::Album { .. } => true,
        }
    }

    /// Which track follows the current one: the same one under repeat-one, the next one,
    /// the first one when a complete collection repeats, or none.
    pub open spec fn spec_next_index(&self, repeat: RepeatMode) -> Option<int> {
        if repeat == RepeatMode::One {
            Some(self.index as int)
        } else if self.index + 1 < self.tracks@.len() {
            Some(self.index + 1)
        } else if self.spec_source_is_complete() && repeat == RepeatMode::All {
            Some(0)
        } else {
            None
        }
    }

    /// The index of the track that follows the current one.
    pub fn next_index(&self, repeat: RepeatMode) -> (r: Option<usize>)
        requires
            self.wf(),
        ensures
            match r {
                Some(i) => self.spec_next_index(repeat) == Some(i as int),
                None => self.spec_next_index(repeat) is None,
            },
    {
        let n = self.tracks.len();
        if repeat == RepeatMode::One {
            Some(self.index)
        } else if self.index + 1 < n {
            Some(self.index + 1)
        } else if self.source_is_complete() && repeat == RepeatMode::All {
            Some(0)
        } else {
            None
        }
    }

    /// The playback context the session publishes: the source collection, the ordered
    /// track identities and the current position.
    pub fn context(&self) -> (r: PlaybackContext)
        requires
            self.wf(),
        ensures
            match (r, self.source) {
                (
                    PlaybackContext::Playlist { playlist_id, ordered_track_ids, current_index, current_source_index, complete },
                    SessionSource::Playlist { playlist_id: source_id, complete: source_complete, .. },
                ) => playlist_id == source_id && ids_match(ordered_track_ids@, self.tracks@)
                    && current_index == self.index
                    && current_source_index == self.tracks@[self.index as int].source_index
                    && complete == source_complete,
                (
                    PlaybackContext::Album { album_id, ordered_track_ids, current_index },
                    SessionSource::Album { album_id: source_id },
                ) => album_id == source_id && ids_match(ordered_track_ids@, self.tracks@)
                    && current_index == self.index,
                _ => false,
            },
    {
        let mut ids: Vec<TrackId> = Vec::new();
        let mut i: usize = 0;
        while i < self.tracks.len()
            invariant
                i <= self.tracks@.len(),
                ids_match(ids@, self.tracks@.take(i as int)),
            decreases self.tracks.len() - i,
        {
            ids.push(self.tracks[i].id.duplicate());
            i = i + 1;
        }
        assert(self.tracks@.take(self.tracks@.len() as int) =~= self.tracks@);
        match &self.source {
            SessionSource::Playlist { playlist_id, complete, .. } => PlaybackContext::Playlist {
                playlist_id: playlist_id.duplicate(),
                ordered_track_ids: ids,
                current_index: self.index,
                current_source_index: self.tracks[self.index].source_index,
                complete: *complete,
            },
            SessionSource::Album { album_id } => PlaybackContext::Album {
                album_id: album_id.duplicate(),
                ordered_track_ids: ids,
                current_index: self.index,
            },
        }
    }

    /// What to do when the current track ends: play the following track, or, when the
    /// source is still loading, wait for more of it; otherwise the session ends.
    pub fn automatic_advance(&mut self, repeat: RepeatMode) -> (r: SessionAdvance)
        requires
            old(self).wf(),
        ensures
            final(self).wf(),
            match old(self).spec_next_index(repeat) {
                Some(i) => r == SessionAdvance::Play(i as usize) && *final(self) == *old(self),
                None => if !old(self).spec_source_is_complete() {
                    r == SessionAdvance::WaitForMore
                        && *final(self) == (PlaybackSession { waiting_for_more: true, ..*old(self) })
                } else {
                    r == SessionAdvance::End && *final(self) == *old(self)
                },
            },
    {
        if let Some(index) = self.next_index(repeat) {
            return SessionAdvance::Play(index);
        }
        if !self.source_is_complete() {
            self.waiting_for_more = true;
            return SessionAdvance::WaitForMore;
        }
        SessionAdvance::End
    }
}

/// Facts about the selectable entries of a source collection: each sits at its own source
/// index below `n`, carries that identity, and every selectable identity below `n` is listed.
proof fn lemma_selectable_entries(ids: Seq<Seq<char>>, n: nat)
    requires
        n <= ids.len(),
    ensures
        forall|k: int| 0 <= k < selectable_entries(ids, n).len() ==> {
            let e = #[trigger] selectable_entries(ids, n)[k];
            0 <= e.1 < n && e.0 == ids[e.1] && spec_selector_view(e.0) is Some
        },
        forall|a: int, b: int| 0 <= a < b < selectable_entries(ids, n).len() ==>
            (#[trigger] selectable_entries(ids, n)[a]).1 < (#[trigger] selectable_entries(ids, n)[b]).1,
        forall|j: int| 0 <= j < n && (spec_selector_view(#[trigger] ids[j]) is Some) ==>
            exists|k: int| 0 <= k < selectable_entries(ids, n).len() && selectable_entries(ids, n)[k].1 == j,
    decreases n,
{
    if n > 0 {
        lemma_selectable_entries(ids, (n - 1) as nat);
        let previous = selectable_entries(ids, (n - 1) as nat);
        assert(selectable_entries(ids, n) == (if spec_selector_view(ids[n - 1]) is Some {
            previous.push((ids[n - 1], n - 1))
        } else {
            previous
        }));
        if spec_selector_view(ids[n - 1]) is Some {
            let cur = previous.push((ids[n - 1], n - 1));
            assert(selectable_entries(ids, n) == cur);
            assert forall|j: int| 0 <= j < n && (spec_selector_view(#[trigger] ids[j]) is Some) implies
                exists|k: int| 0 <= k < cur.len() && cur[k].1 == j by {
                if j == n - 1 {
                    assert(cur[previous.len() as int].1 == j);
                } else {
                    let k = choose|k: int| 0 <= k < previous.len() && previous[k].1 == j;
                    assert(cur[k].1 == j);
                }
            }
        }
    }
}

/// The session tracks of a source collection from `start` on: every identity that carries
/// a Music.app selector, with its source index.
fn selectable_tracks_from(track_ids: &Vec<TrackId>, start: usize) -> (r: Vec<SessionTrack>)
    ensures
        entries_of(r@) == selectable_range(id_views(track_ids@), start as nat, track_ids@.len()),
        tracks_wf(r@),
{
    let ghost ids = id_views(track_ids@);
    let mut tracks: Vec<SessionTrack> = Vec::new();
    let mut i: usize = start;
    if i > track_ids.len() {
        i = track_ids.len();
        proof {
            lemma_selectable_range_empty(ids, start as nat, track_ids@.len());
        }
    }
    assert(entries_of(tracks@) =~= selectable_range(ids, start as nat, i as nat));
    while i < track_ids.len()
        invariant
            i <= track_ids@.len(),
            start <= i || i == track_ids@.len(),
            ids == id_views(track_ids@),
            entries_of(tracks@) == selectable_range(ids, start as nat, i as nat),
            tracks_wf(tracks@),
        decreases track_ids.len() - i,
    {
        match track_selector(&track_ids[i]) {
            Ok(selector) => {
                let t = SessionTrack { id: track_ids[i].duplicate(), selector, source_index: i };
                let ghost before = tracks@;
                tracks.push(t);
                proof {
                    assert(ids[i as int] == track_ids@[i as int]@);
                    assert(entries_of(tracks@) =~= entries_of(before).push(entry_of(t)));
                    assert forall|k: int| 0 <= k < tracks@.len() implies track_wf(#[trigger] tracks@[k]) by {
                        if k < before.len() {
                            assert(tracks@[k] == before[k]);
                        }
                    }
                }
            },
            Err(_) => {
                proof {
                    assert(ids[i as int] == track_ids@[i as int]@);
                }
            },
        }
        i = i + 1;
    }
    tracks
}

proof fn lemma_selectable_range_empty(ids: Seq<Seq<char>>, start: nat, n: nat)
    requires
        n <= start,
    ensures
        selectable_range(ids, start, n) == Seq::<(Seq<char>, int)>::empty(),
{
}

/// The session tracks of a whole source collection.
fn selectable_tracks(track_ids: &Vec<TrackId>) -> (r: Vec<SessionTrack>)
    ensures
        entries_of(r@) == selectable_entries(id_views(track_ids@), track_ids@.len()),
        tracks_wf(r@),
{
    selectable_tracks_from(track_ids, 0)
}

/// The first position of a track identity among session tracks.
pub open spec fn first_position_of(ts: Seq<SessionTrack>, id: Seq<char>, p: int) -> bool {
    &&& 0 <= p < ts.len()
    &&& ts[p].id@ == id
    &&& forall|q: int| 0 <= q < p ==> (#[trigger] ts[q]).id@ != id
}

/// The position of the track with this identity and source index, if any.
fn position_of_entry(tracks: &Vec<SessionTrack>, id: &TrackId, source_index: usize) -> (r: Option<usize>)
    ensures
        match r {
            Some(k) => k < tracks@.len() && entry_of(tracks@[k as int]) == (id@, source_index as int),
            None => forall|k: int| 0 <= k < tracks@.len() ==> entry_of(#[trigger] tracks@[k]) != (id@, source_index as int),
        },
{
    let mut k: usize = 0;
    while k < tracks.len()
        invariant
            k <= tracks@.len(),
            forall|j: int| 0 <= j < k ==> entry_of(#[trigger] tracks@[j]) != (id@, source_index as int),
        decreases tracks.len() - k,
    {
        if tracks[k].source_index == source_index && tracks[k].id.same(id) {
            return Some(k);
        }
        k = k + 1;
    }
    None
}

/// The first position of a track identity, if any.
fn first_position(tracks: &Vec<SessionTrack>, id: &TrackId) -> (r: Option<usize>)
    ensures
        match r {
            Some(k) => first_position_of(tracks@, id@, k as int),
            None => forall|k: int| 0 <= k < tracks@.len() ==> (#[trigger] tracks@[k]).id@ != id@,
        },
{
    let mut k: usize = 0;
    while k < tracks.len()
        invariant
            k <= tracks@.len(),
            forall|j: int| 0 <= j < k ==> (#[trigger] tracks@[j]).id@ != id@,
        decreases tracks.len() - k,
    {
        if tracks[k].id.same(id) {
            return Some(k);
        }
        k = k + 1;
    }
    None
}

/// The session that plays a playlist from the selected entry, as `create_playlist_session`
/// describes it.
pub open spec fn playlist_session_created(
    playlist_id: PlaylistId,
    ids: Seq<TrackId>,
    selected_index: usize,
    complete: bool,
    shuffle_seed: Option<u64>,
    r: Result<PlaybackSession, BackendError>,
) -> bool {
    let entries = selectable_entries(id_views(ids), ids.len());
    if selected_index >= ids.len() {
        r == Err::<PlaybackSession, BackendError>(BackendError::PlaylistNotFound(playlist_id))
    } else if spec_selector_view(ids[selected_index as int]@) is None {
        r == Err::<PlaybackSession, BackendError>(BackendError::TrackNotFound(ids[selected_index as int]))
    } else {
        exists|k: int| #![trigger entries[k]]
            0 <= k < entries.len() && entries[k].1 == selected_index && match r {
            Ok(s) => {
                &&& s.wf()
                &&& s.source == (SessionSource::Playlist { playlist_id, complete, known_source_len: ids.len() as usize })
                &&& s.shuffle_seed == shuffle_seed
                &&& s.shuffle_enabled == (shuffle_seed is Some)
                &&& s.transition is None
                &&& !s.waiting_for_more
                &&& match shuffle_seed {
                    None => entries_of(s.tracks@) == entries && s.index == k,
                    Some(seed) => {
                        &&& entries_of(s.tracks@.take(k + 1)) == entries.take(k + 1)
                        &&& s.tracks@.len() == entries.len()
                        &&& exists|canonical: Seq<SessionTrack>| #![trigger entries_of(canonical)]
                            entries_of(canonical) == entries.skip(k + 1)
                                && shuffled_from(s.tracks@.skip(k + 1), canonical, seed)
                        &&& first_position_of(s.tracks@, ids[selected_index as int]@, s.index as int)
                    },
                }
            },
            Err(_) => false,
        }
    }
}

/// A session over a playlist's ordered entries, positioned on the selected entry.  Entries
/// without a Music.app selector are left out.  With a shuffle seed, the entries after the
/// selected one are shuffled and the earlier ones stay as history.
pub fn create_playlist_session(
    playlist_id: PlaylistId,
    track_ids: Vec<TrackId>,
    selected_index: usize,
    complete: bool,
    shuffle_seed: Option<u64>,
) -> (r: Result<PlaybackSession, BackendError>)
    ensures
        playlist_session_created(playlist_id, track_ids@, selected_index, complete, shuffle_seed, r),
{
    if selected_index >= track_ids.len() {
        return Err(BackendError::PlaylistNotFound(playlist_id));
    }
    let selected_id = track_ids[selected_index].duplicate();
    let known_source_len = track_ids.len();
    let ghost ids = id_views(track_ids@);
    let mut tracks = selectable_tracks(&track_ids);
    proof {
        lemma_selectable_entries(ids, track_ids@.len());
        assert(ids[selected_index as int] == selected_id@);
    }
    let session_index = match position_of_entry(&tracks, &selected_id, selected_index) {
        Some(k) => k,
        None => {
            proof {
                if spec_selector_view(ids[selected_index as int]) is Some {
                    let k = choose|k: int| 0 <= k < selectable_entries(ids, track_ids@.len()).len()
                        && selectable_entries(ids, track_ids@.len())[k].1 == selected_index;
                    assert(entries_of(tracks@)[k] == entry_of(tracks@[k]));
                }
            }
            return Err(BackendError::TrackNotFound(selected_id));
        },
    };
    let ghost entries = selectable_entries(ids, track_ids@.len());
    proof {
        assert(entries[session_index as int] == entry_of(tracks@[session_index as int]));
        assert(spec_selector_view(ids[selected_index as int]) is Some);
    }
    match shuffle_seed {
        None => {
            let session = PlaybackSession {
                source: SessionSource::Playlist { playlist_id, complete, known_source_len },
                tracks,
                index: session_index,
                shuffle_enabled: false,
                shuffle_seed: None,
                transition: None,
                waiting_for_more: false,
            };
            proof {
                assert(entries[session_index as int].1 == selected_index);
            }
            Ok(session)
        },
        Some(seed) => {
            let ghost before = tracks@;
            let n = tracks.len();
            let future = tracks.split_off(session_index + 1);
            let ghost canonical = future@;
            proof {
                assert(tracks@ == before.take(session_index + 1));
                assert(canonical == before.skip(session_index + 1));
            }
            let shuffled = shuffle_future(future, seed);
            let ghost history = tracks@;
            let mut shuffled_mut = shuffled;
            tracks.append(&mut shuffled_mut);
            proof {
                assert(tracks@ == history + shuffled@);
                assert(tracks@.take(session_index + 1) =~= history);
                assert(tracks@.skip(session_index + 1) =~= shuffled@);
                assert(entries_of(history) =~= entries.take(session_index + 1));
                assert(entries_of(canonical) =~= entries.skip(session_index + 1));
                assert(shuffled@.len() == canonical.len()) by {
                    vstd::seq_lib::to_multiset_len(shuffled@);
                    vstd::seq_lib::to_multiset_len(canonical);
                }
                assert(tracks_wf(tracks@)) by {
                    broadcast use vstd::seq_lib::group_to_multiset_ensures;
                    assert forall|k: int| 0 <= k < tracks@.len() implies track_wf(#[trigger] tracks@[k]) by {
                        if k < history.len() {
                            assert(tracks@[k] == before[k]);
                        } else {
                            let x = tracks@[k];
                            assert(x == shuffled@[k - history.len()]);
                            assert(shuffled@.to_multiset().count(x) > 0);
                            assert(canonical.to_multiset().count(x) > 0);
                            assert(canonical.contains(x));
                            let j = choose|j: int| 0 <= j < canonical.len() && canonical[j] == x;
                            assert(canonical[j] == before[j + session_index + 1]);
                        }
                    }
                }
                assert(tracks@[session_index as int] == before[session_index as int]);
                assert(tracks@[session_index as int].id@ == selected_id@);
            }
            let index = match first_position(&tracks, &selected_id) {
                Some(k) => k,
                None => {
                    proof {
                        assert(false);
                    }
                    0
                },
            };
            let session = PlaybackSession {
                source: SessionSource::Playlist { playlist_id, complete, known_source_len },
                tracks,
                index,
                shuffle_enabled: true,
                shuffle_seed: Some(seed),
                transition: None,
                waiting_for_more: false,
            };
            proof {
                assert(entries[session_index as int].1 == selected_index);
                assert(entries_of(canonical) == entries.skip(session_index + 1));
            }
            Ok(session)
        },
    }
}

/// Whether a reported current track contradicts a pending transition: it has a Music.app
/// selector and that is not the transition's target.
pub open spec fn contradicts_transition(transition: Option<ExpectedTransition>, current: Seq<char>) -> bool {
    match transition {
        Some(t) => spec_selector_view(current) is Some && spec_selector_view(current) != Some(selector_view(t.to)),
        None => false,
    }
}

/// The session after Music.app reported `current` as its current track, as
/// `reconcile_current_track` describes it.
pub open spec fn current_track_reconciled(old: PlaybackSession, new: PlaybackSession, current: Seq<char>) -> bool {
    if contradicts_transition(old.transition, current) {
        new == old
    } else if exists|p: int| first_position_of(old.tracks@, current, p) {
        let p = choose|p: int| first_position_of(old.tracks@, current, p);
        if p != old.index {
            new == (PlaybackSession { index: p as usize, waiting_for_more: false, ..old })
        } else {
            new == old
        }
    } else {
        new == old
    }
}

/// The session after `count` new source entries were taken in, as `extend` describes it.
pub open spec fn session_extended(
    old: PlaybackSession,
    new: PlaybackSession,
    playlist_id: PlaylistId,
    ids: Seq<TrackId>,
    complete: bool,
    fresh_seed: u64,
) -> bool {
    match old.source {
        SessionSource::Album { .. } => new == old,
        SessionSource::Playlist { playlist_id: source_id, known_source_len, .. } => {
            if source_id@ != playlist_id@ || ids.len() <= known_source_len {
                new == (PlaybackSession {
                    source: SessionSource::Playlist { playlist_id: source_id, complete, known_source_len },
                    ..old
                })
            } else {
                let additions = selectable_range(id_views(ids), known_source_len as nat, ids.len());
                &&& new.source == (SessionSource::Playlist { playlist_id: source_id, complete, known_source_len: ids.len() as usize })
                &&& new.index == old.index
                &&& new.transition == old.transition
                &&& new.waiting_for_more == old.waiting_for_more
                &&& new.shuffle_enabled == old.shuffle_enabled
                &&& if old.shuffle_enabled {
                    let seed = match old.shuffle_seed {
                        Some(s) => s,
                        None => fresh_seed,
                    };
                    let cut = if old.index + 1 < old.tracks@.len() { old.index + 1 } else { old.tracks@.len() as int };
                    &&& new.shuffle_seed == Some(seed)
                    &&& new.tracks@.len() >= cut
                    &&& new.tracks@.take(cut) == old.tracks@.take(cut)
                    &&& entries_of(new.tracks@.skip(cut)).to_multiset()
                        == (entries_of(old.tracks@.skip(cut)) + additions).to_multiset()
                    &&& sorted_by_rank(new.tracks@.skip(cut), seed)
                } else {
                    &&& new.shuffle_seed == old.shuffle_seed
                    &&& entries_of(new.tracks@) == entries_of(old.tracks@) + additions
                    &&& new.tracks@.take(old.tracks@.len() as int) == old.tracks@
                }
            }
        },
    }
}

impl PlaybackSession {
    /// Moves the session onto the track Music.app reports, when the session holds it: the
    /// first entry with that identity becomes current and waiting ends.  While a transition
    /// is pending, a report of another addressable track is ignored.
    pub fn reconcile_current_track(&mut self, current: &TrackId)
        requires
            old(self).wf(),
        ensures
            final(self).wf(),
            current_track_reconciled(*old(self), *final(self), current@),
    {
        if let Some(transition) = &self.transition {
            if let Ok(selector) = track_selector(current) {
                if !crate::music_app::same_selector(&selector, &transition.to) {
                    return;
                }
            }
        }
        match first_position(&self.tracks, current) {
            Some(p) => {
                proof {
                    assert(first_position_of(self.tracks@, current@, p as int));
                    let q = choose|q: int| first_position_of(self.tracks@, current@, q);
                    assert(q == p as int) by {
                        if q < p {
                            assert(self.tracks@[q].id@ != current@);
                        } else if p < q {
                            assert(self.tracks@[p as int].id@ != current@);
                        }
                    }
                }
                if self.index != p {
                    self.index = p;
                    self.waiting_for_more = false;
                }
            },
            None => {
                proof {
                    assert(!exists|p: int| first_position_of(self.tracks@, current@, p));
                }
            },
        }
    }
}

/// The session after Music.app's shuffle mode was observed as `shuffle`, as
/// `reconcile_shuffle` describes it.
pub open spec fn shuffle_reconciled(old: PlaybackSession, new: PlaybackSession, shuffle: bool, fresh_seed: u64) -> bool {
    if shuffle == old.shuffle_enabled {
        new == old
    } else {
        let cut = old.index + 1;
        &&& new.source == old.source
        &&& new.index == old.index
        &&& new.transition == old.transition
        &&& new.waiting_for_more == old.waiting_for_more
        &&& new.shuffle_enabled == shuffle
        &&& new.tracks@.len() == old.tracks@.len()
        &&& new.tracks@.take(cut) == old.tracks@.take(cut)
        &&& if shuffle {
            &&& new.shuffle_seed == Some(fresh_seed)
            &&& shuffled_from(new.tracks@.skip(cut), old.tracks@.skip(cut), fresh_seed)
        } else {
            &&& new.shuffle_seed is None
            &&& new.tracks@.skip(cut).to_multiset() == old.tracks@.skip(cut).to_multiset()
            &&& sorted_by(new.tracks@.skip(cut), TrackOrder::Source)
        }
    }
}

/// Tracks with the same multiset as well-formed tracks are well formed.
proof fn lemma_wf_multiset(a: Seq<SessionTrack>, b: Seq<SessionTrack>)
    requires
        a.to_multiset() == b.to_multiset(),
        tracks_wf(b),
    ensures
        tracks_wf(a),
{
    broadcast use vstd::seq_lib::group_to_multiset_ensures;

    assert forall|k: int| 0 <= k < a.len() implies track_wf(#[trigger] a[k]) by {
        let x = a[k];
        assert(a.to_multiset().count(x) > 0);
        assert(b.contains(x));
        let j = choose|j: int| 0 <= j < b.len() && b[j] == x;
        assert(track_wf(b[j]));
    }
}

/// Joining a kept prefix with a rearranged rest keeps well-formedness.
proof fn lemma_wf_join(prefix: Seq<SessionTrack>, rest: Seq<SessionTrack>)
    requires
        tracks_wf(prefix),
        tracks_wf(rest),
    ensures
        tracks_wf(prefix + rest),
{
    assert forall|k: int| 0 <= k < (prefix + rest).len() implies track_wf(#[trigger] (prefix + rest)[k]) by {
        if k < prefix.len() {
            assert((prefix + rest)[k] == prefix[k]);
        } else {
            assert((prefix + rest)[k] == rest[k - prefix.len()]);
        }
    }
}

impl PlaybackSession {
    /// Commits a change of Music.app's shuffle mode to the tracks after the current one:
    /// turning shuffle on orders them by rank under a fresh seed; turning it off restores
    /// their source order.  History and the current track stay where they are.
    pub fn reconcile_shuffle(&mut self, shuffle: bool, fresh_seed: u64)
        requires
            old(self).wf(),
        ensures
            final(self).wf(),
            shuffle_reconciled(*old(self), *final(self), shuffle, fresh_seed),
    {
        if shuffle == self.shuffle_enabled {
            return;
        }
        let ghost before = self.tracks@;
        let n = self.tracks.len();
        let cut = self.index + 1;
        let tail = self.tracks.split_off(cut);
        proof {
            assert(tail@ == before.skip(cut as int));
            assert(self.tracks@ == before.take(cut as int));
            assert(tracks_wf(tail@)) by {
                assert forall|k: int| 0 <= k < tail@.len() implies track_wf(#[trigger] tail@[k]) by {
                    assert(tail@[k] == before[k + cut]);
                }
            }
            assert(tracks_wf(self.tracks@)) by {
                assert forall|k: int| 0 <= k < self.tracks@.len() implies track_wf(#[trigger] self.tracks@[k]) by {
                    assert(self.tracks@[k] == before[k]);
                }
            }
        }
        let ghost canonical = tail@;
        let mut future = if shuffle {
            self.shuffle_seed = Some(fresh_seed);
            shuffle_future(tail, fresh_seed)
        } else {
            self.shuffle_seed = None;
            sort_tracks(tail, TrackOrder::Source)
        };
        let ghost head = self.tracks@;
        let ghost moved = future@;
        proof {
            lemma_wf_multiset(moved, canonical);
            vstd::seq_lib::to_multiset_len(moved);
            vstd::seq_lib::to_multiset_len(canonical);
        }
        self.tracks.append(&mut future);
        self.shuffle_enabled = shuffle;
        proof {
            assert(self.tracks@ == head + moved);
            lemma_wf_join(head, moved);
            assert(self.tracks@.take(cut as int) =~= head);
            assert(self.tracks@.skip(cut as int) =~= moved);
        }
    }

    /// Takes newly loaded entries of the session's playlist into the session.  Entries
    /// past the known length that carry a selector are added: at the end in source order,
    /// or, with shuffle, ranked together with the unplayed tracks.  The completeness flag
    /// is taken over in every case.
    pub fn extend(&mut self, playlist_id: &PlaylistId, ids: &Vec<TrackId>, complete: bool, fresh_seed: u64)
        requires
            old(self).wf(),
        ensures
            final(self).wf(),
            session_extended(*old(self), *final(self), *playlist_id, ids@, complete, fresh_seed),
    {
        let (source_id, known) = match &self.source {
            SessionSource::Album { .. } => {
                return;
            },
            SessionSource::Playlist { playlist_id: source_id, known_source_len, .. } => (source_id.duplicate(), *known_source_len),
        };
        if !source_id.same(playlist_id) || ids.len() <= known {
            self.source = SessionSource::Playlist { playlist_id: source_id, complete, known_source_len: known };
            return;
        }
        let mut additions = selectable_tracks_from(ids, known);
        let ghost added = additions@;
        self.source = SessionSource::Playlist { playlist_id: source_id, complete, known_source_len: ids.len() };
        let ghost before = self.tracks@;
        if self.shuffle_enabled {
            let seed = match self.shuffle_seed {
                Some(s) => s,
                None => fresh_seed,
            };
            self.shuffle_seed = Some(seed);
            let n = self.tracks.len();
            let cut = if self.index + 1 < n {
                self.index + 1
            } else {
                n
            };
            let mut tail = self.tracks.split_off(cut);
            let ghost old_tail = tail@;
            proof {
                assert(old_tail == before.skip(cut as int));
                assert(self.tracks@ == before.take(cut as int));
            }
            tail.append(&mut additions);
            let ghost joined = tail@;
            proof {
                assert(joined == old_tail + added);
                assert forall|k: int| 0 <= k < old_tail.len() implies track_wf(#[trigger] old_tail[k]) by {
                    assert(old_tail[k] == before[k + cut]);
                }
                lemma_wf_join(old_tail, added);
                assert(entries_of(joined) =~= entries_of(old_tail) + entries_of(added));
            }
            let mut sorted = sort_by_rank(tail, seed);
            let ghost head = self.tracks@;
            let ghost moved = sorted@;
            proof {
                lemma_wf_multiset(moved, joined);
                assert(tracks_wf(head)) by {
                    assert forall|k: int| 0 <= k < head.len() implies track_wf(#[trigger] head[k]) by {
                        assert(head[k] == before[k]);
                    }
                }
                vstd::seq_lib::to_multiset_len(moved);
                vstd::seq_lib::to_multiset_len(joined);
                lemma_entries_multiset(moved, joined);
            }
            self.tracks.append(&mut sorted);
            proof {
                assert(self.tracks@ == head + moved);
                lemma_wf_join(head, moved);
                assert(self.tracks@.take(cut as int) =~= head);
                assert(self.tracks@.skip(cut as int) =~= moved);
            }
        } else {
            self.tracks.append(&mut additions);
            proof {
                assert(self.tracks@ == before + added);
                lemma_wf_join(before, added);
                assert(entries_of(self.tracks@) =~= entries_of(before) + entries_of(added));
                assert(self.tracks@.take(before.len() as int) =~= before);
            }
        }
    }
}

/// Sequences with the same multiset have entries with the same multiset.
proof fn lemma_entries_multiset(a: Seq<SessionTrack>, b: Seq<SessionTrack>)
    requires
        a.to_multiset() == b.to_multiset(),
    ensures
        entries_of(a).to_multiset() == entries_of(b).to_multiset(),
    decreases a.len(),
{
    broadcast use vstd::seq_lib::group_to_multiset_ensures, vstd::multiset::group_multiset_axioms;

    if a.len() == 0 {
        vstd::seq_lib::to_multiset_len(b);
        assert(b.len() == 0);
        assert(entries_of(a) =~= entries_of(b));
    } else {
        let x = a.last();
        assert(a.to_multiset().count(x) > 0);
        assert(b.contains(x));
        let j = choose|j: int| 0 <= j < b.len() && b[j] == x;
        let a1 = a.drop_last();
        let b1 = b.remove(j);
        assert(a =~= a1.push(x));
        assert(a1.to_multiset() =~= a.to_multiset().remove(x));
        assert(b1.to_multiset() == b.to_multiset().remove(b[j]));
        lemma_entries_multiset(a1, b1);
        assert(entries_of(a) =~= entries_of(a1).push(entry_of(x)));
        assert(entries_of(b1) =~= entries_of(b).remove(j));
        assert(entries_of(b)[j] == entry_of(x));
        assert(entries_of(b1).to_multiset() == entries_of(b).to_multiset().remove(entries_of(b)[j]));
        assert(entries_of(b).to_multiset().count(entry_of(x)) > 0) by {
            assert(entries_of(b).contains(entry_of(x)));
        }
        assert(entries_of(a).to_multiset() =~= entries_of(b).to_multiset());
    }
}

/// Turning shuffle on and then off again keeps the history and the current track in place
/// and leaves the rest of the session in source order, holding the same tracks.
pub proof fn law_shuffle_round_trip(a: PlaybackSession, b: PlaybackSession, c: PlaybackSession, seed: u64, other: u64)
    requires
        a.wf(),
        !a.shuffle_enabled,
        shuffle_reconciled(a, b, true, seed),
        shuffle_reconciled(b, c, false, other),
    ensures
        c.index == a.index,
        c.tracks@.take(a.index + 1) == a.tracks@.take(a.index + 1),
        c.tracks@.skip(a.index + 1).to_multiset() == a.tracks@.skip(a.index + 1).to_multiset(),
        sorted_by(c.tracks@.skip(a.index + 1), TrackOrder::Source),
        !c.shuffle_enabled,
        c.shuffle_seed is None,
{
}

/// How the track after the current one is chosen: repeat-one replays the current track
/// wherever it stands; otherwise a track that has a successor moves on to it, and the last
/// track either wraps to the first (repeat-all over a complete collection) or has none
/// (repeat off).
pub proof fn law_next_track_follows_repeat_mode(s: PlaybackSession)
    requires
        s.wf(),
    ensures
        s.spec_next_index(RepeatMode::One) == Some(s.index as int),
        s.index + 1 < s.tracks@.len() ==> s.spec_next_index(RepeatMode::Off) == Some(s.index + 1)
            && s.spec_next_index(RepeatMode::All) == Some(s.index + 1),
        s.index + 1 == s.tracks@.len() ==> s.spec_next_index(RepeatMode::Off) is None,
        s.index + 1 == s.tracks@.len() && s.spec_source_is_complete() ==> s.spec_next_index(RepeatMode::All) == Some(0int),
{
}

} // verus!
