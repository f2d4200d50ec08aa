//! The library views derived from the tracks that Music.app reports: albums, artists,
//! recently added albums and recently played tracks.
//!
//! Tracks are filed under their album artist, or their artist where they have none.  An
//! album is every track that shares the normalized filing name, the normalized album title
//! and the year; its tracks are ordered by disc, track number, title and identity, and
//! tracks that tie keep the order in which they were reported.
use std::hash::{Hash, Hasher};
use vstd::prelude::*;

use crate::copies::{copy_option, Duplicate};
use crate::domain::{
    database_prefix, persistent_prefix, Album, AlbumId, Artist, DataOrigin, Duration, MusicAppDatabaseId,
    MusicAppPersistentId, RecentlyPlayedEntry, Track, TrackId, TrackMetadata,
};
use crate::music_app::{nonempty, normalize_identifier, spec_nonempty, spec_normalize_identifier};
use crate::positions::{
    distinct, in_range, key_order, key_view, lemma_parts_facts, ordered, part_view, positions_upto,
    sort_positions, upto, KeyedPositions, Part, PositionOrder,
};
use crate::text::{
    digit_char, lex_order, normalize_search_text, push_char, push_decimal, push_decimal_wide, push_text, same_text,
    spec_decimal, spec_normalize,
};

verus! {

/// The name a track is filed under: its album artist, else its artist.
pub open spec fn filing_name(t: Track) -> Seq<char> {
    match t.metadata.album_artist {
        Some(a) => a@,
        None => t.artist@,
    }
}

/// The year a track is filed under, zero where it has none.
pub open spec fn filed_year(t: Track) -> nat {
    match t.metadata.year {
        Some(y) => y as nat,
        None => 0,
    }
}

/// The separator between the parts of an album key (U+001F).
pub open spec fn unit_separator() -> char {
    '\u{1f}'
}

/// The key that groups tracks into albums: the normalized filing name, the normalized
/// album title and the decimal year, separated by U+001F.
pub open spec fn album_key(t: Track) -> Seq<char> {
    spec_normalize(filing_name(t)) + seq![unit_separator()] + spec_normalize(t.album@) + seq![unit_separator()]
        + spec_decimal(filed_year(t))
}

/// The album keys of a list of tracks.
pub open spec fn album_keys(ts: Seq<Track>) -> Seq<Seq<char>> {
    ts.map_values(|t: Track| album_key(t))
}

/// The name under which a track is filed.
fn filing_name_of(t: &Track) -> (r: &str)
    ensures
        r@ == filing_name(*t),
{
    match &t.metadata.album_artist {
        Some(a) => a.as_str(),
        None => t.artist.as_str(),
    }
}

/// The album key of a track.
pub fn album_key_of(t: &Track) -> (r: String)
    ensures
        r@ == album_key(*t),
{
    let mut k = normalize_search_text(filing_name_of(t));
    push_char(&mut k, '\u{1f}');
    let title = normalize_search_text(t.album.as_str());
    push_text(&mut k, title.as_str());
    push_char(&mut k, '\u{1f}');
    let year: u64 = match t.metadata.year {
        Some(y) => y as u64,
        None => 0,
    };
    push_decimal(&mut k, year);
    k
}

/// What `DefaultHasher::new()` yields for a string: it hashes the string's bytes and a
/// terminating 0xff byte, with fixed keys, and `finish` returns the 64-bit result.
pub uninterp spec fn text_hash(value: Seq<char>) -> u64;

/// Trusted: hashes `value` with `std::collections::hash_map::DefaultHasher::new()`; the
/// result is named `text_hash`.
#[verifier::external_body]
fn hash_text(value: &str) -> (r: u64)
    ensures
        r == text_hash(value@),
{
    let mut hasher = std::collections::hash_map::DefaultHasher::new();
    value.hash(&mut hasher);
    hasher.finish()
}

/// The character of a lowercase hexadecimal digit.
pub open spec fn hex_char(d: int) -> char {
    if d < 10 {
        digit_char(d)
    } else if d == 10 {
        'a'
    } else if d == 11 {
        'b'
    } else if d == 12 {
        'c'
    } else if d == 13 {
        'd'
    } else if d == 14 {
        'e'
    } else {
        'f'
    }
}

/// The lowest `width` hexadecimal digits of `v`, most significant first, zero padded.
pub open spec fn hex_digits(v: nat, width: nat) -> Seq<char>
    decreases width,
{
    if width == 0 {
        Seq::empty()
    } else {
        hex_digits(v / 16, (width - 1) as nat).push(hex_char((v % 16) as int))
    }
}

fn push_hex_digit(s: &mut String, d: u64)
    requires
        d < 16,
    ensures
        final(s)@ == old(s)@.push(hex_char(d as int)),
{
    let c = if d < 10 {
        if d == 0 {
            '0'
        } else if d == 1 {
            '1'
        } else if d == 2 {
            '2'
        } else if d == 3 {
            '3'
        } else if d == 4 {
            '4'
        } else if d == 5 {
            '5'
        } else if d == 6 {
            '6'
        } else if d == 7 {
            '7'
        } else if d == 8 {
            '8'
        } else {
            '9'
        }
    } else if d == 10 {
        'a'
    } else if d == 11 {
        'b'
    } else if d == 12 {
        'c'
    } else if d == 13 {
        'd'
    } else if d == 14 {
        'e'
    } else {
        'f'
    };
    push_char(s, c);
}

/// Appends the lowest `width` hexadecimal digits of `v`.
fn push_hex(s: &mut String, v: u64, width: u64)
    ensures
        final(s)@ == old(s)@ + hex_digits(v as nat, width as nat),
    decreases width,
{
    if width == 0 {
        assert(final(s)@ =~= old(s)@ + hex_digits(v as nat, width as nat));
    } else {
        push_hex(s, v / 16, width - 1);
        push_hex_digit(s, v % 16);
        assert(final(s)@ =~= old(s)@ + hex_digits(v as nat, width as nat));
    }
}

/// A stable identifier: the namespace, a colon and the 16 hexadecimal digits of the hash
/// of the value.
pub open spec fn spec_stable_id(namespace: Seq<char>, value: Seq<char>) -> Seq<char> {
    namespace + seq![':'] + hex_digits(text_hash(value) as nat, 16)
}

/// The stable identifier of `value` in `namespace`.
pub fn stable_id(namespace: &str, value: &str) -> (r: String)
    ensures
        r@ == spec_stable_id(namespace@, value@),
{
    let mut s = namespace.to_owned();
    push_char(&mut s, ':');
    push_hex(&mut s, hash_text(value), 16);
    s
}

/// The positions among the first `n` whose key is `k`, in increasing order.
pub open spec fn positions_with(ks: Seq<Seq<char>>, k: Seq<char>, n: nat) -> Seq<usize>
    decreases n,
{
    if n == 0 {
        Seq::empty()
    } else if ks[n - 1] == k {
        positions_with(ks, k, (n - 1) as nat).push((n - 1) as usize)
    } else {
        positions_with(ks, k, (n - 1) as nat)
    }
}

/// The positions with a key lie below `n`, hold that key, increase, and include every
/// position below `n` that holds it.
pub proof fn lemma_positions_with(ks: Seq<Seq<char>>, k: Seq<char>, n: nat)
    requires
        n <= ks.len(),
        n <= usize::MAX,
    ensures
        forall|i: int| 0 <= i < positions_with(ks, k, n).len() ==> (#[trigger] positions_with(ks, k, n)[i]) < n
            && ks[positions_with(ks, k, n)[i] as int] == k,
        forall|a: int, b: int| 0 <= a < b < positions_with(ks, k, n).len() ==> (#[trigger] positions_with(ks, k, n)[a]) < (#[trigger] positions_with(ks, k, n)[b]),
        forall|q: int| 0 <= q < n && ks[q] == k ==> positions_with(ks, k, n).contains(q as usize),
    decreases n,
{
    if n > 0 {
        lemma_positions_with(ks, k, (n - 1) as nat);
        let prev = positions_with(ks, k, (n - 1) as nat);
        let cur = positions_with(ks, k, n);
        if ks[n - 1] == k {
            assert forall|q: int| 0 <= q < n && ks[q] == k implies cur.contains(q as usize) by {
                if q < n - 1 {
                    let w = choose|w: int| 0 <= w < prev.len() && prev[w] == q as usize;
                    assert(cur[w] == q as usize);
                } else {
                    assert(cur[prev.len() as int] == q as usize);
                }
            }
        }
    }
}

/// The views of a list of strings.
pub open spec fn texts(v: Seq<String>) -> Seq<Seq<char>> {
    v.map_values(|s: String| s@)
}

/// The positions of `keys` holding `k`, in increasing order.
fn collect_positions(keys: &Vec<String>, k: &str) -> (r: Vec<usize>)
    ensures
        r@ == positions_with(texts(keys@), k@, keys@.len()),
{
    let ghost ks = texts(keys@);
    let mut out: Vec<usize> = Vec::new();
    let mut q: usize = 0;
    while q < keys.len()
        invariant
            ks == texts(keys@),
            q <= keys@.len(),
            out@ == positions_with(ks, k@, q as nat),
        decreases keys.len() - q,
    {
        if same_text(keys[q].as_str(), k) {
            out.push(q);
        }
        q = q + 1;
    }
    out
}

/// The first position of `v` holding `t`.
fn find_text(v: &Vec<String>, t: &str) -> (r: Option<usize>)
    ensures
        r matches Some(i) ==> i < v@.len() && v@[i as int]@ == t@,
        r is None ==> forall|i: int| 0 <= i < v@.len() ==> (#[trigger] v@[i])@ != t@,
{
    let mut i: usize = 0;
    while i < v.len()
        invariant
            i <= v@.len(),
            forall|j: int| 0 <= j < i ==> (#[trigger] v@[j])@ != t@,
        decreases v.len() - i,
    {
        if same_text(v[i].as_str(), t) {
            return Some(i);
        }
        i = i + 1;
    }
    None
}

/// Every key among the first `p` is one of the group keys.
pub open spec fn all_grouped(gk: Seq<Seq<char>>, ks: Seq<Seq<char>>, p: int) -> bool {
    forall|q: int| 0 <= q < p ==> gk.contains(#[trigger] ks[q])
}

/// Every group key is one of the keys.
pub open spec fn all_occur(gk: Seq<Seq<char>>, ks: Seq<Seq<char>>) -> bool {
    forall|g: int| 0 <= g < gk.len() ==> ks.contains(#[trigger] gk[g])
}

/// The distinct keys of `keys`, in order of first occurrence, each with its positions.
fn group_positions(keys: &Vec<String>) -> (r: (Vec<String>, Vec<Vec<usize>>))
    ensures
        r.0@.len() == r.1@.len(),
        forall|g: int| 0 <= g < r.1@.len() ==> (#[trigger] r.1@[g])@ == positions_with(texts(keys@), r.0@[g]@, keys@.len()),
        texts(r.0@).no_duplicates(),
        all_grouped(texts(r.0@), texts(keys@), keys@.len() as int),
        all_occur(texts(r.0@), texts(keys@)),
{
    let ghost ks = texts(keys@);
    let mut group_keys: Vec<String> = Vec::new();
    let mut groups: Vec<Vec<usize>> = Vec::new();
    let mut p: usize = 0;
    proof {
        assert(texts(group_keys@) =~= Seq::<Seq<char>>::empty());
    }
    while p < keys.len()
        invariant
            ks == texts(keys@),
            p <= keys@.len(),
            group_keys@.len() == groups@.len(),
            forall|g: int| 0 <= g < groups@.len() ==> (#[trigger] groups@[g])@ == positions_with(ks, group_keys@[g]@, keys@.len()),
            texts(group_keys@).no_duplicates(),
            all_grouped(texts(group_keys@), ks, p as int),
            all_occur(texts(group_keys@), ks),
        decreases keys.len() - p,
    {
        let ghost gk = texts(group_keys@);
        match find_text(&group_keys, keys[p].as_str()) {
            Some(g) => {
                proof {
                    assert(gk[g as int] == ks[p as int]);
                    assert forall|q: int| 0 <= q < p + 1 implies gk.contains(#[trigger] ks[q]) by {
                        if q == p {
                            assert(gk[g as int] == ks[q]);
                        }
                    }
                }
            },
            None => {
                let positions = collect_positions(keys, keys[p].as_str());
                let ghost old_groups = groups@;
                group_keys.push(keys[p].clone());
                groups.push(positions);
                proof {
                    let ngk = texts(group_keys@);
                    assert(ngk =~= gk.push(ks[p as int]));
                    assert forall|g: int| 0 <= g < gk.len() implies gk[g] != ks[p as int] by {
                        assert(gk[g] == group_keys@[g]@);
                    }
                    assert forall|a: int, b: int| 0 <= a < b < ngk.len() implies ngk[a] != ngk[b] by {
                        if b == gk.len() {
                            assert(ngk[a] == gk[a]);
                        } else {
                            assert(ngk[a] == gk[a]);
                            assert(ngk[b] == gk[b]);
                        }
                    }
                    assert forall|q: int| 0 <= q < p + 1 implies ngk.contains(#[trigger] ks[q]) by {
                        if q < p {
                            let i = choose|i: int| 0 <= i < gk.len() && gk[i] == ks[q];
                            assert(ngk[i] == ks[q]);
                        } else {
                            assert(ngk[gk.len() as int] == ks[q]);
                        }
                    }
                    assert forall|g: int| 0 <= g < ngk.len() implies ks.contains(#[trigger] ngk[g]) by {
                        if g < gk.len() {
                            assert(ngk[g] == gk[g]);
                        } else {
                            assert(ks[p as int] == ngk[g]);
                        }
                    }
                    assert forall|g: int| 0 <= g < groups@.len() implies (#[trigger] groups@[g])@ == positions_with(ks, group_keys@[g]@, keys@.len()) by {
                        if g < old_groups.len() {
                            assert(groups@[g] == old_groups[g]);
                        }
                    }
                }
            },
        }
        p = p + 1;
    }
    (group_keys, groups)
}

/// The disc a track sorts under: its disc number, else 1.
pub open spec fn sort_disc(t: Track) -> int {
    match t.metadata.disc_number {
        Some(d) => d as int,
        None => 1,
    }
}

/// The number a track sorts under: its track number, else 65535.
pub open spec fn sort_number(t: Track) -> int {
    match t.metadata.track_number {
        Some(n) => n as int,
        None => 65535,
    }
}

/// How tracks are ordered within an album: disc, track number, title, identity.
pub open spec fn track_rank(t: Track) -> Seq<(int, Seq<char>, int)> {
    seq![(2, Seq::<char>::empty(), sort_disc(t)), (2, Seq::<char>::empty(), sort_number(t)), (0, t.title@, 0), (0, t.id@, 0)]
}

/// Whether position `i` of `ts` comes before position `j` within an album: by rank, and
/// tracks of equal rank in the order they were reported.
pub open spec fn track_before(ts: Seq<Track>, i: int, j: int) -> bool {
    let c = key_order(track_rank(ts[i]), track_rank(ts[j]));
    c < 0 || (c == 0 && i < j)
}

/// Whether `ps` lists exactly the positions of the tracks with album key `key`, in album order.
pub open spec fn album_positions(ts: Seq<Track>, key: Seq<char>, ps: Seq<usize>) -> bool {
    &&& ps.to_multiset() == positions_with(album_keys(ts), key, ts.len()).to_multiset()
    &&& forall|a: int, b: int| 0 <= a < b < ps.len() ==> track_before(ts, #[trigger] ps[a] as int, #[trigger] ps[b] as int)
}

/// The tracks at the given positions.
pub open spec fn tracks_at(ts: Seq<Track>, ps: Seq<usize>) -> Seq<Track> {
    ps.map_values(|p: usize| ts[p as int])
}

/// The least year among the tracks that have one.
pub open spec fn min_year(ts: Seq<Track>) -> Option<u16>
    decreases ts.len(),
{
    if ts.len() == 0 {
        None
    } else {
        let prev = min_year(ts.drop_last());
        match ts.last().metadata.year {
            None => prev,
            Some(y) => match prev {
                None => Some(y),
                Some(m) => Some(if y < m { y } else { m }),
            },
        }
    }
}

/// The greatest date added, by code point order, among the tracks that have one.
pub open spec fn max_added(ts: Seq<Track>) -> Option<Seq<char>>
    decreases ts.len(),
{
    if ts.len() == 0 {
        None
    } else {
        let prev = max_added(ts.drop_last());
        match ts.last().metadata.date_added {
            None => prev,
            Some(d) => match prev {
                None => Some(d@),
                Some(m) => Some(if lex_order(d@, m) > 0 { d@ } else { m }),
            },
        }
    }
}

/// The namespace of album identities.
pub open spec fn album_namespace() -> Seq<char> {
    "musicapp:album"@
}

/// Whether `a` is the album of the tracks of `ts` with album key `key`: those tracks in album
/// order, titled and credited after its first track, dated by the earliest year and the
/// latest date added, and identified by the hash of the key.
pub open spec fn album_from(ts: Seq<Track>, key: Seq<char>, a: Album) -> bool {
    &&& exists|ps: Seq<usize>| #[trigger] album_positions(ts, key, ps) && a.tracks@ == tracks_at(ts, ps)
    &&& a.tracks@.len() > 0
    &&& album_key(a.tracks@[0]) == key
    &&& a.id@ == spec_stable_id(album_namespace(), key)
    &&& a.title@ == a.tracks@[0].album@
    &&& a.artist@ == filing_name(a.tracks@[0])
    &&& a.year == (match min_year(a.tracks@) { Some(y) => y, None => 0 })
    &&& a.added_date@ == (match max_added(a.tracks@) { Some(d) => d, None => Seq::empty() })
}

fn track_rank_of(t: &Track) -> (r: Vec<Part>)
    ensures
        key_view(r@) == track_rank(*t),
{
    let disc: u64 = match t.metadata.disc_number {
        Some(d) => d as u64,
        None => 1,
    };
    let number: u64 = match t.metadata.track_number {
        Some(n) => n as u64,
        None => 65535,
    };
    let r = vec![Part::Num(disc), Part::Num(number), Part::Up(t.title.clone()), Part::Up(t.id.as_str().to_owned())];
    assert(key_view(r@) =~= track_rank(*t));
    r
}

/// The tracks ordered by `track_before`.
fn track_order(tracks: &[Track]) -> (r: KeyedPositions)
    ensures
        r.keys@.len() == tracks@.len(),
        forall|p: int| 0 <= p < tracks@.len() ==> #[trigger] r.key_at(p) == track_rank(tracks@[p]),
{
    let mut keys: Vec<Vec<Part>> = Vec::new();
    let mut i: usize = 0;
    while i < tracks.len()
        invariant
            i <= tracks@.len(),
            keys@.len() == i,
            forall|p: int| 0 <= p < i ==> key_view(#[trigger] keys@[p]@) == track_rank(tracks@[p]),
        decreases tracks.len() - i,
    {
        keys.push(track_rank_of(&tracks[i]));
        i = i + 1;
    }
    KeyedPositions { keys }
}

fn copy_positions(v: &Vec<usize>) -> (r: Vec<usize>)
    ensures
        r@ == v@,
{
    let mut out: Vec<usize> = Vec::new();
    let mut i: usize = 0;
    while i < v.len()
        invariant
            i <= v@.len(),
            out@ == v@.subrange(0, i as int),
        decreases v.len() - i,
    {
        out.push(v[i]);
        assert(out@ =~= v@.subrange(0, i + 1));
        i = i + 1;
    }
    assert(out@ =~= v@);
    out
}

fn earliest_year(ts: &[Track]) -> (r: u16)
    ensures
        r == (match min_year(ts@) { Some(y) => y, None => 0 }),
{
    let mut cur: Option<u16> = None;
    let mut i: usize = 0;
    while i < ts.len()
        invariant
            i <= ts@.len(),
            cur == min_year(ts@.subrange(0, i as int)),
        decreases ts.len() - i,
    {
        assert(ts@.subrange(0, i + 1).drop_last() =~= ts@.subrange(0, i as int));
        match ts[i].metadata.year {
            None => {},
            Some(y) => {
                cur = match cur {
                    None => Some(y),
                    Some(m) => Some(if y < m { y } else { m }),
                };
            },
        }
        i = i + 1;
    }
    assert(ts@.subrange(0, ts@.len() as int) =~= ts@);
    match cur {
        Some(y) => y,
        None => 0,
    }
}

fn latest_added(ts: &[Track]) -> (r: String)
    ensures
        r@ == (match max_added(ts@) { Some(d) => d, None => Seq::empty() }),
{
    let mut cur: Option<String> = None;
    let mut i: usize = 0;
    while i < ts.len()
        invariant
            i <= ts@.len(),
            (match cur { Some(c) => Some(c@), None => None }) == max_added(ts@.subrange(0, i as int)),
        decreases ts.len() - i,
    {
        assert(ts@.subrange(0, i + 1).drop_last() =~= ts@.subrange(0, i as int));
        match &ts[i].metadata.date_added {
            None => {},
            Some(d) => {
                let replace = match &cur {
                    None => true,
                    Some(m) => crate::text::compare_text(d.as_str(), m.as_str()) > 0,
                };
                if replace {
                    cur = Some(d.clone());
                }
            },
        }
        i = i + 1;
    }
    assert(ts@.subrange(0, ts@.len() as int) =~= ts@);
    match cur {
        Some(c) => c,
        None => String::new(),
    }
}

/// Copies of the tracks at the given positions.
fn tracks_at_positions(tracks: &[Track], ps: &Vec<usize>) -> (r: Vec<Track>)
    requires
        forall|k: int| 0 <= k < ps@.len() ==> (#[trigger] ps@[k]) < tracks@.len(),
    ensures
        r@ == tracks_at(tracks@, ps@),
{
    let mut out: Vec<Track> = Vec::new();
    let mut i: usize = 0;
    while i < ps.len()
        invariant
            i <= ps@.len(),
            forall|k: int| 0 <= k < ps@.len() ==> (#[trigger] ps@[k]) < tracks@.len(),
            out@ == tracks_at(tracks@, ps@.subrange(0, i as int)),
        decreases ps.len() - i,
    {
        out.push(tracks[ps[i]].duplicate());
        assert(out@ =~= tracks_at(tracks@, ps@.subrange(0, i + 1)));
        i = i + 1;
    }
    assert(ps@.subrange(0, ps@.len() as int) =~= ps@);
    out
}

/// The album of the tracks with album key `key`, given their positions in reported order.
fn build_album(tracks: &[Track], order: &KeyedPositions, key: &String, group: &Vec<usize>) -> (a: Album)
    requires
        order.keys@.len() == tracks@.len(),
        forall|p: int| 0 <= p < tracks@.len() ==> #[trigger] order.key_at(p) == track_rank(tracks@[p]),
        group@ == positions_with(album_keys(tracks@), key@, tracks@.len()),
        group@.len() > 0,
    ensures
        album_from(tracks@, key@, a),
{
    let n = tracks.len();
    proof {
        lemma_positions_with(album_keys(tracks@), key@, n as nat);
    }
    let ps = sort_positions(order, copy_positions(group));
    let album_tracks = tracks_at_positions(tracks, &ps);
    proof {
        broadcast use vstd::seq_lib::group_to_multiset_ensures;
        assert forall|a: int, b: int| 0 <= a < b < ps@.len() implies track_before(tracks@, #[trigger] ps@[a] as int, #[trigger] ps@[b] as int) by {
            assert(order.before(ps@[a] as int, ps@[b] as int));
        }
        assert(album_positions(tracks@, key@, ps@));
        assert(ps@.to_multiset().count(ps@[0]) > 0);
        assert(group@.contains(ps@[0]));
        assert(album_tracks@[0] == tracks@[ps@[0] as int]);
        assert(album_keys(tracks@)[ps@[0] as int] == key@);
    }
    let first = &album_tracks[0];
    let title = first.album.clone();
    let artist = filing_name_of(first).to_owned();
    let year = earliest_year(&album_tracks);
    let added = latest_added(&album_tracks);
    let id = stable_id("musicapp:album", key.as_str());
    proof {
        reveal_strlit("musicapp:album");
    }
    Album { id: AlbumId::new(id.as_str()), title, artist, year, added_date: added, tracks: album_tracks }
}

/// How albums are ordered: by normalized artist, then normalized title, then album key.
pub open spec fn album_rank(a: Album) -> Seq<(int, Seq<char>, int)> {
    seq![(0, spec_normalize(a.artist@), 0), (0, spec_normalize(a.title@), 0), (0, album_key(a.tracks@[0]), 0)]
}

/// Whether `albums` holds one album for each album key of `ts`, built from the tracks with
/// that key, in strictly increasing album rank.
pub open spec fn albums_of(ts: Seq<Track>, albums: Seq<Album>) -> bool {
    &&& forall|i: int| 0 <= i < albums.len() ==> album_from(ts, album_key((#[trigger] albums[i]).tracks@[0]), albums[i])
    &&& forall|i: int, j: int| 0 <= i < j < albums.len() ==> key_order(album_rank(#[trigger] albums[i]), album_rank(#[trigger] albums[j])) < 0
    &&& forall|i: int, j: int| 0 <= i < j < albums.len() ==> album_key((#[trigger] albums[i]).tracks@[0]) != album_key((#[trigger] albums[j]).tracks@[0])
    &&& forall|q: int| 0 <= q < ts.len() ==> exists|i: int| 0 <= i < albums.len() && album_key((#[trigger] albums[i]).tracks@[0]) == album_key(#[trigger] ts[q])
}

/// Every reported track belongs to exactly one derived album: the album filed under its
/// album key holds it, and no other album is filed under that key.
pub proof fn law_each_track_in_one_album(ts: Seq<Track>, albums: Seq<Album>, p: int)
    requires
        albums_of(ts, albums),
        ts.len() <= usize::MAX,
        0 <= p < ts.len(),
    ensures
        exists|i: int| 0 <= i < albums.len() && album_key((#[trigger] albums[i]).tracks@[0]) == album_key(ts[p])
            && albums[i].tracks@.contains(ts[p]),
        forall|i: int, j: int|
            0 <= i < albums.len() && 0 <= j < albums.len() && album_key((#[trigger] albums[i]).tracks@[0]) == album_key(ts[p])
                && album_key((#[trigger] albums[j]).tracks@[0]) == album_key(ts[p]) ==> i == j,
{
    broadcast use vstd::seq_lib::group_to_multiset_ensures;
    let i = choose|i: int| 0 <= i < albums.len() && album_key((#[trigger] albums[i]).tracks@[0]) == album_key(ts[p]);
    let key = album_key(albums[i].tracks@[0]);
    assert(album_from(ts, key, albums[i]));
    let ps = choose|ps: Seq<usize>| #[trigger] album_positions(ts, key, ps) && albums[i].tracks@ == tracks_at(ts, ps);
    lemma_positions_with(album_keys(ts), key, ts.len());
    assert(album_keys(ts)[p] == key);
    assert(positions_with(album_keys(ts), key, ts.len()).contains(p as usize));
    assert(positions_with(album_keys(ts), key, ts.len()).to_multiset().count(p as usize) > 0);
    assert(ps.contains(p as usize));
    let w = choose|w: int| 0 <= w < ps.len() && ps[w] == p as usize;
    assert(albums[i].tracks@[w] == ts[p]);
    assert forall|a: int, b: int|
        0 <= a < albums.len() && 0 <= b < albums.len() && album_key((#[trigger] albums[a]).tracks@[0]) == album_key(ts[p])
            && album_key((#[trigger] albums[b]).tracks@[0]) == album_key(ts[p]) implies a == b by {
        if a < b {
            assert(album_key(albums[a].tracks@[0]) != album_key(albums[b].tracks@[0]));
        } else if b < a {
            assert(album_key(albums[b].tracks@[0]) != album_key(albums[a].tracks@[0]));
        }
    }
}

/// The album keys of the tracks.
fn album_keys_of(tracks: &[Track]) -> (r: Vec<String>)
    ensures
        texts(r@) == album_keys(tracks@),
{
    let mut keys: Vec<String> = Vec::new();
    let mut i: usize = 0;
    while i < tracks.len()
        invariant
            i <= tracks@.len(),
            keys@.len() == i,
            forall|p: int| 0 <= p < i ==> (#[trigger] keys@[p])@ == album_key(tracks@[p]),
        decreases tracks.len() - i,
    {
        keys.push(album_key_of(&tracks[i]));
        i = i + 1;
    }
    assert(texts(keys@) =~= album_keys(tracks@));
    keys
}

fn album_rank_of(a: &Album, key: &String) -> (r: Vec<Part>)
    requires
        a.tracks@.len() > 0,
        album_key(a.tracks@[0]) == key@,
    ensures
        key_view(r@) == album_rank(*a),
{
    let r = vec![
        Part::Up(normalize_search_text(a.artist.as_str())),
        Part::Up(normalize_search_text(a.title.as_str())),
        Part::Up(key.clone()),
    ];
    assert(key_view(r@) =~= album_rank(*a));
    r
}

/// The albums of the tracks, as `albums_of` describes.
pub fn derive_albums(tracks: &[Track]) -> (r: Vec<Album>)
    ensures
        albums_of(tracks@, r@),
{
    let n = tracks.len();
    let keys = album_keys_of(tracks);
    let (group_keys, groups) = group_positions(&keys);
    let order = track_order(tracks);
    let ghost ks = album_keys(tracks@);
    proof {
        assert(texts(keys@).len() == keys@.len());
        assert(ks.len() == tracks@.len());
        assert(keys@.len() == n);
    }
    let mut built: Vec<Album> = Vec::new();
    let mut g: usize = 0;
    while g < groups.len()
        invariant
            n == tracks@.len(),
            ks == album_keys(tracks@),
            texts(keys@) == ks,
            group_keys@.len() == groups@.len(),
            forall|h: int| 0 <= h < groups@.len() ==> (#[trigger] groups@[h])@ == positions_with(ks, group_keys@[h]@, n as nat),
            all_occur(texts(group_keys@), ks),
            all_grouped(texts(group_keys@), ks, n as int),
            texts(group_keys@).no_duplicates(),
            order.keys@.len() == tracks@.len(),
            forall|p: int| 0 <= p < tracks@.len() ==> #[trigger] order.key_at(p) == track_rank(tracks@[p]),
            g <= groups@.len(),
            built@.len() == g,
            forall|h: int| 0 <= h < g ==> album_from(tracks@, group_keys@[h]@, #[trigger] built@[h]),
        decreases groups.len() - g,
    {
        proof {
            lemma_positions_with(ks, group_keys@[g as int]@, n as nat);
            assert(texts(group_keys@)[g as int] == group_keys@[g as int]@);
            let q = choose|q: int| 0 <= q < ks.len() && ks[q] == group_keys@[g as int]@;
            assert(positions_with(ks, group_keys@[g as int]@, n as nat).contains(q as usize));
        }
        built.push(build_album(tracks, &order, &group_keys[g], &groups[g]));
        g = g + 1;
    }
    let m = built.len();
    let mut ranks: Vec<Vec<Part>> = Vec::new();
    let mut i: usize = 0;
    while i < m
        invariant
            m == built@.len(),
            built@.len() == group_keys@.len(),
            forall|h: int| 0 <= h < m ==> album_from(tracks@, group_keys@[h]@, #[trigger] built@[h]),
            n == tracks@.len(),
            ks == album_keys(tracks@),
            all_grouped(texts(group_keys@), ks, n as int),
            texts(group_keys@).no_duplicates(),
            i <= m,
            ranks@.len() == i,
            forall|h: int| 0 <= h < i ==> key_view(#[trigger] ranks@[h]@) == album_rank(built@[h]),
        decreases m - i,
    {
        ranks.push(album_rank_of(&built[i], &group_keys[i]));
        i = i + 1;
    }
    let album_order = KeyedPositions { keys: ranks };
    let all = positions_upto(m);
    let ps = sort_positions(&album_order, all);
    let mut out: Vec<Album> = Vec::new();
    let mut k: usize = 0;
    while k < ps.len()
        invariant
            m == built@.len(),
            built@.len() == group_keys@.len(),
            forall|h: int| 0 <= h < m ==> album_from(tracks@, group_keys@[h]@, #[trigger] built@[h]),
            n == tracks@.len(),
            ks == album_keys(tracks@),
            all_grouped(texts(group_keys@), ks, n as int),
            texts(group_keys@).no_duplicates(),
            forall|h: int| 0 <= h < m ==> #[trigger] album_order.key_at(h) == album_rank(built@[h]),
            in_range(&album_order, ps@),
            album_order.keys@.len() == m,
            k <= ps@.len(),
            out@.len() == k,
            forall|a: int| 0 <= a < k ==> (#[trigger] out@[a]).copied_from(&built@[ps@[a] as int]),
        decreases ps.len() - k,
    {
        out.push(built[ps[k]].copy_of());
        k = k + 1;
    }
    proof {
        broadcast use vstd::seq_lib::group_to_multiset_ensures;
        assert forall|a: int| 0 <= a < out@.len() implies #[trigger] out@[a].tracks@ == built@[ps@[a] as int].tracks@
            && out@[a].artist == built@[ps@[a] as int].artist && out@[a].title == built@[ps@[a] as int].title by {
            assert(out@[a].copied_from(&built@[ps@[a] as int]));
        }
        assert forall|i: int| 0 <= i < out@.len() implies album_from(tracks@, album_key((#[trigger] out@[i]).tracks@[0]), out@[i]) by {
            let b = built@[ps@[i] as int];
            assert(out@[i].copied_from(&b));
            assert(album_from(tracks@, group_keys@[ps@[i] as int]@, b));
        }
        assert forall|i: int, j: int| 0 <= i < j < out@.len() implies key_order(album_rank(#[trigger] out@[i]), album_rank(#[trigger] out@[j])) < 0 by {
            let pi = ps@[i] as int;
            let pj = ps@[j] as int;
            assert(album_order.before(pi, pj));
            album_order.lemma_strict_total(pi, pj, pj);
            assert(pi != pj);
            assert(album_order.key_at(pi) == album_rank(built@[pi]));
            assert(album_order.key_at(pj) == album_rank(built@[pj]));
            assert(album_rank(out@[i]) == album_rank(built@[pi]));
            assert(album_rank(out@[j]) == album_rank(built@[pj]));
            crate::positions::lemma_key_view_ok(album_order.keys@[pi]@);
            crate::positions::lemma_key_view_ok(album_order.keys@[pj]@);
            lemma_parts_facts(album_rank(built@[pi]), album_rank(built@[pj]), album_rank(built@[pj]));
            if key_order(album_rank(built@[pi]), album_rank(built@[pj])) == 0 {
                assert(album_rank(built@[pi])[2] == album_rank(built@[pj])[2]);
                assert(group_keys@[pi]@ == group_keys@[pj]@);
                assert(texts(group_keys@)[pi] == texts(group_keys@)[pj]);
            }
        }
        assert forall|i: int, j: int| 0 <= i < j < out@.len() implies album_key((#[trigger] out@[i]).tracks@[0]) != album_key((#[trigger] out@[j]).tracks@[0]) by {
            let pi = ps@[i] as int;
            let pj = ps@[j] as int;
            assert(album_order.before(pi, pj));
            album_order.lemma_strict_total(pi, pj, pj);
            assert(out@[i].copied_from(&built@[pi]));
            assert(out@[j].copied_from(&built@[pj]));
            assert(album_from(tracks@, group_keys@[pi]@, built@[pi]));
            assert(album_from(tracks@, group_keys@[pj]@, built@[pj]));
            assert(texts(group_keys@)[pi] == group_keys@[pi]@);
            assert(texts(group_keys@)[pj] == group_keys@[pj]@);
        }
        assert forall|q: int| 0 <= q < tracks@.len() implies exists|i: int| 0 <= i < out@.len() && album_key((#[trigger] out@[i]).tracks@[0]) == album_key(#[trigger] tracks@[q]) by {
            assert(ks[q] == album_key(tracks@[q]));
            assert(texts(group_keys@).contains(ks[q]));
            let h = choose|h: int| 0 <= h < texts(group_keys@).len() && texts(group_keys@)[h] == ks[q];
            assert(upto(m as nat)[h] == h as usize);
            assert(upto(m as nat).to_multiset().count(h as usize) > 0);
            assert(ps@.contains(h as usize));
            let i = choose|i: int| 0 <= i < ps@.len() && ps@[i] == h as usize;
            assert(out@[i].copied_from(&built@[h]));
            assert(album_from(tracks@, group_keys@[h]@, built@[h]));
        }
    }
    out
}

/// Copies of the values at the given positions.
fn copy_in_order<T: Duplicate>(v: &Vec<T>, ps: &Vec<usize>) -> (r: Vec<T>)
    requires
        forall|k: int| 0 <= k < ps@.len() ==> (#[trigger] ps@[k]) < v@.len(),
    ensures
        r@.len() == ps@.len(),
        forall|k: int| 0 <= k < ps@.len() ==> (#[trigger] r@[k]).copied_from(&v@[ps@[k] as int]),
{
    let mut out: Vec<T> = Vec::new();
    let mut k: usize = 0;
    while k < ps.len()
        invariant
            forall|j: int| 0 <= j < ps@.len() ==> (#[trigger] ps@[j]) < v@.len(),
            k <= ps@.len(),
            out@.len() == k,
            forall|j: int| 0 <= j < k ==> (#[trigger] out@[j]).copied_from(&v@[ps@[j] as int]),
        decreases ps.len() - k,
    {
        out.push(v[ps[k]].copy_of());
        k = k + 1;
    }
    out
}

/// How recently added albums are ordered: latest date added first, then by title.
pub open spec fn added_rank(a: Album) -> Seq<(int, Seq<char>, int)> {
    seq![(1, a.added_date@, 0), (0, a.title@, 0)]
}

/// Whether album `i` of `albums` comes before album `j` among the recently added: by rank,
/// and albums of equal rank in album order.
pub open spec fn added_before(albums: Seq<Album>, i: int, j: int) -> bool {
    let c = key_order(added_rank(albums[i]), added_rank(albums[j]));
    c < 0 || (c == 0 && i < j)
}

/// Whether `added` holds copies of `albums` rearranged by `added_before`.
pub open spec fn recently_added_of(albums: Seq<Album>, added: Seq<Album>) -> bool {
    exists|ps: Seq<usize>| #![trigger ps.to_multiset()]
        ps.to_multiset() == upto(albums.len()).to_multiset() && added.len() == ps.len()
        && (forall|k: int| 0 <= k < ps.len() ==> (#[trigger] added[k]).copied_from(&albums[ps[k] as int]))
        && (forall|a: int, b: int| 0 <= a < b < ps.len() ==> added_before(albums, #[trigger] ps[a] as int, #[trigger] ps[b] as int))
}

fn added_rank_of(a: &Album) -> (r: Vec<Part>)
    ensures
        key_view(r@) == added_rank(*a),
{
    let r = vec![Part::Down(a.added_date.clone()), Part::Up(a.title.clone())];
    assert(key_view(r@) =~= added_rank(*a));
    r
}

/// The albums ordered as `recently_added_of` describes.
pub fn recently_added(albums: &Vec<Album>) -> (r: Vec<Album>)
    ensures
        recently_added_of(albums@, r@),
{
    let m = albums.len();
    let mut ranks: Vec<Vec<Part>> = Vec::new();
    let mut i: usize = 0;
    while i < m
        invariant
            m == albums@.len(),
            i <= m,
            ranks@.len() == i,
            forall|h: int| 0 <= h < i ==> key_view(#[trigger] ranks@[h]@) == added_rank(albums@[h]),
        decreases m - i,
    {
        ranks.push(added_rank_of(&albums[i]));
        i = i + 1;
    }
    let order = KeyedPositions { keys: ranks };
    let ps = sort_positions(&order, positions_upto(m));
    let out = copy_in_order(albums, &ps);
    proof {
        assert forall|a: int, b: int| 0 <= a < b < ps@.len() implies added_before(albums@, #[trigger] ps@[a] as int, #[trigger] ps@[b] as int) by {
            assert(order.before(ps@[a] as int, ps@[b] as int));
        }
        assert(ps@.to_multiset() == upto(albums@.len()).to_multiset());
    }
    out
}

/// The date a track was last played, if it has one.
pub open spec fn played_at(t: Track) -> Option<Seq<char>> {
    match t.metadata.last_played_date {
        Some(d) => Some(d@),
        None => None,
    }
}

/// The position, among the first `n` tracks, of the play kept for identity `id`: the latest
/// play of a track with that identity, the earliest reported among equally late ones.
pub open spec fn kept_play(ts: Seq<Track>, id: Seq<char>, n: nat) -> Option<int>
    decreases n,
{
    if n == 0 || n > ts.len() {
        None
    } else {
        let prev = kept_play(ts, id, (n - 1) as nat);
        let t = ts[n - 1];
        if t.id@ == id && played_at(t) is Some {
            match prev {
                None => Some(n - 1),
                Some(k) => if lex_order(played_at(t).unwrap(), played_at(ts[k]).unwrap()) > 0 {
                    Some(n - 1)
                } else {
                    Some(k)
                },
            }
        } else {
            prev
        }
    }
}

/// A kept play is a played track below `n` with that identity.
pub proof fn lemma_kept_play(ts: Seq<Track>, id: Seq<char>, n: nat)
    ensures
        kept_play(ts, id, n) matches Some(i) ==> 0 <= i < n && i < ts.len() && ts[i].id@ == id && played_at(ts[i]) is Some,
    decreases n,
{
    if n > 0 && n <= ts.len() {
        lemma_kept_play(ts, id, (n - 1) as nat);
    }
}

/// Whether an entry records the play of track `t`.
pub open spec fn entry_matches(e: RecentlyPlayedEntry, t: Track) -> bool {
    &&& e.track_id@ == t.id@
    &&& e.title@ == t.title@
    &&& e.artist@ == t.artist@
    &&& e.play_count == t.metadata.play_count
    &&& played_at(t) == Some(e.played_at@)
}

/// How recently played entries are ordered: latest play first, then title, then identity.
pub open spec fn played_rank(e: RecentlyPlayedEntry) -> Seq<(int, Seq<char>, int)> {
    seq![(1, e.played_at@, 0), (0, e.title@, 0), (0, e.track_id@, 0)]
}

/// Whether `r` holds, for each identity of a played track, the entry of its kept play, in
/// strictly increasing played rank.
pub open spec fn recently_played_of(ts: Seq<Track>, r: Seq<RecentlyPlayedEntry>) -> bool {
    &&& forall|k: int| 0 <= k < r.len() ==> (kept_play(ts, (#[trigger] r[k]).track_id@, ts.len()) matches Some(p) && entry_matches(r[k], ts[p]))
    &&& forall|p: int| 0 <= p < ts.len() && played_at(#[trigger] ts[p]) is Some ==> exists|k: int| 0 <= k < r.len() && (#[trigger] r[k]).track_id@ == ts[p].id@
    &&& forall|a: int, b: int| 0 <= a < b < r.len() ==> key_order(played_rank(#[trigger] r[a]), played_rank(#[trigger] r[b])) < 0
    &&& forall|a: int, b: int| 0 <= a < b < r.len() ==> (#[trigger] r[a]).track_id@ != (#[trigger] r[b]).track_id@
}

fn entry_of(t: &Track, played: &String) -> (e: RecentlyPlayedEntry)
    requires
        played_at(*t) == Some(played@),
    ensures
        entry_matches(e, *t),
{
    RecentlyPlayedEntry {
        track_id: t.id.duplicate(),
        title: t.title.clone(),
        artist: t.artist.clone(),
        play_count: t.metadata.play_count,
        played_at: played.clone(),
    }
}

fn find_entry(entries: &Vec<RecentlyPlayedEntry>, id: &TrackId) -> (r: Option<usize>)
    ensures
        r matches Some(k) ==> k < entries@.len() && entries@[k as int].track_id@ == id@,
        r is None ==> forall|k: int| 0 <= k < entries@.len() ==> (#[trigger] entries@[k]).track_id@ != id@,
{
    let mut k: usize = 0;
    while k < entries.len()
        invariant
            k <= entries@.len(),
            forall|j: int| 0 <= j < k ==> (#[trigger] entries@[j]).track_id@ != id@,
        decreases entries.len() - k,
    {
        if entries[k].track_id.same(id) {
            return Some(k);
        }
        k = k + 1;
    }
    None
}

fn played_rank_of(e: &RecentlyPlayedEntry) -> (r: Vec<Part>)
    ensures
        key_view(r@) == played_rank(*e),
{
    let r = vec![Part::Down(e.played_at.clone()), Part::Up(e.title.clone()), Part::Up(e.track_id.as_str().to_owned())];
    assert(key_view(r@) =~= played_rank(*e));
    r
}

/// The kept play of each played track identity, as `recently_played_of` describes.
pub fn recently_played(tracks: &[Track]) -> (r: Vec<RecentlyPlayedEntry>)
    ensures
        recently_played_of(tracks@, r@),
{
    let ghost ts = tracks@;
    let n = tracks.len();
    let mut entries: Vec<RecentlyPlayedEntry> = Vec::new();
    let ghost mut kept: Seq<int> = Seq::empty();
    let mut p: usize = 0;
    while p < n
        invariant
            ts == tracks@,
            n == ts.len(),
            p <= n,
            entries@.len() == kept.len(),
            forall|k: int| 0 <= k < entries@.len() ==> kept_play(ts, (#[trigger] entries@[k]).track_id@, p as nat) == Some(kept[k])
                && 0 <= kept[k] < n && entry_matches(entries@[k], ts[kept[k]]),
            forall|a: int, b: int| 0 <= a < b < entries@.len() ==> (#[trigger] entries@[a]).track_id@ != (#[trigger] entries@[b]).track_id@,
            forall|q: int| 0 <= q < p && played_at(#[trigger] ts[q]) is Some ==> exists|k: int| 0 <= k < entries@.len() && (#[trigger] entries@[k]).track_id@ == ts[q].id@,
        decreases n - p,
    {
        let t = &tracks[p];
        let ghost before = entries@;
        let ghost before_kept = kept;
        proof {
            assert forall|k: int| 0 <= k < before.len() && before[k].track_id@ != ts[p as int].id@ implies kept_play(ts, (#[trigger] before[k]).track_id@, (p + 1) as nat) == Some(before_kept[k]) by {
            }
        }
        match &t.metadata.last_played_date {
            None => {
                proof {
                    assert forall|k: int| 0 <= k < entries@.len() implies kept_play(ts, (#[trigger] entries@[k]).track_id@, (p + 1) as nat) == kept_play(ts, entries@[k].track_id@, p as nat) by {
                    }
                }
            },
            Some(played) => {
                match find_entry(&entries, &t.id) {
                    None => {
                        proof {
                            lemma_kept_play(ts, t.id@, p as nat);
                            if let Some(i) = kept_play(ts, t.id@, p as nat) {
                                let k = choose|k: int| 0 <= k < entries@.len() && (#[trigger] entries@[k]).track_id@ == ts[i].id@;
                                assert(entries@[k].track_id@ != t.id@);
                            }
                        }
                        entries.push(entry_of(t, played));
                        proof {
                            kept = kept.push(p as int);
                            assert(entries@[entries@.len() - 1].track_id@ == ts[p as int].id@);
                        }
                    },
                    Some(k) => {
                        let newer = crate::text::compare_text(played.as_str(), entries[k].played_at.as_str()) > 0;
                        if newer {
                            entries.set(k, entry_of(t, played));
                            proof {
                                kept = kept.update(k as int, p as int);
                            }
                        }
                        assert(entries@[k as int].track_id@ == ts[p as int].id@);
                    },
                }
                proof {
                    assert forall|a: int, b: int| 0 <= a < b < entries@.len() implies (#[trigger] entries@[a]).track_id@ != (#[trigger] entries@[b]).track_id@ by {
                        if b >= before.len() {
                            assert(entries@[a] == before[a]);
                        } else if entries@[a] != before[a] {
                            assert(entries@[b] == before[b]);
                        } else if entries@[b] != before[b] {
                            assert(entries@[a] == before[a]);
                        } else {
                            assert(entries@[a] == before[a]);
                            assert(entries@[b] == before[b]);
                        }
                    }
                }
            },
        }
        proof {
            assert forall|q: int| 0 <= q < p + 1 && played_at(#[trigger] ts[q]) is Some implies exists|k: int| 0 <= k < entries@.len() && (#[trigger] entries@[k]).track_id@ == ts[q].id@ by {
                if q < p {
                    let k = choose|k: int| 0 <= k < before.len() && (#[trigger] before[k]).track_id@ == ts[q].id@;
                    if k < entries@.len() && entries@[k] == before[k] {
                    } else {
                        assert(entries@[k].track_id@ == before[k].track_id@);
                    }
                } else {
                    let k = choose|k: int| 0 <= k < entries@.len() && (#[trigger] entries@[k]).track_id@ == ts[p as int].id@;
                }
            }
        }
        p = p + 1;
    }
    let m = entries.len();
    let mut ranks: Vec<Vec<Part>> = Vec::new();
    let mut i: usize = 0;
    while i < m
        invariant
            m == entries@.len(),
            i <= m,
            ranks@.len() == i,
            forall|h: int| 0 <= h < i ==> key_view(#[trigger] ranks@[h]@) == played_rank(entries@[h]),
        decreases m - i,
    {
        ranks.push(played_rank_of(&entries[i]));
        i = i + 1;
    }
    let order = KeyedPositions { keys: ranks };
    let ps = sort_positions(&order, positions_upto(m));
    let out = copy_in_order(&entries, &ps);
    proof {
        broadcast use vstd::seq_lib::group_to_multiset_ensures;
        assert forall|k: int| 0 <= k < out@.len() implies (kept_play(ts, (#[trigger] out@[k]).track_id@, ts.len()) matches Some(q) && entry_matches(out@[k], ts[q])) by {
            let e = entries@[ps@[k] as int];
            assert(out@[k].copied_from(&e));
            assert(kept_play(ts, e.track_id@, n as nat) == Some(kept[ps@[k] as int]));
        }
        assert forall|q: int| 0 <= q < ts.len() && played_at(#[trigger] ts[q]) is Some implies exists|k: int| 0 <= k < out@.len() && (#[trigger] out@[k]).track_id@ == ts[q].id@ by {
            let h = choose|h: int| 0 <= h < entries@.len() && (#[trigger] entries@[h]).track_id@ == ts[q].id@;
            assert(upto(m as nat)[h] == h as usize);
            assert(upto(m as nat).to_multiset().count(h as usize) > 0);
            assert(ps@.contains(h as usize));
            let k = choose|k: int| 0 <= k < ps@.len() && ps@[k] == h as usize;
            assert(out@[k].copied_from(&entries@[h]));
        }
        assert forall|a: int, b: int| 0 <= a < b < out@.len() implies key_order(played_rank(#[trigger] out@[a]), played_rank(#[trigger] out@[b])) < 0 by {
            let pa = ps@[a] as int;
            let pb = ps@[b] as int;
            assert(order.before(pa, pb));
            order.lemma_strict_total(pa, pb, pb);
            assert(out@[a].copied_from(&entries@[pa]));
            assert(out@[b].copied_from(&entries@[pb]));
            assert(order.key_at(pa) == played_rank(entries@[pa]));
            assert(order.key_at(pb) == played_rank(entries@[pb]));
            crate::positions::lemma_key_view_ok(order.keys@[pa]@);
            crate::positions::lemma_key_view_ok(order.keys@[pb]@);
            lemma_parts_facts(played_rank(entries@[pa]), played_rank(entries@[pb]), played_rank(entries@[pb]));
            if key_order(played_rank(entries@[pa]), played_rank(entries@[pb])) == 0 {
                assert(played_rank(entries@[pa])[2] == played_rank(entries@[pb])[2]);
                if pa < pb {
                    assert(entries@[pa].track_id@ != entries@[pb].track_id@);
                } else {
                    assert(entries@[pb].track_id@ != entries@[pa].track_id@);
                }
            }
        }
        assert forall|a: int, b: int| 0 <= a < b < out@.len() implies (#[trigger] out@[a]).track_id@ != (#[trigger] out@[b]).track_id@ by {
            let pa = ps@[a] as int;
            let pb = ps@[b] as int;
            assert(order.before(pa, pb));
            order.lemma_strict_total(pa, pb, pb);
            assert(out@[a].copied_from(&entries@[pa]));
            assert(out@[b].copied_from(&entries@[pb]));
            if pa < pb {
                assert(entries@[pa].track_id@ != entries@[pb].track_id@);
            } else {
                assert(entries@[pb].track_id@ != entries@[pa].track_id@);
            }
        }
    }
    out
}

/// The artist keys of the tracks: their normalized filing names.
pub open spec fn artist_keys(ts: Seq<Track>) -> Seq<Seq<char>> {
    ts.map_values(|t: Track| spec_normalize(filing_name(t)))
}

/// The position of the first album, among the first `n`, whose normalized artist is `key`.
pub open spec fn first_album_by(albums: Seq<Album>, key: Seq<char>, n: nat) -> Option<int>
    decreases n,
{
    if n == 0 || n > albums.len() {
        None
    } else {
        match first_album_by(albums, key, (n - 1) as nat) {
            Some(i) => Some(i),
            None => if spec_normalize(albums[n - 1].artist@) == key {
                Some(n - 1)
            } else {
                None
            },
        }
    }
}

/// The position of the first track, among the first `n`, whose artist key is `key`.
pub open spec fn first_track_by(ts: Seq<Track>, key: Seq<char>, n: nat) -> Option<int>
    decreases n,
{
    if n == 0 || n > ts.len() {
        None
    } else {
        match first_track_by(ts, key, (n - 1) as nat) {
            Some(i) => Some(i),
            None => if spec_normalize(filing_name(ts[n - 1])) == key {
                Some(n - 1)
            } else {
                None
            },
        }
    }
}

/// The name shown for the artist with key `key`: the artist of the first album filed under
/// it, else the filing name of the first track filed under it.
pub open spec fn artist_display(ts: Seq<Track>, albums: Seq<Album>, key: Seq<char>) -> Option<Seq<char>> {
    match first_album_by(albums, key, albums.len()) {
        Some(i) => Some(albums[i].artist@),
        None => match first_track_by(ts, key, ts.len()) {
            Some(p) => Some(filing_name(ts[p])),
            None => None,
        },
    }
}

/// The namespace of artist identities.
pub open spec fn artist_namespace() -> Seq<char> {
    "musicapp:artist"@
}

/// The identities of a list of album identities.
pub open spec fn album_id_views(ids: Seq<AlbumId>) -> Seq<Seq<char>> {
    ids.map_values(|i: AlbumId| i@)
}

/// The identities of a list of track identities.
pub open spec fn track_id_views(ids: Seq<TrackId>) -> Seq<Seq<char>> {
    ids.map_values(|i: TrackId| i@)
}

/// Whether `a` is the artist with key `key`: named as `artist_display` says, identified by
/// the hash of the key, with the distinct identities of its albums in increasing order and
/// the identities of its tracks in reported order.
pub open spec fn artist_from(ts: Seq<Track>, albums: Seq<Album>, key: Seq<char>, a: Artist) -> bool {
    &&& artist_display(ts, albums, key) == Some(a.name@)
    &&& a.id@ == spec_stable_id(artist_namespace(), key)
    &&& track_id_views(a.top_track_ids@) == positions_with(artist_keys(ts), key, ts.len()).map_values(|p: usize| ts[p as int].id@)
    &&& forall|x: Seq<char>| album_id_views(a.album_ids@).contains(x) <==> exists|i: int| 0 <= i < albums.len()
        && spec_normalize((#[trigger] albums[i]).artist@) == key && albums[i].id@ == x
    &&& forall|u: int, v: int| 0 <= u < v < a.album_ids@.len() ==> lex_order((#[trigger] a.album_ids@[u])@, (#[trigger] a.album_ids@[v])@) < 0
}

/// Whether `r` holds one artist for each artist key of the tracks and albums, in strictly
/// increasing key order.
pub open spec fn artists_of(ts: Seq<Track>, albums: Seq<Album>, r: Seq<Artist>) -> bool {
    &&& forall|i: int| 0 <= i < r.len() ==> artist_from(ts, albums, spec_normalize((#[trigger] r[i]).name@), r[i])
    &&& forall|i: int, j: int| 0 <= i < j < r.len() ==> lex_order(spec_normalize((#[trigger] r[i]).name@), spec_normalize((#[trigger] r[j]).name@)) < 0
    &&& forall|p: int| 0 <= p < ts.len() ==> exists|i: int| 0 <= i < r.len() && spec_normalize((#[trigger] r[i]).name@) == spec_normalize(filing_name(#[trigger] ts[p]))
    &&& forall|a: int| 0 <= a < albums.len() ==> exists|i: int| 0 <= i < r.len() && spec_normalize((#[trigger] r[i]).name@) == spec_normalize((#[trigger] albums[a]).artist@)
}

/// A first album found is below `n` and filed under the key.
pub proof fn lemma_first_album_by(albums: Seq<Album>, key: Seq<char>, n: nat)
    ensures
        first_album_by(albums, key, n) matches Some(i) ==> 0 <= i < n && i < albums.len() && spec_normalize(albums[i].artist@) == key,
    decreases n,
{
    if n > 0 && n <= albums.len() {
        lemma_first_album_by(albums, key, (n - 1) as nat);
    }
}

/// A first track found is below `n` and filed under the key.
pub proof fn lemma_first_track_by(ts: Seq<Track>, key: Seq<char>, n: nat)
    ensures
        first_track_by(ts, key, n) matches Some(i) ==> 0 <= i < n && i < ts.len() && spec_normalize(filing_name(ts[i])) == key,
    decreases n,
{
    if n > 0 && n <= ts.len() {
        lemma_first_track_by(ts, key, (n - 1) as nat);
    }
}

/// Whether the artist named `name` under key `key` is named as the albums say, having seen
/// the first `p` tracks.
pub open spec fn named_so_far(ts: Seq<Track>, albums: Seq<Album>, key: Seq<char>, name: Seq<char>, p: nat) -> bool {
    ||| first_album_by(albums, key, albums.len()) matches Some(j) && albums[j].artist@ == name
    ||| first_album_by(albums, key, albums.len()) is None && (first_track_by(ts, key, p) matches Some(q) && filing_name(ts[q]) == name)
}

/// The artist keys and display names of the albums and tracks, and the artist key of each
/// track.
fn artist_names(tracks: &[Track], albums: &Vec<Album>) -> (r: (Vec<String>, Vec<String>, Vec<String>))
    ensures
        r.0@.len() == r.1@.len(),
        texts(r.0@).no_duplicates(),
        forall|g: int| 0 <= g < r.0@.len() ==> (#[trigger] r.0@[g])@ == spec_normalize(r.1@[g]@),
        forall|g: int| 0 <= g < r.0@.len() ==> artist_display(tracks@, albums@, (#[trigger] r.0@[g])@) == Some(r.1@[g]@),
        texts(r.2@) == artist_keys(tracks@),
        forall|p: int| 0 <= p < tracks@.len() ==> texts(r.0@).contains(#[trigger] artist_keys(tracks@)[p]),
        forall|a: int| 0 <= a < albums@.len() ==> texts(r.0@).contains(spec_normalize((#[trigger] albums@[a]).artist@)),
{
    let ghost ts = tracks@;
    let ghost al = albums@;
    let mut keys: Vec<String> = Vec::new();
    let mut names: Vec<String> = Vec::new();
    let mut i: usize = 0;
    proof {
        assert(texts(keys@) =~= Seq::<Seq<char>>::empty());
    }
    while i < albums.len()
        invariant
            al == albums@,
            i <= al.len(),
            keys@.len() == names@.len(),
            texts(keys@).no_duplicates(),
            forall|g: int| 0 <= g < keys@.len() ==> (#[trigger] keys@[g])@ == spec_normalize(names@[g]@),
            forall|g: int| 0 <= g < keys@.len() ==> (first_album_by(al, (#[trigger] keys@[g])@, i as nat) matches Some(j) && al[j].artist@ == names@[g]@),
            forall|a: int| 0 <= a < i ==> texts(keys@).contains(spec_normalize((#[trigger] al[a]).artist@)),
        decreases albums.len() - i,
    {
        let k = normalize_search_text(albums[i].artist.as_str());
        let ghost before_keys = keys@;
        let ghost before_names = names@;
        proof {
            assert forall|g: int| 0 <= g < keys@.len() implies first_album_by(al, (#[trigger] keys@[g])@, (i + 1) as nat) == first_album_by(al, keys@[g]@, i as nat) by {
            }
        }
        match find_text(&keys, k.as_str()) {
            Some(g) => {
                proof {
                    assert(texts(keys@)[g as int] == k@);
                }
            },
            None => {
                proof {
                    lemma_first_album_by(al, k@, i as nat);
                    if let Some(j) = first_album_by(al, k@, i as nat) {
                        assert(texts(keys@).contains(spec_normalize(al[j].artist@)));
                        let g = choose|g: int| 0 <= g < texts(keys@).len() && texts(keys@)[g] == k@;
                        assert(keys@[g]@ == k@);
                    }
                }
                keys.push(k);
                names.push(albums[i].artist.clone());
                proof {
                    let nk = texts(keys@);
                    assert(nk =~= texts(before_keys).push(keys@[keys@.len() - 1]@));
                    assert forall|a: int, b: int| 0 <= a < b < nk.len() implies nk[a] != nk[b] by {
                        if b == before_keys.len() {
                            assert(nk[a] == before_keys[a]@);
                        } else {
                            assert(nk[a] == texts(before_keys)[a]);
                            assert(nk[b] == texts(before_keys)[b]);
                        }
                    }
                    assert forall|g: int| 0 <= g < keys@.len() implies (first_album_by(al, (#[trigger] keys@[g])@, (i + 1) as nat) matches Some(j) && al[j].artist@ == names@[g]@) by {
                        if g < before_keys.len() {
                            assert(keys@[g] == before_keys[g]);
                            assert(names@[g] == before_names[g]);
                        }
                    }
                }
            },
        }
        proof {
            assert forall|a: int| 0 <= a < i + 1 implies texts(keys@).contains(spec_normalize((#[trigger] al[a]).artist@)) by {
                if a < i {
                    assert(texts(before_keys).contains(spec_normalize(al[a].artist@)));
                    let g = choose|g: int| 0 <= g < texts(before_keys).len() && texts(before_keys)[g] == spec_normalize(al[a].artist@);
                    assert(texts(keys@)[g] == texts(before_keys)[g]);
                } else {
                    let g = choose|g: int| 0 <= g < keys@.len() && keys@[g]@ == k@;
                    assert(texts(keys@)[g] == k@);
                }
            }
        }
        i = i + 1;
    }
    let mut track_keys: Vec<String> = Vec::new();
    let mut p: usize = 0;
    while p < tracks.len()
        invariant
            ts == tracks@,
            al == albums@,
            p <= ts.len(),
            keys@.len() == names@.len(),
            texts(keys@).no_duplicates(),
            forall|g: int| 0 <= g < keys@.len() ==> (#[trigger] keys@[g])@ == spec_normalize(names@[g]@),
            forall|g: int| 0 <= g < keys@.len() ==> named_so_far(ts, al, (#[trigger] keys@[g])@, names@[g]@, p as nat),
            forall|a: int| 0 <= a < al.len() ==> texts(keys@).contains(spec_normalize((#[trigger] al[a]).artist@)),
            forall|q: int| 0 <= q < p ==> texts(keys@).contains(#[trigger] artist_keys(ts)[q]),
            track_keys@.len() == p,
            forall|q: int| 0 <= q < p ==> (#[trigger] track_keys@[q])@ == artist_keys(ts)[q],
        decreases tracks.len() - p,
    {
        let k = normalize_search_text(filing_name_of(&tracks[p]));
        let ghost before_keys = keys@;
        let ghost before_names = names@;
        proof {
            assert(k@ == artist_keys(ts)[p as int]);
            assert forall|g: int| 0 <= g < keys@.len() implies named_so_far(ts, al, (#[trigger] keys@[g])@, names@[g]@, (p + 1) as nat) by {
                lemma_first_track_by(ts, keys@[g]@, p as nat);
            }
        }
        match find_text(&keys, k.as_str()) {
            Some(g) => {
                proof {
                    assert(texts(keys@)[g as int] == k@);
                    assert(texts(keys@).contains(k@));
                }
            },
            None => {
                proof {
                    lemma_first_album_by(al, k@, al.len());
                    lemma_first_track_by(ts, k@, p as nat);
                    if let Some(j) = first_album_by(al, k@, al.len()) {
                        assert(texts(keys@).contains(spec_normalize(al[j].artist@)));
                        let g = choose|g: int| 0 <= g < texts(keys@).len() && texts(keys@)[g] == k@;
                        assert(keys@[g]@ == k@);
                    }
                    if let Some(q) = first_track_by(ts, k@, p as nat) {
                        assert(texts(keys@).contains(artist_keys(ts)[q]));
                        let g = choose|g: int| 0 <= g < texts(keys@).len() && texts(keys@)[g] == k@;
                        assert(keys@[g]@ == k@);
                    }
                }
                keys.push(k.clone());
                names.push(filing_name_of(&tracks[p]).to_owned());
                proof {
                    let nk = texts(keys@);
                    assert(nk =~= texts(before_keys).push(k@));
                    assert forall|a: int, b: int| 0 <= a < b < nk.len() implies nk[a] != nk[b] by {
                        if b == before_keys.len() {
                            assert(nk[a] == before_keys[a]@);
                        } else {
                            assert(nk[a] == texts(before_keys)[a]);
                            assert(nk[b] == texts(before_keys)[b]);
                        }
                    }
                    assert forall|g: int| 0 <= g < keys@.len() implies named_so_far(ts, al, (#[trigger] keys@[g])@, names@[g]@, (p + 1) as nat) by {
                        if g < before_keys.len() {
                            assert(keys@[g] == before_keys[g]);
                            assert(names@[g] == before_names[g]);
                        }
                    }
                    assert forall|a: int| 0 <= a < al.len() implies texts(keys@).contains(spec_normalize((#[trigger] al[a]).artist@)) by {
                        let g = choose|g: int| 0 <= g < texts(before_keys).len() && texts(before_keys)[g] == spec_normalize(al[a].artist@);
                        assert(nk[g] == texts(before_keys)[g]);
                    }
                    assert(nk[nk.len() - 1] == k@);
                    assert(texts(keys@).contains(k@));
                }
            },
        }
        track_keys.push(k);
        proof {
            assert forall|q: int| 0 <= q < p + 1 implies texts(keys@).contains(#[trigger] artist_keys(ts)[q]) by {
                if q < p {
                    let g = choose|g: int| 0 <= g < texts(before_keys).len() && texts(before_keys)[g] == artist_keys(ts)[q];
                    assert(texts(keys@)[g] == texts(before_keys)[g]);
                } else {
                    assert(texts(keys@).contains(k@));
                }
            }
        }
        p = p + 1;
    }
    proof {
        assert(texts(track_keys@) =~= artist_keys(ts));
        assert forall|g: int| 0 <= g < keys@.len() implies artist_display(ts, al, (#[trigger] keys@[g])@) == Some(names@[g]@) by {
            assert(named_so_far(ts, al, keys@[g]@, names@[g]@, ts.len()));
        }
    }
    (keys, names, track_keys)
}

/// Whether album identities strictly increase.
pub open spec fn increasing_ids(ids: Seq<AlbumId>) -> bool {
    forall|u: int, v: int| 0 <= u < v < ids.len() ==> lex_order((#[trigger] ids[u])@, (#[trigger] ids[v])@) < 0
}

/// Adds `id` to increasing identities unless it is there already.
fn insert_sorted(ids: &mut Vec<AlbumId>, id: &AlbumId)
    requires
        increasing_ids(old(ids)@),
    ensures
        increasing_ids(final(ids)@),
        forall|x: Seq<char>| album_id_views(final(ids)@).contains(x) <==> (album_id_views(old(ids)@).contains(x) || x == id@),
{
    let ghost before = ids@;
    let mut j: usize = 0;
    while j < ids.len() && crate::text::compare_text(ids[j].as_str(), id.as_str()) < 0
        invariant
            ids@ == before,
            j <= ids@.len(),
            forall|u: int| 0 <= u < j ==> lex_order((#[trigger] ids@[u])@, id@) < 0,
        decreases ids.len() - j,
    {
        j = j + 1;
    }
    if j < ids.len() && ids[j].same(id) {
        proof {
            assert forall|x: Seq<char>| album_id_views(ids@).contains(x) <==> (album_id_views(before).contains(x) || x == id@) by {
                if x == id@ {
                    assert(album_id_views(ids@)[j as int] == x);
                }
            }
        }
        return;
    }
    proof {
        if j < ids@.len() {
            crate::text::lemma_lex_order_facts(ids@[j as int]@, id@, id@);
            assert(lex_order(id@, ids@[j as int]@) < 0);
        }
    }
    ids.insert(j, id.duplicate());
    proof {
        let n = ids@;
        assert(n == before.insert(j as int, *id));
        assert forall|u: int, v: int| 0 <= u < v < n.len() implies lex_order((#[trigger] n[u])@, (#[trigger] n[v])@) < 0 by {
            if v < j {
                assert(n[u] == before[u] && n[v] == before[v]);
            } else if v == j {
                assert(n[u] == before[u]);
            } else if u < j {
                assert(n[u] == before[u] && n[v] == before[v - 1]);
            } else if u == j {
                assert(n[v] == before[v - 1]);
                if v - 1 > j {
                    assert(lex_order(before[j as int]@, before[v - 1]@) < 0);
                    crate::text::lemma_lex_order_trans(id@, before[j as int]@, before[v - 1]@);
                }
            } else {
                assert(n[u] == before[u - 1] && n[v] == before[v - 1]);
            }
        }
        assert forall|x: Seq<char>| album_id_views(n).contains(x) <==> (album_id_views(before).contains(x) || x == id@) by {
            if album_id_views(n).contains(x) {
                let w = choose|w: int| 0 <= w < album_id_views(n).len() && album_id_views(n)[w] == x;
                if w < j {
                    assert(album_id_views(before)[w] == x);
                } else if w > j {
                    assert(album_id_views(before)[w - 1] == x);
                }
            }
            if album_id_views(before).contains(x) {
                let w = choose|w: int| 0 <= w < album_id_views(before).len() && album_id_views(before)[w] == x;
                if w < j {
                    assert(album_id_views(n)[w] == x);
                } else {
                    assert(album_id_views(n)[w + 1] == x);
                }
            }
            if x == id@ {
                assert(album_id_views(n)[j as int] == x);
            }
        }
    }
}

/// The distinct identities of the albums whose normalized artist is `key`, in increasing order.
fn album_ids_for(albums: &Vec<Album>, album_artists: &Vec<String>, key: &str) -> (r: Vec<AlbumId>)
    requires
        album_artists@.len() == albums@.len(),
        forall|i: int| 0 <= i < albums@.len() ==> (#[trigger] album_artists@[i])@ == spec_normalize(albums@[i].artist@),
    ensures
        increasing_ids(r@),
        forall|x: Seq<char>| album_id_views(r@).contains(x) <==> exists|i: int| 0 <= i < albums@.len()
            && spec_normalize((#[trigger] albums@[i]).artist@) == key@ && albums@[i].id@ == x,
{
    let mut ids: Vec<AlbumId> = Vec::new();
    let mut i: usize = 0;
    while i < albums.len()
        invariant
            album_artists@.len() == albums@.len(),
            forall|h: int| 0 <= h < albums@.len() ==> (#[trigger] album_artists@[h])@ == spec_normalize(albums@[h].artist@),
            i <= albums@.len(),
            increasing_ids(ids@),
            forall|x: Seq<char>| album_id_views(ids@).contains(x) <==> exists|h: int| 0 <= h < i
                && spec_normalize((#[trigger] albums@[h]).artist@) == key@ && albums@[h].id@ == x,
        decreases albums.len() - i,
    {
        if same_text(album_artists[i].as_str(), key) {
            insert_sorted(&mut ids, &albums[i].id);
        }
        proof {
            assert forall|x: Seq<char>| album_id_views(ids@).contains(x) <==> exists|h: int| 0 <= h < i + 1
                && spec_normalize((#[trigger] albums@[h]).artist@) == key@ && albums@[h].id@ == x by {
                if exists|h: int| 0 <= h < i + 1 && spec_normalize((#[trigger] albums@[h]).artist@) == key@ && albums@[h].id@ == x {
                    let h = choose|h: int| 0 <= h < i + 1 && spec_normalize((#[trigger] albums@[h]).artist@) == key@ && albums@[h].id@ == x;
                    if h < i {
                        assert(exists|h2: int| 0 <= h2 < i && spec_normalize((#[trigger] albums@[h2]).artist@) == key@ && albums@[h2].id@ == x);
                    }
                }
            }
        }
        i = i + 1;
    }
    ids
}

/// The identities of the tracks at the given positions.
fn track_ids_at(tracks: &[Track], ps: &Vec<usize>) -> (r: Vec<TrackId>)
    requires
        forall|k: int| 0 <= k < ps@.len() ==> (#[trigger] ps@[k]) < tracks@.len(),
    ensures
        track_id_views(r@) == ps@.map_values(|p: usize| tracks@[p as int].id@),
{
    let mut out: Vec<TrackId> = Vec::new();
    let mut k: usize = 0;
    while k < ps.len()
        invariant
            forall|j: int| 0 <= j < ps@.len() ==> (#[trigger] ps@[j]) < tracks@.len(),
            k <= ps@.len(),
            out@.len() == k,
            track_id_views(out@) == ps@.subrange(0, k as int).map_values(|p: usize| tracks@[p as int].id@),
        decreases ps.len() - k,
    {
        let ghost old_out = out@;
        out.push(tracks[ps[k]].id.duplicate());
        proof {
            let want = ps@.subrange(0, k + 1).map_values(|p: usize| tracks@[p as int].id@);
            let had = ps@.subrange(0, k as int).map_values(|p: usize| tracks@[p as int].id@);
            assert forall|j: int| 0 <= j < k + 1 implies track_id_views(out@)[j] == want[j] by {
                if j < k {
                    assert(out@[j] == old_out[j]);
                    assert(track_id_views(old_out)[j] == had[j]);
                }
            }
            assert(track_id_views(out@) =~= want);
        }
        k = k + 1;
    }
    assert(ps@.subrange(0, ps@.len() as int) =~= ps@);
    out
}

/// A key of one increasing text part compares as the text does.
proof fn lemma_single_text_key(a: Seq<char>, b: Seq<char>)
    ensures
        key_order(seq![(0int, a, 0int)], seq![(0int, b, 0int)]) == lex_order(a, b),
{
    reveal_with_fuel(key_order, 2);
    crate::text::lemma_lex_order_facts(a, b, b);
    assert(seq![(0int, a, 0int)].drop_first() =~= Seq::<(int, Seq<char>, int)>::empty());
    assert(seq![(0int, b, 0int)].drop_first() =~= Seq::<(int, Seq<char>, int)>::empty());
}

/// The artists of the tracks and albums, as `artists_of` describes.
pub fn derive_artists(tracks: &[Track], albums: &Vec<Album>) -> (r: Vec<Artist>)
    ensures
        artists_of(tracks@, albums@, r@),
{
    let ghost ts = tracks@;
    let ghost al = albums@;
    let (keys, names, track_keys) = artist_names(tracks, albums);
    let mut album_artists: Vec<String> = Vec::new();
    let mut i: usize = 0;
    while i < albums.len()
        invariant
            al == albums@,
            i <= al.len(),
            album_artists@.len() == i,
            forall|h: int| 0 <= h < i ==> (#[trigger] album_artists@[h])@ == spec_normalize(al[h].artist@),
        decreases albums.len() - i,
    {
        album_artists.push(normalize_search_text(albums[i].artist.as_str()));
        i = i + 1;
    }
    let m = keys.len();
    let mut ranks: Vec<Vec<Part>> = Vec::new();
    let mut g: usize = 0;
    while g < m
        invariant
            m == keys@.len(),
            g <= m,
            ranks@.len() == g,
            forall|h: int| 0 <= h < g ==> key_view(#[trigger] ranks@[h]@) == seq![(0int, keys@[h]@, 0int)],
        decreases m - g,
    {
        let r = vec![Part::Up(keys[g].clone())];
        assert(key_view(r@) =~= seq![(0int, keys@[g as int]@, 0int)]);
        ranks.push(r);
        g = g + 1;
    }
    let order = KeyedPositions { keys: ranks };
    let ps = sort_positions(&order, positions_upto(m));
    let n = tracks.len();
    let mut out: Vec<Artist> = Vec::new();
    let mut k: usize = 0;
    while k < ps.len()
        invariant
            ts == tracks@,
            al == albums@,
            n == ts.len(),
            m == keys@.len(),
            keys@.len() == names@.len(),
            texts(track_keys@) == artist_keys(ts),
            forall|h: int| 0 <= h < keys@.len() ==> artist_display(ts, al, (#[trigger] keys@[h])@) == Some(names@[h]@),
            album_artists@.len() == al.len(),
            forall|h: int| 0 <= h < al.len() ==> (#[trigger] album_artists@[h])@ == spec_normalize(al[h].artist@),
            in_range(&order, ps@),
            order.keys@.len() == m,
            k <= ps@.len(),
            out@.len() == k,
            forall|j: int| 0 <= j < k ==> artist_from(ts, al, keys@[ps@[j] as int]@, #[trigger] out@[j]) && out@[j].name@ == names@[ps@[j] as int]@,
        decreases ps.len() - k,
    {
        let h = ps[k];
        let key = &keys[h];
        let album_ids = album_ids_for(albums, &album_artists, key.as_str());
        let positions = collect_positions(&track_keys, key.as_str());
        proof {
            assert(texts(track_keys@).len() == track_keys@.len());
            lemma_positions_with(artist_keys(ts), key@, n as nat);
        }
        let top = track_ids_at(tracks, &positions);
        let id = stable_id("musicapp:artist", key.as_str());
        proof {
            reveal_strlit("musicapp:artist");
        }
        let artist = Artist { id: crate::domain::ArtistId::new(id.as_str()), name: names[h].clone(), album_ids, top_track_ids: top };
        proof {
            assert forall|u: int, v: int| 0 <= u < v < artist.album_ids@.len() implies lex_order((#[trigger] artist.album_ids@[u])@, (#[trigger] artist.album_ids@[v])@) < 0 by {
                assert(increasing_ids(artist.album_ids@));
            }
        }
        out.push(artist);
        k = k + 1;
    }
    proof {
        broadcast use vstd::seq_lib::group_to_multiset_ensures;
        assert forall|j: int| 0 <= j < out@.len() implies artist_from(ts, al, spec_normalize((#[trigger] out@[j]).name@), out@[j]) by {
            assert(keys@[ps@[j] as int]@ == spec_normalize(names@[ps@[j] as int]@));
        }
        assert forall|a: int, b: int| 0 <= a < b < out@.len() implies lex_order(spec_normalize((#[trigger] out@[a]).name@), spec_normalize((#[trigger] out@[b]).name@)) < 0 by {
            let pa = ps@[a] as int;
            let pb = ps@[b] as int;
            assert(order.before(pa, pb));
            order.lemma_strict_total(pa, pb, pb);
            assert(keys@[pa]@ == spec_normalize(names@[pa]@));
            assert(keys@[pb]@ == spec_normalize(names@[pb]@));
            assert(order.key_at(pa) == seq![(0int, keys@[pa]@, 0int)]);
            assert(order.key_at(pb) == seq![(0int, keys@[pb]@, 0int)]);
            lemma_single_text_key(keys@[pa]@, keys@[pb]@);
            crate::text::lemma_lex_order_facts(keys@[pa]@, keys@[pb]@, keys@[pb]@);
            if lex_order(keys@[pa]@, keys@[pb]@) == 0 {
                assert(texts(keys@)[pa] == texts(keys@)[pb]);
            }
        }
        assert forall|p: int| 0 <= p < ts.len() implies exists|j: int| 0 <= j < out@.len() && spec_normalize((#[trigger] out@[j]).name@) == spec_normalize(filing_name(#[trigger] ts[p])) by {
            assert(texts(keys@).contains(artist_keys(ts)[p]));
            let h = choose|h: int| 0 <= h < texts(keys@).len() && texts(keys@)[h] == artist_keys(ts)[p];
            assert(upto(m as nat)[h] == h as usize);
            assert(upto(m as nat).to_multiset().count(h as usize) > 0);
            assert(ps@.contains(h as usize));
            let j = choose|j: int| 0 <= j < ps@.len() && ps@[j] == h as usize;
            assert(keys@[h]@ == spec_normalize(names@[h]@));
            assert(out@[j].name@ == names@[h]@);
        }
        assert forall|a: int| 0 <= a < al.len() implies exists|j: int| 0 <= j < out@.len() && spec_normalize((#[trigger] out@[j]).name@) == spec_normalize((#[trigger] al[a]).artist@) by {
            assert(texts(keys@).contains(spec_normalize(al[a].artist@)));
            let h = choose|h: int| 0 <= h < texts(keys@).len() && texts(keys@)[h] == spec_normalize(al[a].artist@);
            assert(upto(m as nat)[h] == h as usize);
            assert(upto(m as nat).to_multiset().count(h as usize) > 0);
            assert(ps@.contains(h as usize));
            let j = choose|j: int| 0 <= j < ps@.len() && ps@[j] == h as usize;
            assert(keys@[h]@ == spec_normalize(names@[h]@));
            assert(out@[j].name@ == names@[h]@);
        }
    }
    out
}

/// The library views derived from the tracks.
#[derive(Clone, Debug, Default, PartialEq, Eq)]
pub struct DerivedLibrary {
    pub artists: Vec<Artist>,
    pub albums: Vec<Album>,
    pub recently_added: Vec<Album>,
    pub recently_played: Vec<RecentlyPlayedEntry>,
}

/// Albums, artists, recently added albums and recently played tracks of the tracks.
pub fn derive_library(tracks: &[Track]) -> (r: DerivedLibrary)
    ensures
        albums_of(tracks@, r.albums@),
        artists_of(tracks@, r.albums@, r.artists@),
        recently_added_of(r.albums@, r.recently_added@),
        recently_played_of(tracks@, r.recently_played@),
{
    let albums = derive_albums(tracks);
    let artists = derive_artists(tracks, &albums);
    let recently_added = recently_added(&albums);
    let recently_played = recently_played(tracks);
    DerivedLibrary { artists, albums, recently_added, recently_played }
}

/// A track as Music.app reports it.  Its duration is already converted from the seconds
/// Music.app reports, zero where it reported none or no positive finite number.
#[derive(Clone, Debug, PartialEq)]
pub struct RawTrack {
    pub persistent_id: Option<String>,
    pub database_id: Option<String>,
    pub name: Option<String>,
    pub artist: Option<String>,
    pub album: Option<String>,
    pub album_artist: Option<String>,
    pub composer: Option<String>,
    pub genre: Option<String>,
    pub duration: Duration,
    pub favorited: Option<bool>,
    pub disliked: Option<bool>,
    pub year: Option<u16>,
    pub track_number: Option<u16>,
    pub disc_number: Option<u16>,
    pub played_count: Option<u64>,
    pub skipped_count: Option<u64>,
    pub date_added: Option<String>,
    pub played_date: Option<String>,
    pub skipped_date: Option<String>,
    pub modification_date: Option<String>,
    pub release_date: Option<String>,
    pub rating: Option<u8>,
    pub enabled: Option<bool>,
    pub cloud_status: Option<String>,
    pub media_kind: Option<String>,
}

impl RawTrack {
    /// A copy holding the same values.
    pub fn clone_raw(&self) -> (r: RawTrack)
        ensures
            r == *self,
    {
        RawTrack {
            persistent_id: copy_option(&self.persistent_id),
            database_id: copy_option(&self.database_id),
            name: copy_option(&self.name),
            artist: copy_option(&self.artist),
            album: copy_option(&self.album),
            album_artist: copy_option(&self.album_artist),
            composer: copy_option(&self.composer),
            genre: copy_option(&self.genre),
            duration: self.duration,
            favorited: self.favorited,
            disliked: self.disliked,
            year: self.year,
            track_number: self.track_number,
            disc_number: self.disc_number,
            played_count: self.played_count,
            skipped_count: self.skipped_count,
            date_added: copy_option(&self.date_added),
            played_date: copy_option(&self.played_date),
            skipped_date: copy_option(&self.skipped_date),
            modification_date: copy_option(&self.modification_date),
            release_date: copy_option(&self.release_date),
            rating: self.rating,
            enabled: self.enabled,
            cloud_status: copy_option(&self.cloud_status),
            media_kind: copy_option(&self.media_kind),
        }
    }
}

/// A text value, or `fallback` where it is absent or blank.
pub open spec fn text_or(value: Option<String>, fallback: Seq<char>) -> Seq<char> {
    match spec_nonempty(value) {
        Some(v) => v@,
        None => fallback,
    }
}

/// A number, unless it is zero.
pub open spec fn positive(value: Option<u16>) -> Option<u16> {
    match value {
        Some(v) => if v > 0 {
            Some(v)
        } else {
            None
        },
        None => None,
    }
}

/// The text a track without a usable identifier is identified by: title, artist, album and
/// whole milliseconds, separated by U+001F.
pub open spec fn ephemeral_value(title: Seq<char>, artist: Seq<char>, album: Seq<char>, duration: Duration) -> Seq<char> {
    title + seq![unit_separator()] + artist + seq![unit_separator()] + album + seq![unit_separator()] + spec_decimal(duration@ / 1_000_000)
}

/// The identity of a reported track: its persistent identifier, else its database
/// identifier, else an identity hashed from its title, artist, album and duration.
pub open spec fn raw_track_identity(raw: RawTrack) -> Seq<char> {
    let persistent = match raw.persistent_id {
        Some(v) => spec_normalize_identifier(v@),
        None => None,
    };
    let database = match raw.database_id {
        Some(v) => spec_normalize_identifier(v@),
        None => None,
    };
    match persistent {
        Some(v) => persistent_prefix() + v,
        None => match database {
            Some(v) => database_prefix() + v,
            None => spec_stable_id(
                "musicapp:ephemeral"@,
                ephemeral_value(
                    text_or(raw.name, "Unknown Track"@),
                    text_or(raw.artist, "Unknown Artist"@),
                    text_or(raw.album, "Unknown Album"@),
                    raw.duration,
                ),
            ),
        },
    }
}

fn text_or_fallback(value: Option<String>, fallback: &str) -> (r: String)
    ensures
        r@ == text_or(value, fallback@),
{
    match nonempty(value) {
        Some(v) => v,
        None => fallback.to_owned(),
    }
}

fn positive_number(value: Option<u16>) -> (r: Option<u16>)
    ensures
        r == positive(value),
{
    match value {
        Some(v) => if v > 0 {
            Some(v)
        } else {
            None
        },
        None => None,
    }
}

fn identifier_of(value: &Option<String>) -> (r: Option<String>)
    ensures
        match r {
            Some(v) => match value {
                Some(s) => spec_normalize_identifier(s@) == Some(v@),
                None => false,
            },
            None => match value {
                Some(s) => spec_normalize_identifier(s@) is None,
                None => true,
            },
        },
{
    match value {
        Some(s) => normalize_identifier(s.as_str()),
        None => None,
    }
}

/// Whether `t` is the domain track of the reported track `raw`: identified as
/// `raw_track_identity` says, blank texts replaced by their fallbacks, zero numbers and
/// ratings above 100 dropped, and absent flags defaulted.
pub open spec fn track_from_raw(raw: RawTrack, t: Track) -> bool {
    &&& t.id@ == raw_track_identity(raw)
    &&& t.title@ == text_or(raw.name, "Unknown Track"@)
    &&& t.artist@ == text_or(raw.artist, "Unknown Artist"@)
    &&& t.album@ == text_or(raw.album, "Unknown Album"@)
    &&& t.duration == raw.duration
    &&& t.is_favorite == (match raw.favorited { Some(f) => f, None => false })
    &&& t.metadata.origin == DataOrigin::LocalMusicApp
    &&& t.metadata.album_artist == spec_nonempty(raw.album_artist)
    &&& t.metadata.composer == spec_nonempty(raw.composer)
    &&& t.metadata.genre == spec_nonempty(raw.genre)
    &&& t.metadata.year == positive(raw.year)
    &&& t.metadata.track_number == positive(raw.track_number)
    &&& t.metadata.disc_number == positive(raw.disc_number)
    &&& t.metadata.play_count == raw.played_count
    &&& t.metadata.skip_count == raw.skipped_count
    &&& t.metadata.date_added == spec_nonempty(raw.date_added)
    &&& t.metadata.last_played_date == spec_nonempty(raw.played_date)
    &&& t.metadata.last_skipped_date == spec_nonempty(raw.skipped_date)
    &&& t.metadata.modification_date == spec_nonempty(raw.modification_date)
    &&& t.metadata.release_date == spec_nonempty(raw.release_date)
    &&& t.metadata.rating == (match raw.rating { Some(r) => if r <= 100 { Some(r) } else { None }, None => None })
    &&& t.metadata.cloud_status == spec_nonempty(raw.cloud_status)
    &&& t.metadata.media_kind == spec_nonempty(raw.media_kind)
    &&& t.metadata.enabled == (match raw.enabled { Some(e) => e, None => true })
}

/// The domain track of a reported one.
pub fn raw_track_to_domain(raw: RawTrack) -> (t: Track)
    ensures
        track_from_raw(raw, t),
{
    let ghost original = raw;
    let title = text_or_fallback(raw.name, "Unknown Track");
    let artist = text_or_fallback(raw.artist, "Unknown Artist");
    let album = text_or_fallback(raw.album, "Unknown Album");
    let duration = raw.duration;
    let persistent = identifier_of(&raw.persistent_id);
    let id = match persistent {
        Some(v) => MusicAppPersistentId::new(v.as_str()).to_track_id(),
        None => match identifier_of(&raw.database_id) {
            Some(v) => MusicAppDatabaseId::new(v.as_str()).to_track_id(),
            None => {
                let mut value = title.clone();
                push_char(&mut value, '\u{1f}');
                push_text(&mut value, artist.as_str());
                push_char(&mut value, '\u{1f}');
                push_text(&mut value, album.as_str());
                push_char(&mut value, '\u{1f}');
                push_decimal_wide(&mut value, duration.as_millis());
                assert(value@ =~= ephemeral_value(title@, artist@, album@, duration));
                proof {
                    reveal_strlit("musicapp:ephemeral");
                    reveal_strlit("Unknown Track");
                    reveal_strlit("Unknown Artist");
                    reveal_strlit("Unknown Album");
                }
                TrackId::new(stable_id("musicapp:ephemeral", value.as_str()).as_str())
            },
        },
    };
    let rating = match raw.rating {
        Some(r) => if r <= 100 {
            Some(r)
        } else {
            None
        },
        None => None,
    };
    Track {
        id,
        title,
        artist,
        album,
        duration,
        is_favorite: match raw.favorited {
            Some(f) => f,
            None => false,
        },
        metadata: TrackMetadata {
            origin: DataOrigin::LocalMusicApp,
            album_artist: nonempty(raw.album_artist),
            composer: nonempty(raw.composer),
            genre: nonempty(raw.genre),
            year: positive_number(raw.year),
            track_number: positive_number(raw.track_number),
            disc_number: positive_number(raw.disc_number),
            play_count: raw.played_count,
            skip_count: raw.skipped_count,
            date_added: nonempty(raw.date_added),
            last_played_date: nonempty(raw.played_date),
            last_skipped_date: nonempty(raw.skipped_date),
            modification_date: nonempty(raw.modification_date),
            release_date: nonempty(raw.release_date),
            rating,
            cloud_status: nonempty(raw.cloud_status),
            media_kind: nonempty(raw.media_kind),
            enabled: match raw.enabled {
                Some(e) => e,
                None => true,
            },
        },
    }
}

/// The identities of the tracks matching every term of `query`, at most `limit` of them.
pub fn search_track_ids(tracks: &[Track], query: &str, limit: usize) -> (r: Vec<TrackId>)
    ensures
        r@.map_values(|id: TrackId| id@) == crate::domain::spec_search_track_ids(tracks@, query@, limit as nat),
{
    crate::domain::search_track_ids(tracks, query, limit)
}

/// A track with an album artist is filed under that album artist, whatever its own artist,
/// so two reported tracks that share album artist, album title and year (a compilation
/// whose songs have different performers) fall into one and the same derived album.
pub proof fn law_compilation_tracks_share_an_album(ts: Seq<Track>, albums: Seq<Album>, p: int, q: int)
    requires
        albums_of(ts, albums),
        ts.len() <= usize::MAX,
        0 <= p < ts.len(),
        0 <= q < ts.len(),
        ts[p].metadata.album_artist is Some,
        ts[q].metadata.album_artist is Some,
        ts[p].metadata.album_artist->0@ == ts[q].metadata.album_artist->0@,
        ts[p].album@ == ts[q].album@,
        ts[p].metadata.year == ts[q].metadata.year,
    ensures
        filing_name(ts[p]) == ts[p].metadata.album_artist->0@,
        filing_name(ts[q]) == ts[q].metadata.album_artist->0@,
        exists|i: int| 0 <= i < albums.len() && (#[trigger] albums[i]).tracks@.contains(ts[p]) && albums[i].tracks@.contains(ts[q]),
{
    assert(album_key(ts[p]) == album_key(ts[q]));
    law_each_track_in_one_album(ts, albums, p);
    law_each_track_in_one_album(ts, albums, q);
    let i = choose|i: int| 0 <= i < albums.len() && album_key((#[trigger] albums[i]).tracks@[0]) == album_key(ts[p])
        && albums[i].tracks@.contains(ts[p]);
    let j = choose|j: int| 0 <= j < albums.len() && album_key((#[trigger] albums[j]).tracks@[0]) == album_key(ts[q])
        && albums[j].tracks@.contains(ts[q]);
    assert(i == j);
    assert(albums[i].tracks@.contains(ts[p]) && albums[i].tracks@.contains(ts[q]));
}

} // verus!
