//! The local search index over playlists, artists, albums and songs, and the search
//! results it yields for the current query.
use vstd::prelude::*;

use crate::domain::{query_term_chars, query_terms, track_search_source, track_search_text, Playlist, Track};
use crate::state::{AppState, LocalSearchIndexEntry, LocalSearchResult, Route, Screen};
use crate::text::{chars_of, contains_all, contains_all_terms, join_space, join_two, normalize_search_text, opt_str, opt_text, spec_normalize};

verus! {

/// An index entry by its result and normalized text.
pub open spec fn index_view(e: LocalSearchIndexEntry) -> (LocalSearchResult, Seq<char>) {
    (e.result, e.normalized_text@)
}

/// The index entry of a playlist: its name and description.
pub open spec fn playlist_index_view(p: Playlist) -> (LocalSearchResult, Seq<char>) {
    (LocalSearchResult::Playlist(p.id), spec_normalize(join_space(seq![p.name@, opt_text(p.description)])))
}

/// The index entry of a track.
pub open spec fn track_index_view(t: Track) -> (LocalSearchResult, Seq<char>) {
    (LocalSearchResult::Track(t.id), track_search_text(t))
}

/// The whole index: playlists, then artists, then albums, then songs, each in order.
pub open spec fn spec_search_index(state: AppState) -> Seq<(LocalSearchResult, Seq<char>)> {
    state.playlists@.map_values(|p: Playlist| playlist_index_view(p)) + state.artists@.map_values(
        |a: crate::domain::Artist| (LocalSearchResult::Artist(a.id), spec_normalize(a.name@)),
    ) + state.albums@.map_values(
        |a: crate::domain::Album| (LocalSearchResult::Album(a.id), spec_normalize(join_space(seq![a.title@, a.artist@]))),
    ) + state.library@.map_values(|t: Track| track_index_view(t))
}

/// The index entry of a track.
pub fn track_search_index_entry(track: &Track) -> (r: LocalSearchIndexEntry)
    ensures
        index_view(r) == track_index_view(*track),
{
    let source = track_search_source(track);
    LocalSearchIndexEntry {
        result: LocalSearchResult::Track(track.id.duplicate()),
        normalized_text: normalize_search_text(source.as_str()),
    }
}

/// `new` is `old` with the search index rebuilt from its playlists, artists, albums and songs.
pub open spec fn index_rebuilt(old: AppState, new: AppState) -> bool {
    &&& new.search_index@.map_values(|e: LocalSearchIndexEntry| index_view(e)) == spec_search_index(old)
    &&& new == (AppState { search_index: new.search_index, ..old })
}

/// Rebuilds the search index from the playlists, artists, albums and songs.
pub fn rebuild_search_index(state: &mut AppState)
    ensures
        index_rebuilt(*old(state), *final(state)),
{
    let ghost goal = spec_search_index(*state);
    let ghost np = state.playlists@.len();
    let ghost na = state.artists@.len();
    let ghost nb = state.albums@.len();
    let mut index: Vec<LocalSearchIndexEntry> = Vec::new();
    let mut i: usize = 0;
    while i < state.playlists.len()
        invariant
            goal == spec_search_index(*state),
            np == state.playlists@.len(),
            i <= np,
            index@.len() == i,
            forall|k: int| 0 <= k < i ==> index_view(#[trigger] index@[k]) == goal[k],
        decreases state.playlists.len() - i,
    {
        let p = &state.playlists[i];
        let text = join_two(p.name.as_str(), opt_str(&p.description));
        index.push(LocalSearchIndexEntry {
            result: LocalSearchResult::Playlist(p.id.duplicate()),
            normalized_text: normalize_search_text(text.as_str()),
        });
        i = i + 1;
    }
    let mut i: usize = 0;
    while i < state.artists.len()
        invariant
            goal == spec_search_index(*state),
            np == state.playlists@.len(),
            na == state.artists@.len(),
            i <= na,
            index@.len() == np + i,
            forall|k: int| 0 <= k < np + i ==> index_view(#[trigger] index@[k]) == goal[k],
        decreases state.artists.len() - i,
    {
        let a = &state.artists[i];
        index.push(LocalSearchIndexEntry {
            result: LocalSearchResult::Artist(a.id.duplicate()),
            normalized_text: normalize_search_text(a.name.as_str()),
        });
        i = i + 1;
    }
    let mut i: usize = 0;
    while i < state.albums.len()
        invariant
            goal == spec_search_index(*state),
            np == state.playlists@.len(),
            na == state.artists@.len(),
            nb == state.albums@.len(),
            i <= nb,
            index@.len() == np + na + i,
            forall|k: int| 0 <= k < np + na + i ==> index_view(#[trigger] index@[k]) == goal[k],
        decreases state.albums.len() - i,
    {
        let a = &state.albums[i];
        let text = join_two(a.title.as_str(), a.artist.as_str());
        index.push(LocalSearchIndexEntry {
            result: LocalSearchResult::Album(a.id.duplicate()),
            normalized_text: normalize_search_text(text.as_str()),
        });
        i = i + 1;
    }
    let mut i: usize = 0;
    while i < state.library.len()
        invariant
            goal == spec_search_index(*state),
            np == state.playlists@.len(),
            na == state.artists@.len(),
            nb == state.albums@.len(),
            i <= state.library@.len(),
            index@.len() == np + na + nb + i,
            forall|k: int| 0 <= k < np + na + nb + i ==> index_view(#[trigger] index@[k]) == goal[k],
        decreases state.library.len() - i,
    {
        let e = track_search_index_entry(&state.library[i]);
        index.push(e);
        i = i + 1;
    }
    assert(index@.map_values(|e: LocalSearchIndexEntry| index_view(e)) =~= goal);
    state.search_index = index;
}

/// The results of the index entries whose text holds every term, in index order.
pub open spec fn search_hits(index: Seq<LocalSearchIndexEntry>, terms: Seq<Seq<char>>) -> Seq<LocalSearchResult>
    decreases index.len(),
{
    if index.len() == 0 {
        Seq::empty()
    } else {
        let prev = search_hits(index.drop_last(), terms);
        if contains_all(index.last().normalized_text@, terms) {
            prev.push(index.last().result)
        } else {
            prev
        }
    }
}

/// The search results for a query: none for a query without terms.
pub open spec fn spec_search_results(index: Seq<LocalSearchIndexEntry>, query: Seq<char>) -> Seq<LocalSearchResult> {
    if query_terms(query).len() == 0 {
        Seq::empty()
    } else {
        search_hits(index, query_terms(query))
    }
}

/// `new` is `old` with the search results recomputed: on the Search screen the selection
/// is kept within the results, elsewhere it is left alone.
pub open spec fn searched(old: AppState, new: AppState) -> bool {
    let results = new.search_results@;
    &&& results == spec_search_results(old.search_index@, old.search_query@)
    &&& new == (AppState { search_results: new.search_results, content_selection: new.content_selection, ..old })
    &&& old.navigation.active == Route::Section(Screen::Search) ==> new.content_selection == (
        if old.content_selection < results.len() {
            old.content_selection as int
        } else if results.len() > 0 {
            results.len() - 1
        } else {
            0
        })
    &&& old.navigation.active != Route::Section(Screen::Search) ==> new.content_selection == old.content_selection
}

/// Recomputes the search results for the current query; on the Search screen the
/// selection is kept within the results.
pub fn refresh_search(state: &mut AppState)
    ensures
        searched(*old(state), *final(state)),
{
    let terms = query_term_chars(state.search_query.as_str());
    let ghost gterms = query_terms(state.search_query@);
    let mut results: Vec<LocalSearchResult> = Vec::new();
    if terms.len() > 0 {
        let mut i: usize = 0;
        while i < state.search_index.len()
            invariant
                terms@.map_values(|t: Vec<char>| t@) == gterms,
                i <= state.search_index@.len(),
                results@ == search_hits(state.search_index@.take(i as int), gterms),
            decreases state.search_index.len() - i,
        {
            let entry = &state.search_index[i];
            let hay = chars_of(entry.normalized_text.as_str());
            assert(state.search_index@.take(i + 1).drop_last() =~= state.search_index@.take(i as int));
            if contains_all_terms(&hay, &terms) {
                results.push(entry.result.duplicate());
            }
            i = i + 1;
        }
        assert(state.search_index@.take(state.search_index@.len() as int) =~= state.search_index@);
    }
    state.search_results = results;
    let on_search = match &state.navigation.active {
        Route::Section(Screen::Search) => true,
        _ => false,
    };
    if on_search {
        let len = state.search_results.len();
        if state.content_selection >= len {
            state.content_selection = if len > 0 {
                len - 1
            } else {
                0
            };
        }
    }
}

/// The position of the last track of `library` whose identity is `id`, or -1.
pub open spec fn last_track_with_id(library: Seq<Track>, id: Seq<char>) -> int
    decreases library.len(),
{
    if library.len() == 0 {
        -1
    } else if library.last().id@ == id {
        library.len() - 1
    } else {
        last_track_with_id(library.drop_last(), id)
    }
}

/// The library after merging the first `n` batch tracks: a track whose identity the
/// library held before the merge replaces the last row with that identity; any other
/// track is appended.
pub open spec fn merged_library(before: Seq<Track>, batch: Seq<Track>, n: nat) -> Seq<Track>
    decreases n,
{
    if n == 0 {
        before
    } else {
        let prev = merged_library(before, batch, (n - 1) as nat);
        let t = batch[n - 1];
        let at = last_track_with_id(before, t.id@);
        if at >= 0 {
            prev.update(at, t)
        } else {
            prev.push(t)
        }
    }
}

proof fn lemma_last_track_with_id(library: Seq<Track>, id: Seq<char>)
    ensures
        -1 <= last_track_with_id(library, id) < library.len(),
        last_track_with_id(library, id) >= 0 ==> library[last_track_with_id(library, id)].id@ == id,
        last_track_with_id(library, id) >= 0 ==> forall|k: int|
            last_track_with_id(library, id) < k < library.len() ==> library[k].id@ != id,
        last_track_with_id(library, id) < 0 ==> forall|k: int| 0 <= k < library.len() ==> library[k].id@ != id,
    decreases library.len(),
{
    if library.len() > 0 {
        let init = library.drop_last();
        lemma_last_track_with_id(init, id);
        assert forall|k: int| 0 <= k < init.len() implies init[k] == library[k] by {}
    }
}

/// The last position in `library` (before `limit`) whose identity is that of `track`.
fn last_position(library: &Vec<Track>, limit: usize, id: &crate::domain::TrackId) -> (r: Option<usize>)
    requires
        limit <= library@.len(),
    ensures
        r is None ==> last_track_with_id(library@.take(limit as int), id@) == -1,
        r matches Some(k) ==> k as int == last_track_with_id(library@.take(limit as int), id@),
{
    let mut i = limit;
    while i > 0
        invariant
            i <= limit <= library@.len(),
            last_track_with_id(library@.take(limit as int), id@) == last_track_with_id(library@.take(i as int), id@),
        decreases i,
    {
        assert(library@.take(i as int).drop_last() =~= library@.take(i - 1));
        if library[i - 1].id.same(id) {
            return Some(i - 1);
        }
        i = i - 1;
    }
    None
}

/// Merges an authoritative batch of tracks into the library without duplicating
/// identities already present: a known track replaces its row, a new one is appended.
pub fn merge_library_tracks(state: &mut AppState, tracks: &[Track])
    ensures
        final(state).library@ == merged_library(old(state).library@, tracks@, tracks@.len()),
        *final(state) == (AppState { library: final(state).library, ..*old(state) }),
{
    let ghost before = state.library@;
    let known = state.library.len();
    let mut i: usize = 0;
    while i < tracks.len()
        invariant
            known == before.len(),
            i <= tracks@.len(),
            state.library@ == merged_library(before, tracks@, i as nat),
            state.library@.len() >= known,
            forall|k: int| 0 <= k < known ==> #[trigger] state.library@[k].id@ == before[k].id@,
            *state == (AppState { library: state.library, ..*old(state) }),
        decreases tracks.len() - i,
    {
        let t = &tracks[i];
        proof {
            lemma_last_track_with_id(before, t.id@);
            assert(state.library@.take(known as int).map_values(|x: Track| x.id@) =~= before.map_values(|x: Track| x.id@));
        }
        let found = last_position(&state.library, known, &t.id);
        proof {
            assert(state.library@.take(known as int).len() == before.len());
        }
        match found {
            Some(k) => {
                proof {
                    lemma_same_ids_same_last(state.library@.take(known as int), before, t.id@);
                }
                state.library.set(k, t.duplicate());
            },
            None => {
                proof {
                    lemma_same_ids_same_last(state.library@.take(known as int), before, t.id@);
                }
                state.library.push(t.duplicate());
            },
        }
        i = i + 1;
    }
}

proof fn lemma_same_ids_same_last(a: Seq<Track>, b: Seq<Track>, id: Seq<char>)
    requires
        a.len() == b.len(),
        forall|k: int| 0 <= k < a.len() ==> #[trigger] a[k].id@ == b[k].id@,
    ensures
        last_track_with_id(a, id) == last_track_with_id(b, id),
    decreases a.len(),
{
    if a.len() > 0 {
        lemma_same_ids_same_last(a.drop_last(), b.drop_last(), id);
    }
}

/// Whether `id` is the identity of one of `tracks`.
pub open spec fn batch_holds(tracks: Seq<Track>, id: Seq<char>) -> bool {
    exists|k: int| 0 <= k < tracks.len() && tracks[k].id@ == id
}

/// Whether an index entry is replaced when a batch of tracks arrives.
pub open spec fn replaced_by(e: LocalSearchIndexEntry, tracks: Seq<Track>) -> bool {
    match e.result {
        LocalSearchResult::Track(id) => batch_holds(tracks, id@),
        _ => false,
    }
}

/// The index entries kept when a batch of tracks arrives, in order.
pub open spec fn kept_entries(index: Seq<LocalSearchIndexEntry>, tracks: Seq<Track>) -> Seq<LocalSearchIndexEntry>
    decreases index.len(),
{
    if index.len() == 0 {
        Seq::empty()
    } else {
        let prev = kept_entries(index.drop_last(), tracks);
        if replaced_by(index.last(), tracks) {
            prev
        } else {
            prev.push(index.last())
        }
    }
}

fn batch_contains(tracks: &[Track], id: &crate::domain::TrackId) -> (r: bool)
    ensures
        r == batch_holds(tracks@, id@),
{
    let mut i: usize = 0;
    while i < tracks.len()
        invariant
            i <= tracks@.len(),
            forall|k: int| 0 <= k < i ==> tracks@[k].id@ != id@,
        decreases tracks.len() - i,
    {
        if tracks[i].id.same(id) {
            return true;
        }
        i = i + 1;
    }
    false
}

/// Replaces the search entries of the tracks in a batch: entries of those tracks are
/// dropped and one fresh entry per batch track is appended.
pub fn refresh_track_search_entries(state: &mut AppState, tracks: &[Track])
    ensures
        final(state).search_index@.map_values(|e: LocalSearchIndexEntry| index_view(e)) == kept_entries(
            old(state).search_index@,
            tracks@,
        ).map_values(|e: LocalSearchIndexEntry| index_view(e)) + tracks@.map_values(|t: Track| track_index_view(t)),
        *final(state) == (AppState { search_index: final(state).search_index, ..*old(state) }),
{
    let mut kept: Vec<LocalSearchIndexEntry> = Vec::new();
    let mut i: usize = 0;
    while i < state.search_index.len()
        invariant
            i <= state.search_index@.len(),
            kept@.map_values(|e: LocalSearchIndexEntry| index_view(e)) == kept_entries(state.search_index@.take(i as int), tracks@).map_values(|e: LocalSearchIndexEntry| index_view(e)),
        decreases state.search_index.len() - i,
    {
        let entry = &state.search_index[i];
        assert(state.search_index@.take(i + 1).drop_last() =~= state.search_index@.take(i as int));
        let replaced = match &entry.result {
            LocalSearchResult::Track(id) => batch_contains(tracks, id),
            _ => false,
        };
        if !replaced {
            let ghost prev = kept@;
            kept.push(LocalSearchIndexEntry {
                result: entry.result.duplicate(),
                normalized_text: entry.normalized_text.clone(),
            });
            assert(kept@.map_values(|e: LocalSearchIndexEntry| index_view(e)) =~= prev.map_values(|e: LocalSearchIndexEntry| index_view(e)).push(index_view(*entry)));
        }
        i = i + 1;
    }
    assert(state.search_index@.take(state.search_index@.len() as int) =~= state.search_index@);
    let ghost base = kept@.map_values(|e: LocalSearchIndexEntry| index_view(e));
    let mut j: usize = 0;
    while j < tracks.len()
        invariant
            j <= tracks@.len(),
            kept@.map_values(|e: LocalSearchIndexEntry| index_view(e)) == base + tracks@.take(j as int).map_values(|t: Track| track_index_view(t)),
        decreases tracks.len() - j,
    {
        let ghost prev = kept@;
        let e = track_search_index_entry(&tracks[j]);
        kept.push(e);
        assert(tracks@.take(j + 1) =~= tracks@.take(j as int).push(tracks@[j as int]));
        assert(tracks@.take(j + 1).map_values(|t: Track| track_index_view(t)) =~= tracks@.take(j as int).map_values(|t: Track| track_index_view(t)).push(track_index_view(tracks@[j as int])));
        assert(kept@.map_values(|e: LocalSearchIndexEntry| index_view(e)) =~= prev.map_values(|e: LocalSearchIndexEntry| index_view(e)).push(index_view(e)));
        assert(kept@.map_values(|e: LocalSearchIndexEntry| index_view(e)) =~= base + tracks@.take(j + 1).map_values(|t: Track| track_index_view(t)));
        j = j + 1;
    }
    assert(tracks@.take(tracks@.len() as int) =~= tracks@);
    state.search_index = kept;
}

} // verus!
