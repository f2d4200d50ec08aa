//! The presented Songs, Albums and Artists views held in the application state: which
//! collection is on screen, how each is filtered and sorted, and which row is selected.
use vstd::prelude::*;

use crate::collections::{
    album_entry, album_filter_text, album_sort_entry, artist_entry, artist_filter_text,
    artist_sort_entry, entry_view, row_order, song_entry, song_filter_text, song_sort_entry,
    sort_indices, within, SortEntry,
};
use crate::domain::{join_strs, query_term_chars, query_terms};
use crate::state::{
    AppState, CollectionKind, CollectionSort, CollectionViewState, FilterEditorState, Focus,
    LibraryViews, Route, Screen,
};
use crate::text::{chars_of, contains_all, contains_all_terms, join_space, lex_order, normalize_search_text, opt_str, opt_text, spec_normalize};

verus! {

/// The library collection a route shows, if any.
pub open spec fn spec_active_collection(route: Route) -> Option<CollectionKind> {
    match route {
        Route::Section(Screen::Songs) => Some(CollectionKind::Songs),
        Route::Section(Screen::Albums) => Some(CollectionKind::Albums),
        Route::Section(Screen::Artists) => Some(CollectionKind::Artists),
        _ => None,
    }
}

pub fn active_collection(state: &AppState) -> (r: Option<CollectionKind>)
    ensures
        r == spec_active_collection(state.navigation.active),
{
    match state.navigation.active {
        Route::Section(Screen::Songs) => Some(CollectionKind::Songs),
        Route::Section(Screen::Albums) => Some(CollectionKind::Albums),
        Route::Section(Screen::Artists) => Some(CollectionKind::Artists),
        _ => None,
    }
}

/// The view state of a collection.
pub open spec fn view_of(views: LibraryViews, collection: CollectionKind) -> CollectionViewState {
    match collection {
        CollectionKind::Songs => views.songs,
        CollectionKind::Albums => views.albums,
        CollectionKind::Artists => views.artists,
    }
}

/// `views` with the view of `collection` replaced.
pub open spec fn with_view(views: LibraryViews, collection: CollectionKind, v: CollectionViewState) -> LibraryViews {
    match collection {
        CollectionKind::Songs => LibraryViews { songs: v, ..views },
        CollectionKind::Albums => LibraryViews { albums: v, ..views },
        CollectionKind::Artists => LibraryViews { artists: v, ..views },
    }
}

pub fn collection_view(state: &AppState, collection: CollectionKind) -> (r: &CollectionViewState)
    ensures
        *r == view_of(state.library_views, collection),
{
    match collection {
        CollectionKind::Songs => &state.library_views.songs,
        CollectionKind::Albums => &state.library_views.albums,
        CollectionKind::Artists => &state.library_views.artists,
    }
}

/// `state` with the sort field and direction of `collection` replaced.
pub open spec fn with_order(state: AppState, collection: CollectionKind, sort: CollectionSort, descending: bool) -> AppState {
    let v = view_of(state.library_views, collection);
    AppState {
        library_views: with_view(state.library_views, collection, CollectionViewState { sort, descending, ..v }),
        ..state
    }
}

/// `state` with the committed filter of `collection` replaced.
pub open spec fn with_filter(state: AppState, collection: CollectionKind, filter: String) -> AppState {
    let v = view_of(state.library_views, collection);
    AppState {
        library_views: with_view(state.library_views, collection, CollectionViewState { filter, ..v }),
        ..state
    }
}

pub fn set_order(state: &mut AppState, collection: CollectionKind, sort: CollectionSort, descending: bool)
    ensures
        *final(state) == with_order(*old(state), collection, sort, descending),
{
    match collection {
        CollectionKind::Songs => {
            state.library_views.songs.sort = sort;
            state.library_views.songs.descending = descending;
        },
        CollectionKind::Albums => {
            state.library_views.albums.sort = sort;
            state.library_views.albums.descending = descending;
        },
        CollectionKind::Artists => {
            state.library_views.artists.sort = sort;
            state.library_views.artists.descending = descending;
        },
    }
}

pub fn set_filter(state: &mut AppState, collection: CollectionKind, filter: String)
    ensures
        *final(state) == with_filter(*old(state), collection, filter),
{
    match collection {
        CollectionKind::Songs => state.library_views.songs.filter = filter,
        CollectionKind::Albums => state.library_views.albums.filter = filter,
        CollectionKind::Artists => state.library_views.artists.filter = filter,
    }
}

/// The number of rows in a collection's source list.
pub open spec fn source_count(state: AppState, collection: CollectionKind) -> nat {
    match collection {
        CollectionKind::Songs => state.library@.len(),
        CollectionKind::Albums => state.albums@.len(),
        CollectionKind::Artists => state.artists@.len(),
    }
}

pub fn source_len(state: &AppState, collection: CollectionKind) -> (r: usize)
    ensures
        r == source_count(*state, collection),
{
    match collection {
        CollectionKind::Songs => state.library.len(),
        CollectionKind::Albums => state.albums.len(),
        CollectionKind::Artists => state.artists.len(),
    }
}

/// The identity of a source row.
pub open spec fn identity_of(state: AppState, collection: CollectionKind, index: int) -> Seq<char> {
    match collection {
        CollectionKind::Songs => state.library@[index].id@,
        CollectionKind::Albums => state.albums@[index].id@,
        CollectionKind::Artists => state.artists@[index].id@,
    }
}

pub fn collection_identity_at(state: &AppState, collection: CollectionKind, index: usize) -> (r: &str)
    requires
        index < source_count(*state, collection),
    ensures
        r@ == identity_of(*state, collection, index as int),
{
    match collection {
        CollectionKind::Songs => state.library[index].id.as_str(),
        CollectionKind::Albums => state.albums[index].id.as_str(),
        CollectionKind::Artists => state.artists[index].id.as_str(),
    }
}

/// The source row the selection designates in a collection: through the presented order
/// once the view is built, directly before that.
pub open spec fn spec_selected_source_index(state: AppState, collection: CollectionKind) -> Option<usize> {
    let v = view_of(state.library_views, collection);
    if v.source_len is Some {
        if state.content_selection < v.indices@.len() {
            Some(v.indices@[state.content_selection as int])
        } else {
            None
        }
    } else {
        Some(state.content_selection)
    }
}

pub fn selected_collection_source_index(state: &AppState, collection: CollectionKind) -> (r: Option<usize>)
    ensures
        r == spec_selected_source_index(*state, collection),
{
    let view = collection_view(state, collection);
    if view.source_len.is_some() {
        if state.content_selection < view.indices.len() {
            Some(view.indices[state.content_selection])
        } else {
            None
        }
    } else {
        Some(state.content_selection)
    }
}

/// The identity of the selected row when `collection` is on screen.
pub open spec fn spec_selected_identity(state: AppState, collection: CollectionKind) -> Option<Seq<char>> {
    if spec_active_collection(state.navigation.active) != Some(collection) {
        None
    } else {
        match spec_selected_source_index(state, collection) {
            Some(i) => if i < source_count(state, collection) {
                Some(identity_of(state, collection, i as int))
            } else {
                None
            },
            None => None,
        }
    }
}

pub fn selected_collection_identity(state: &AppState, collection: CollectionKind) -> (r: Option<String>)
    ensures
        r is Some <==> spec_selected_identity(*state, collection) is Some,
        r matches Some(s) ==> s@ == spec_selected_identity(*state, collection).unwrap(),
{
    if active_collection(state) != Some(collection) {
        return None;
    }
    match selected_collection_source_index(state, collection) {
        Some(index) => {
            if index < source_len(state, collection) {
                Some(collection_identity_at(state, collection, index).to_owned())
            } else {
                None
            }
        },
        None => None,
    }
}

/// The filter text a collection is presented with: the draft while its filter is being
/// edited, otherwise its committed filter.
pub open spec fn filter_text_of(state: AppState, collection: CollectionKind) -> Seq<char> {
    match state.filter_editor {
        Some(editor) => if editor.collection == collection {
            editor.draft@
        } else {
            view_of(state.library_views, collection).filter@
        },
        None => view_of(state.library_views, collection).filter@,
    }
}

pub fn collection_filter_text(state: &AppState, collection: CollectionKind) -> (r: &str)
    ensures
        r@ == filter_text_of(*state, collection),
{
    match &state.filter_editor {
        Some(editor) => {
            if editor.collection == collection {
                editor.draft.as_str()
            } else {
                collection_view(state, collection).filter.as_str()
            }
        },
        None => collection_view(state, collection).filter.as_str(),
    }
}

/// The normalized filter text of a source row.
pub open spec fn row_filter_text(state: AppState, collection: CollectionKind, index: int) -> Seq<char> {
    match collection {
        CollectionKind::Songs => song_filter_text(state.library@[index]),
        CollectionKind::Albums => album_filter_text(state.albums@[index]),
        CollectionKind::Artists => artist_filter_text(state.artists@[index]),
    }
}

/// The sort entry of a source row.
pub open spec fn row_entry(state: AppState, collection: CollectionKind, sort: CollectionSort, index: int) -> (bool, int, Seq<char>, Seq<char>) {
    match collection {
        CollectionKind::Songs => song_entry(state.library@[index], sort),
        CollectionKind::Albums => album_entry(state.albums@[index], sort),
        CollectionKind::Artists => artist_entry(state.artists@[index], sort),
    }
}

/// The source rows among the first `n` whose filter text holds every term, in order.
pub open spec fn matching_rows(state: AppState, collection: CollectionKind, terms: Seq<Seq<char>>, n: nat) -> Seq<usize>
    decreases n,
{
    if n == 0 {
        Seq::empty()
    } else {
        let prev = matching_rows(state, collection, terms, (n - 1) as nat);
        if contains_all(row_filter_text(state, collection, n - 1), terms) {
            prev.push((n - 1) as usize)
        } else {
            prev
        }
    }
}

/// Rows listed in presentation order under a sort field and direction.
pub open spec fn rows_sorted(state: AppState, collection: CollectionKind, rows: Seq<usize>, sort: CollectionSort, descending: bool) -> bool {
    forall|k: int|
        0 <= k < rows.len() - 1 ==> row_order(
            row_entry(state, collection, sort, #[trigger] rows[k] as int),
            row_entry(state, collection, sort, rows[k + 1] as int),
            descending,
        ) <= 0
}

/// Builds the normalized filter text of a source row.
fn row_filter_key(state: &AppState, collection: CollectionKind, index: usize) -> (r: Vec<char>)
    requires
        index < source_count(*state, collection),
    ensures
        r@ == row_filter_text(*state, collection, index as int),
{
    let source = match collection {
        CollectionKind::Songs => {
            let t = &state.library[index];
            let parts: [&str; 5] = [
                t.title.as_str(),
                t.artist.as_str(),
                t.album.as_str(),
                opt_str(&t.metadata.album_artist),
                opt_str(&t.metadata.genre),
            ];
            assert(parts@.map_values(|p: &str| p@) =~= seq![t.title@, t.artist@, t.album@, opt_text(t.metadata.album_artist), opt_text(t.metadata.genre)]);
            join_strs(&parts)
        },
        CollectionKind::Albums => {
            let a = &state.albums[index];
            let parts: [&str; 2] = [a.title.as_str(), a.artist.as_str()];
            assert(parts@.map_values(|p: &str| p@) =~= seq![a.title@, a.artist@]);
            join_strs(&parts)
        },
        CollectionKind::Artists => state.artists[index].name.as_str().to_owned(),
    };
    let normalized = normalize_search_text(source.as_str());
    chars_of(normalized.as_str())
}

/// Builds the sort entries of every source row.
fn row_entries(state: &AppState, collection: CollectionKind, sort: CollectionSort) -> (r: Vec<SortEntry>)
    ensures
        r@.len() == source_count(*state, collection),
        forall|i: int| 0 <= i < r@.len() ==> entry_view(#[trigger] r@[i]) == row_entry(*state, collection, sort, i),
{
    let n = source_len(state, collection);
    let mut entries: Vec<SortEntry> = Vec::new();
    let mut i: usize = 0;
    while i < n
        invariant
            n == source_count(*state, collection),
            i <= n,
            entries@.len() == i,
            forall|k: int| 0 <= k < i ==> entry_view(#[trigger] entries@[k]) == row_entry(*state, collection, sort, k),
        decreases n - i,
    {
        let e = match collection {
            CollectionKind::Songs => song_sort_entry(&state.library[i], sort),
            CollectionKind::Albums => album_sort_entry(&state.albums[i], sort),
            CollectionKind::Artists => artist_sort_entry(&state.artists[i], sort),
        };
        entries.push(e);
        i = i + 1;
    }
    entries
}

/// The rows shown after a rebuild, the state before the selection is restored.
pub open spec fn rebuilt_view(old: AppState, new_view: CollectionViewState, collection: CollectionKind) -> bool {
    let v = view_of(old.library_views, collection);
    let terms = query_terms(filter_text_of(old, collection));
    let rows = matching_rows(old, collection, terms, source_count(old, collection));
    &&& new_view.sort == v.sort
    &&& new_view.descending == v.descending
    &&& new_view.filter == v.filter
    &&& new_view.source_len == Some(source_count(old, collection) as usize)
    &&& new_view.rebuild_count == (if v.rebuild_count < u64::MAX {
        (v.rebuild_count + 1) as u64
    } else {
        v.rebuild_count
    })
    &&& new_view.indices@.to_multiset() == rows.to_multiset()
    &&& within(new_view.indices@, source_count(old, collection))
    &&& rows_sorted(old, collection, new_view.indices@, v.sort, v.descending)
    &&& new_view.normalized_filter_keys@.len() == rows.len()
}

/// The source rows that hold every filter term, in source order, with their normalized
/// filter keys.
fn filtered_rows(state: &AppState, collection: CollectionKind) -> (r: (Vec<usize>, Vec<String>))
    ensures
        r.0@ == matching_rows(*state, collection, query_terms(filter_text_of(*state, collection)), source_count(*state, collection)),
        r.1@.len() == r.0@.len(),
        within(r.0@, source_count(*state, collection)),
{
    let terms = query_term_chars(collection_filter_text(state, collection));
    let n = source_len(state, collection);
    let ghost gterms = query_terms(filter_text_of(*state, collection));
    let mut rows: Vec<usize> = Vec::new();
    let mut keys: Vec<String> = Vec::new();
    let mut i: usize = 0;
    while i < n
        invariant
            n == source_count(*state, collection),
            i <= n,
            terms@.map_values(|t: Vec<char>| t@) == gterms,
            gterms == query_terms(filter_text_of(*state, collection)),
            rows@ == matching_rows(*state, collection, gterms, i as nat),
            keys@.len() == rows@.len(),
            within(rows@, i as nat),
        decreases n - i,
    {
        let key = row_filter_key(state, collection, i);
        if contains_all_terms(&key, &terms) {
            rows.push(i);
            keys.push(crate::text::string_from_chars(&key));
        }
        i = i + 1;
    }
    (rows, keys)
}

/// The position among `rows` of the first row whose identity is `identity`.
fn position_of_identity(state: &AppState, collection: CollectionKind, rows: &Vec<usize>, identity: &str) -> (r: Option<usize>)
    requires
        within(rows@, source_count(*state, collection)),
    ensures
        r matches Some(k) ==> k < rows@.len() && identity_of(*state, collection, rows@[k as int] as int) == identity@,
        r is None ==> forall|j: int| 0 <= j < rows@.len() ==> identity_of(*state, collection, #[trigger] rows@[j] as int) != identity@,
{
    let mut k: usize = 0;
    while k < rows.len()
        invariant
            k <= rows@.len(),
            within(rows@, source_count(*state, collection)),
            forall|j: int| 0 <= j < k ==> identity_of(*state, collection, #[trigger] rows@[j] as int) != identity@,
        decreases rows.len() - k,
    {
        let index = rows[k];
        if crate::text::same_text(collection_identity_at(state, collection, index), identity) {
            return Some(k);
        }
        k = k + 1;
    }
    None
}

/// The selection after a rebuild: the position of the previously selected identity, or
/// the previous selection clamped to the row count.
pub open spec fn restored_selection(old: AppState, collection: CollectionKind, rows: Seq<usize>, selection: int) -> bool {
    let before = spec_selected_identity(old, collection);
    if before is Some && exists|k: int| 0 <= k < rows.len() && identity_of(old, collection, rows[k] as int) == before.unwrap() {
        0 <= selection < rows.len() && identity_of(old, collection, rows[selection] as int) == before.unwrap()
    } else {
        selection == (if old.content_selection < rows.len() {
            old.content_selection as int
        } else if rows.len() > 0 {
            rows.len() - 1
        } else {
            0
        })
    }
}

/// `new` is `old` with the view of `collection` rebuilt: only that view and possibly the
/// selection change; the selection follows the previously selected row when the collection
/// is on screen with the content focused.
pub open spec fn rebuilt(old: AppState, new: AppState, collection: CollectionKind) -> bool {
    let v = view_of(new.library_views, collection);
    let shown = spec_active_collection(old.navigation.active) == Some(collection) && old.focus == Focus::Content;
    &&& rebuilt_view(old, v, collection)
    &&& new.library_views == with_view(old.library_views, collection, v)
    &&& new == (AppState { library_views: new.library_views, content_selection: new.content_selection, ..old })
    &&& !shown ==> new.content_selection == old.content_selection
    &&& shown ==> restored_selection(old, collection, v.indices@, new.content_selection as int)
}

/// Recomputes a collection's presented rows: the source rows whose normalized filter text
/// holds every term of the collection's filter (or its draft while editing), ordered by
/// the collection's sort field and direction. When the collection is on screen with the
/// content focused, the selection follows the previously selected row by identity, or is
/// clamped to the new row count if that row is gone.
#[verifier::rlimit(60)]
#[verifier::spinoff_prover]
pub fn rebuild_collection_view(state: &mut AppState, collection: CollectionKind)
    ensures
        rebuilt(*old(state), *final(state), collection),
{
    let ghost s0 = *state;
    let selected_id = selected_collection_identity(state, collection);
    let old_selection = state.content_selection;
    let n = source_len(state, collection);
    let (rows, keys) = filtered_rows(state, collection);
    let view = collection_view(state, collection);
    let descending = view.descending;
    let sort = view.sort;
    let entries = row_entries(state, collection, sort);
    let sorted = sort_indices(&rows, &entries, descending);
    proof {
        assert forall|k: int|
            0 <= k < sorted@.len() - 1 implies row_order(
            row_entry(s0, collection, sort, #[trigger] sorted@[k] as int),
            row_entry(s0, collection, sort, sorted@[k + 1] as int),
            descending,
        ) <= 0 by {
            assert(sorted@[k] < entries@.len());
            assert(sorted@[k + 1] < entries@.len());
            assert(entry_view(entries@[sorted@[k] as int]) == row_entry(s0, collection, sort, sorted@[k] as int));
            assert(entry_view(entries@[sorted@[k + 1] as int]) == row_entry(s0, collection, sort, sorted@[k + 1] as int));
        }
    }
    let count = if view.rebuild_count < u64::MAX {
        view.rebuild_count + 1
    } else {
        view.rebuild_count
    };
    let chosen: Option<usize> = match &selected_id {
        Some(identity) => position_of_identity(state, collection, &sorted, identity.as_str()),
        None => None,
    };
    let len = sorted.len();
    let new_view = CollectionViewState {
        sort,
        descending,
        filter: view.filter.clone(),
        indices: sorted,
        normalized_filter_keys: keys,
        source_len: Some(n),
        rebuild_count: count,
    };
    match collection {
        CollectionKind::Songs => state.library_views.songs = new_view,
        CollectionKind::Albums => state.library_views.albums = new_view,
        CollectionKind::Artists => state.library_views.artists = new_view,
    }
    if active_collection(state) == Some(collection) && state.focus == Focus::Content {
        state.content_selection = match chosen {
            Some(k) => k,
            None => if old_selection < len {
                old_selection
            } else if len > 0 {
                len - 1
            } else {
                0
            },
        };
    }
}

/// Under the album sort, the rebuilt Songs view lists songs by their normalized album
/// titles: non-decreasing in code point order when ascending, non-increasing when
/// descending.
pub proof fn law_songs_sorted_by_album_follow_album_titles(old: AppState, new: AppState)
    requires
        rebuilt(old, new, CollectionKind::Songs),
        old.library_views.songs.sort == CollectionSort::SongAlbum,
    ensures
        forall|k: int| 0 <= k < new.library_views.songs.indices@.len() - 1 ==> {
            let a = spec_normalize(old.library@[#[trigger] new.library_views.songs.indices@[k] as int].album@);
            let b = spec_normalize(old.library@[new.library_views.songs.indices@[k + 1] as int].album@);
            if old.library_views.songs.descending {
                lex_order(a, b) >= 0
            } else {
                lex_order(a, b) <= 0
            }
        },
{
    let v = new.library_views.songs;
    assert(v == view_of(new.library_views, CollectionKind::Songs));
    assert(rebuilt_view(old, v, CollectionKind::Songs));
    assert forall|k: int| 0 <= k < v.indices@.len() - 1 implies {
        let a = spec_normalize(old.library@[#[trigger] v.indices@[k] as int].album@);
        let b = spec_normalize(old.library@[v.indices@[k + 1] as int].album@);
        if old.library_views.songs.descending {
            lex_order(a, b) >= 0
        } else {
            lex_order(a, b) <= 0
        }
    } by {
        let ea = row_entry(old, CollectionKind::Songs, CollectionSort::SongAlbum, v.indices@[k] as int);
        let eb = row_entry(old, CollectionKind::Songs, CollectionSort::SongAlbum, v.indices@[k + 1] as int);
        assert(row_order(ea, eb, old.library_views.songs.descending) <= 0);
        assert(ea.2 == spec_normalize(old.library@[v.indices@[k] as int].album@));
        assert(eb.2 == spec_normalize(old.library@[v.indices@[k + 1] as int].album@));
    }
}

} // verus!
