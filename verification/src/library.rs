//! Installing what the backend reports: playlists, library batches, snapshots and the
//! other updates, and what each does to the application state.
use vstd::prelude::*;

use crate::domain::{Playlist, PlaylistId, PlaylistKind, Track};
use crate::navigation::{selected_playlist_id, spec_selected_playlist_id, spec_visible_entries};
use crate::playlists::{first_with_id, hierarchy_nodes, hierarchy_roots, holds_id, nodes_view, PlaylistHierarchy, VisiblePlaylistEntry};
use crate::state::{AppState, Route, Screen};

verus! {

/// What a freshly listed playlist becomes: it keeps the contents of the first previously
/// listed playlist with its identity when those were completely loaded.
pub open spec fn carried_over(fresh: Playlist, previous: Seq<Playlist>, result: Playlist) -> bool {
    let i = first_with_id(previous, fresh.id@);
    if i >= 0 && previous[i].contents_state.spec_is_complete() {
        &&& result == (Playlist { tracks: result.tracks, contents_state: previous[i].contents_state, ..fresh })
        &&& result.tracks@ == previous[i].tracks@
    } else {
        result == fresh
    }
}

proof fn lemma_lists_folder_step(ps: Seq<Playlist>, i: int, s: Seq<char>)
    requires
        0 <= i < ps.len(),
    ensures
        lists_folder(ps.take(i + 1), s) == (lists_folder(ps.take(i), s) || (ps[i].kind == PlaylistKind::Folder && ps[i].id@ == s)),
{
    if lists_folder(ps.take(i + 1), s) {
        let k = choose|k: int| 0 <= k < i + 1 && ps.take(i + 1)[k].kind == PlaylistKind::Folder && #[trigger] ps.take(i + 1)[k].id@ == s;
        if k < i {
            assert(ps.take(i)[k] == ps[k]);
        }
    }
    if lists_folder(ps.take(i), s) {
        let k = choose|k: int| 0 <= k < i && ps.take(i)[k].kind == PlaylistKind::Folder && #[trigger] ps.take(i)[k].id@ == s;
        assert(ps.take(i + 1)[k] == ps[k]);
    }
    if ps[i].kind == PlaylistKind::Folder && ps[i].id@ == s {
        assert(ps.take(i + 1)[i] == ps[i]);
    }
}

proof fn lemma_holds_id_push(ids: Seq<PlaylistId>, x: PlaylistId, s: Seq<char>)
    ensures
        holds_id(ids.push(x), ids.len() as int + 1, s) == (holds_id(ids, ids.len() as int, s) || x@ == s),
{
    if holds_id(ids.push(x), ids.len() as int + 1, s) {
        let k = choose|k: int| 0 <= k < ids.len() + 1 && #[trigger] ids.push(x)[k]@ == s;
        if k < ids.len() {
            assert(ids[k]@ == s);
        }
    }
    if holds_id(ids, ids.len() as int, s) {
        let k = choose|k: int| 0 <= k < ids.len() && #[trigger] ids[k]@ == s;
        assert(ids.push(x)[k]@ == s);
    }
    if x@ == s {
        assert(ids.push(x)[ids.len() as int]@ == s);
    }
}

/// A copy of a list of tracks.
pub fn copy_tracks(tracks: &Vec<Track>) -> (r: Vec<Track>)
    ensures
        r@ == tracks@,
{
    let mut out: Vec<Track> = Vec::new();
    let mut i: usize = 0;
    while i < tracks.len()
        invariant
            i <= tracks@.len(),
            out@ == tracks@.take(i as int),
        decreases tracks.len() - i,
    {
        out.push(tracks[i].duplicate());
        assert(out@ =~= tracks@.take(i + 1));
        i = i + 1;
    }
    assert(tracks@.take(tracks@.len() as int) =~= tracks@);
    out
}

/// The identity of the first listed folder whose identity is `s`, if any.
pub open spec fn lists_folder(playlists: Seq<Playlist>, s: Seq<char>) -> bool {
    exists|k: int| 0 <= k < playlists.len() && playlists[k].kind == PlaylistKind::Folder && #[trigger] playlists[k].id@ == s
}

/// The position of the first visible row whose identity is `id`, or -1.
pub open spec fn row_position(rows: Seq<VisiblePlaylistEntry>, id: Seq<char>) -> int
    decreases rows.len(),
{
    if rows.len() == 0 {
        -1
    } else if row_position(rows.drop_last(), id) >= 0 {
        row_position(rows.drop_last(), id)
    } else if rows.last().playlist_id@ == id {
        rows.len() - 1
    } else {
        -1
    }
}

proof fn lemma_row_position_prefix(rows: Seq<VisiblePlaylistEntry>, id: Seq<char>, n: int)
    requires
        0 <= n <= rows.len(),
        row_position(rows.take(n), id) >= 0,
    ensures
        row_position(rows, id) == row_position(rows.take(n), id),
    decreases rows.len() - n,
{
    if n < rows.len() {
        assert(rows.take(n + 1).drop_last() =~= rows.take(n));
        lemma_row_position_prefix(rows, id, n + 1);
    } else {
        assert(rows.take(n) =~= rows);
    }
}

fn find_row(rows: &Vec<VisiblePlaylistEntry>, id: &PlaylistId) -> (r: Option<usize>)
    ensures
        row_position(rows@, id@) == match r {
            Some(i) => i as int,
            None => -1,
        },
{
    let mut i: usize = 0;
    while i < rows.len()
        invariant
            i <= rows@.len(),
            row_position(rows@.take(i as int), id@) == -1,
        decreases rows.len() - i,
    {
        assert(rows@.take(i + 1).drop_last() =~= rows@.take(i as int));
        if rows[i].playlist_id.same(id) {
            proof {
                lemma_row_position_prefix(rows@, id@, i + 1);
            }
            return Some(i);
        }
        i = i + 1;
    }
    assert(rows@.take(rows@.len() as int) =~= rows@);
    None
}

/// `new` is `old` with the playlist list replaced by `fresh`: loaded contents carry over,
/// the hierarchy is rebuilt, expanded folders that are no longer listed folders are
/// forgotten, and on the Playlists screen the selection follows the previously selected
/// playlist when it is still shown.
pub open spec fn playlists_replaced(old: AppState, new: AppState, fresh: Seq<Playlist>) -> bool {
    let before = if old.navigation.active == Route::Section(Screen::Playlists) {
        spec_selected_playlist_id(old)
    } else {
        None
    };
    &&& new.playlists@.len() == fresh.len()
    &&& forall|k: int| 0 <= k < fresh.len() ==> carried_over(fresh[k], old.playlists@, #[trigger] new.playlists@[k])
    &&& nodes_view(new.playlist_hierarchy) == hierarchy_nodes(new.playlists@)
    &&& new.playlist_hierarchy.roots@ == hierarchy_roots(new.playlists@)
    &&& forall|s: Seq<char>| #[trigger] new.expanded_playlist_folders@.contains(s) <==> (
        old.expanded_playlist_folders@.contains(s) && lists_folder(new.playlists@, s))
    &&& new.content_selection == match before {
        Some(id) => {
            let at = row_position(spec_visible_entries(new), id@);
            if at >= 0 {
                at as usize
            } else {
                old.content_selection
            }
        },
        None => old.content_selection,
    }
    &&& new == (AppState {
        playlists: new.playlists,
        playlist_hierarchy: new.playlist_hierarchy,
        expanded_playlist_folders: new.expanded_playlist_folders,
        content_selection: new.content_selection,
        ..old
    })
}

/// Replaces the playlist list (see `playlists_replaced`).
pub fn replace_playlists(state: &mut AppState, fresh: Vec<Playlist>)
    ensures
        playlists_replaced(*old(state), *final(state), fresh@),
{
    let ghost s0 = *state;
    let on_playlists = match &state.navigation.active {
        Route::Section(Screen::Playlists) => true,
        _ => false,
    };
    let selected = if on_playlists {
        selected_playlist_id(state)
    } else {
        None
    };
    let ghost gfresh = fresh@;
    let mut previous: Vec<Playlist> = Vec::new();
    std::mem::swap(&mut previous, &mut state.playlists);
    let mut fresh = fresh;
    let n = fresh.len();
    let mut reversed: Vec<Playlist> = Vec::new();
    while fresh.len() > 0
        invariant
            previous@ == s0.playlists@,
            n == gfresh.len(),
            fresh@ == gfresh.take(n - reversed@.len()),
            reversed@.len() <= n,
            forall|j: int| 0 <= j < reversed@.len() ==> carried_over(gfresh[n - 1 - j], previous@, #[trigger] reversed@[j]),
        decreases fresh@.len(),
    {
        let mut p = fresh.pop().unwrap();
        let ghost g = p;
        match crate::playlists::first_position(previous.as_slice(), &p.id) {
            Some(i) => {
                if previous[i].contents_state.is_complete() {
                    p.tracks = copy_tracks(&previous[i].tracks);
                    p.contents_state = previous[i].contents_state.duplicate();
                }
            },
            None => {},
        }
        assert(carried_over(g, previous@, p));
        reversed.push(p);
        assert(fresh@ =~= gfresh.take(n - reversed@.len()));
    }
    let mut merged: Vec<Playlist> = Vec::new();
    let ghost full = reversed@;
    while reversed.len() > 0
        invariant
            n == gfresh.len(),
            full.len() == n,
            reversed@ == full.take(n - merged@.len()),
            merged@.len() <= n,
            forall|j: int| 0 <= j < n ==> carried_over(gfresh[n - 1 - j], previous@, #[trigger] full[j]),
            forall|j: int| 0 <= j < merged@.len() ==> #[trigger] merged@[j] == full[n - 1 - j],
        decreases reversed@.len(),
    {
        let p = reversed.pop().unwrap();
        merged.push(p);
        assert(reversed@ =~= full.take(n - merged@.len()));
    }
    assert forall|k: int| 0 <= k < n implies carried_over(gfresh[k], previous@, #[trigger] merged@[k]) by {
        assert(merged@[k] == full[n - 1 - k]);
        assert(carried_over(gfresh[n - 1 - (n - 1 - k)], previous@, full[n - 1 - k]));
    }
    state.playlists = merged;
    state.playlist_hierarchy = PlaylistHierarchy::from_playlists(state.playlists.as_slice());
    let mut folders: Vec<PlaylistId> = Vec::new();
    let mut i: usize = 0;
    while i < state.playlists.len()
        invariant
            i <= state.playlists@.len(),
            forall|s: Seq<char>| #[trigger] holds_id(folders@, folders@.len() as int, s) == lists_folder(state.playlists@.take(i as int), s),
        decreases state.playlists.len() - i,
    {
        let ghost before = folders@;
        let folder = state.playlists[i].kind == PlaylistKind::Folder;
        if folder {
            folders.push(state.playlists[i].id.duplicate());
        }
        proof {
            assert forall|s: Seq<char>| #[trigger] holds_id(folders@, folders@.len() as int, s) == lists_folder(state.playlists@.take(i + 1), s) by {
                lemma_lists_folder_step(state.playlists@, i as int, s);
                if folder {
                    lemma_holds_id_push(before, state.playlists@[i as int].id, s);
                    assert(folders@ =~= before.push(state.playlists@[i as int].id));
                } else {
                    assert(folders@ == before);
                }
            }
        }
        i = i + 1;
    }
    proof {
        assert(state.playlists@.take(state.playlists@.len() as int) =~= state.playlists@);
    }
    state.expanded_playlist_folders.retain_present(&folders);
    match selected {
        Some(id) => {
            let rows = state.visible_playlist_entries();
            match find_row(&rows, &id) {
                Some(at) => {
                    state.content_selection = at;
                },
                None => {},
            }
        },
        None => {},
    }
}

} // verus!
