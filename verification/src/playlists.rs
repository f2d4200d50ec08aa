//! The playlist folder hierarchy and the rows it shows with some folders expanded.
use vstd::prelude::*;

use crate::domain::{Playlist, PlaylistId, PlaylistKind};

verus! {

/// Some identity among the first `n` of `ids` is `s`.
pub open spec fn holds_id(ids: Seq<PlaylistId>, n: int, s: Seq<char>) -> bool {
    exists|k: int| 0 <= k < n && #[trigger] ids[k]@ == s
}

/// A set of playlist identities.
#[derive(Clone, Debug, Default, PartialEq, Eq)]
pub struct PlaylistIdSet {
    ids: Vec<PlaylistId>,
}

impl View for PlaylistIdSet {
    type V = Set<Seq<char>>;

    closed spec fn view(&self) -> Set<Seq<char>> {
        Set::new(|s: Seq<char>| holds_id(self.ids@, self.ids@.len() as int, s))
    }
}

impl PlaylistIdSet {
    pub fn new() -> (r: Self)
        ensures
            r@ == Set::<Seq<char>>::empty(),
    {
        let r = PlaylistIdSet { ids: Vec::new() };
        assert(r@ =~= Set::<Seq<char>>::empty());
        r
    }

    /// Whether `id` is in the set.
    pub fn contains(&self, id: &PlaylistId) -> (r: bool)
        ensures
            r == self@.contains(id@),
    {
        let mut i: usize = 0;
        while i < self.ids.len()
            invariant
                i <= self.ids@.len(),
                forall|k: int| 0 <= k < i ==> self.ids@[k]@ != id@,
            decreases self.ids.len() - i,
        {
            if self.ids[i].same(id) {
                assert(holds_id(self.ids@, self.ids@.len() as int, id@));
                return true;
            }
            i = i + 1;
        }
        false
    }

    /// Adds `id`; answers whether it was absent.
    pub fn insert(&mut self, id: PlaylistId) -> (r: bool)
        ensures
            final(self)@ == old(self)@.insert(id@),
            r == !old(self)@.contains(id@),
    {
        if self.contains(&id) {
            assert(self@.insert(id@) =~= self@);
            return false;
        }
        let ghost before = self.ids@;
        let ghost iv = id@;
        self.ids.push(id);
        proof {
            let n = before.len() as int;
            assert forall|s: Seq<char>| holds_id(self.ids@, n + 1, s) <==> (holds_id(before, n, s) || s == iv) by {
                if holds_id(self.ids@, n + 1, s) {
                    let k = choose|k: int| 0 <= k < n + 1 && #[trigger] self.ids@[k]@ == s;
                    if k < n {
                        assert(before[k]@ == s);
                    }
                }
                if holds_id(before, n, s) {
                    let k = choose|k: int| 0 <= k < n && #[trigger] before[k]@ == s;
                    assert(self.ids@[k]@ == s);
                }
                if s == iv {
                    assert(self.ids@[n]@ == s);
                }
            }
            assert(self@ =~= old(self)@.insert(iv));
        }
        true
    }

    /// Removes `id`; answers whether it was present.
    pub fn remove(&mut self, id: &PlaylistId) -> (r: bool)
        ensures
            final(self)@ == old(self)@.remove(id@),
            r == old(self)@.contains(id@),
    {
        let mut kept: Vec<PlaylistId> = Vec::new();
        let mut found = false;
        let mut i: usize = 0;
        while i < self.ids.len()
            invariant
                i <= self.ids@.len(),
                found == holds_id(self.ids@, i as int, id@),
                forall|s: Seq<char>|
                    #[trigger] holds_id(kept@, kept@.len() as int, s) <==> (s != id@ && holds_id(self.ids@, i as int, s)),
            decreases self.ids.len() - i,
        {
            let ghost before = kept@;
            if self.ids[i].same(id) {
                found = true;
            } else {
                kept.push(self.ids[i].duplicate());
            }
            proof {
                assert(found == holds_id(self.ids@, i + 1, id@)) by {
                    if holds_id(self.ids@, i + 1, id@) {
                        let k = choose|k: int| 0 <= k < i + 1 && #[trigger] self.ids@[k]@ == id@;
                        if k < i {
                            assert(holds_id(self.ids@, i as int, id@));
                        }
                    }
                    if holds_id(self.ids@, i as int, id@) {
                        let k = choose|k: int| 0 <= k < i && #[trigger] self.ids@[k]@ == id@;
                        assert(self.ids@[k]@ == id@);
                    }
                }
                assert forall|s: Seq<char>|
                    #[trigger] holds_id(kept@, kept@.len() as int, s) <==> (s != id@ && holds_id(self.ids@, i + 1, s)) by {
                    if holds_id(kept@, kept@.len() as int, s) {
                        let k = choose|k: int| 0 <= k < kept@.len() && #[trigger] kept@[k]@ == s;
                        if k < before.len() {
                            assert(before[k]@ == s);
                            assert(holds_id(before, before.len() as int, s));
                            let j = choose|j: int| 0 <= j < i && #[trigger] self.ids@[j]@ == s;
                            assert(self.ids@[j]@ == s);
                        } else {
                            assert(self.ids@[i as int]@ == s);
                        }
                    }
                    if s != id@ && holds_id(self.ids@, i + 1, s) {
                        let k = choose|k: int| 0 <= k < i + 1 && #[trigger] self.ids@[k]@ == s;
                        if k < i {
                            assert(holds_id(self.ids@, i as int, s));
                            assert(holds_id(before, before.len() as int, s));
                            let j = choose|j: int| 0 <= j < before.len() && #[trigger] before[j]@ == s;
                            assert(kept@[j]@ == s);
                        } else {
                            assert(kept@[kept@.len() - 1]@ == s);
                        }
                    }
                }
            }
            i = i + 1;
        }
        let ghost old_view = self@;
        self.ids = kept;
        assert(self@ =~= old_view.remove(id@));
        found
    }

    /// Keeps only the identities that also occur in `allowed`.
    pub fn retain_present(&mut self, allowed: &Vec<PlaylistId>)
        ensures
            forall|s: Seq<char>| #[trigger] final(self)@.contains(s) <==> (old(self)@.contains(s) && holds_id(
                allowed@,
                allowed@.len() as int,
                s,
            )),
    {
        let mut kept: Vec<PlaylistId> = Vec::new();
        let mut i: usize = 0;
        while i < self.ids.len()
            invariant
                i <= self.ids@.len(),
                forall|s: Seq<char>|
                    #[trigger] holds_id(kept@, kept@.len() as int, s) <==> (holds_id(self.ids@, i as int, s) && holds_id(
                        allowed@,
                        allowed@.len() as int,
                        s,
                    )),
            decreases self.ids.len() - i,
        {
            let mut present = false;
            let mut j: usize = 0;
            while j < allowed.len()
                invariant
                    j <= allowed@.len(),
                    i < self.ids@.len(),
                    present == holds_id(allowed@, j as int, self.ids@[i as int]@),
                decreases allowed.len() - j,
            {
                let ghost was = present;
                if allowed[j].same(&self.ids[i]) {
                    present = true;
                }
                proof {
                    let t = self.ids@[i as int]@;
                    if holds_id(allowed@, j + 1, t) {
                        let k = choose|k: int| 0 <= k < j + 1 && #[trigger] allowed@[k]@ == t;
                        if k < j {
                            assert(holds_id(allowed@, j as int, t));
                        }
                    }
                    if holds_id(allowed@, j as int, t) {
                        let k = choose|k: int| 0 <= k < j && #[trigger] allowed@[k]@ == t;
                        assert(allowed@[k]@ == t);
                    }
                    if present && !was {
                        assert(allowed@[j as int]@ == t);
                    }
                }
                j = j + 1;
            }
            let ghost before = kept@;
            if present {
                kept.push(self.ids[i].duplicate());
            }
            proof {
                let t = self.ids@[i as int]@;
                assert forall|s: Seq<char>|
                    #[trigger] holds_id(kept@, kept@.len() as int, s) <==> (holds_id(self.ids@, i + 1, s) && holds_id(
                        allowed@,
                        allowed@.len() as int,
                        s,
                    )) by {
                    if holds_id(kept@, kept@.len() as int, s) {
                        let k = choose|k: int| 0 <= k < kept@.len() && #[trigger] kept@[k]@ == s;
                        if k < before.len() {
                            assert(before[k]@ == s);
                            assert(holds_id(before, before.len() as int, s));
                            let j2 = choose|j2: int| 0 <= j2 < i && #[trigger] self.ids@[j2]@ == s;
                            assert(self.ids@[j2]@ == s);
                        } else {
                            assert(s == t);
                            assert(self.ids@[i as int]@ == s);
                        }
                    }
                    if holds_id(self.ids@, i + 1, s) && holds_id(allowed@, allowed@.len() as int, s) {
                        let k = choose|k: int| 0 <= k < i + 1 && #[trigger] self.ids@[k]@ == s;
                        if k < i {
                            assert(holds_id(self.ids@, i as int, s));
                            assert(holds_id(before, before.len() as int, s));
                            let j2 = choose|j2: int| 0 <= j2 < before.len() && #[trigger] before[j2]@ == s;
                            assert(kept@[j2]@ == s);
                        } else {
                            assert(s == t);
                            assert(present);
                            assert(kept@[kept@.len() - 1]@ == s);
                        }
                    }
                }
            }
            i = i + 1;
        }
        let ghost old_view = self@;
        self.ids = kept;
        assert forall|s: Seq<char>| #[trigger] self@.contains(s) <==> (old_view.contains(s) && holds_id(
            allowed@,
            allowed@.len() as int,
            s,
        )) by {}
    }
}

/// One playlist in the folder hierarchy, with the positions of its children.
#[derive(Clone, Debug, PartialEq, Eq)]
pub struct PlaylistNode {
    pub playlist_id: PlaylistId,
    pub is_folder: bool,
    pub children: Vec<usize>,
}

/// Playlists arranged under their parent folders; `roots` are positions in `nodes`.
#[derive(Clone, Debug, Default, PartialEq, Eq)]
pub struct PlaylistHierarchy {
    pub nodes: Vec<PlaylistNode>,
    pub roots: Vec<usize>,
}

/// One visible row of the playlist sidebar list.
#[derive(Clone, Debug, PartialEq, Eq)]
pub struct VisiblePlaylistEntry {
    pub playlist_id: PlaylistId,
    pub depth: usize,
    pub is_folder: bool,
    pub expanded: bool,
}

/// The position of the first playlist whose identity is `id`.
pub open spec fn first_with_id(playlists: Seq<Playlist>, id: Seq<char>) -> int
    decreases playlists.len(),
{
    if playlists.len() == 0 {
        -1
    } else if playlists.last().id@ == id && first_with_id(playlists.drop_last(), id) == -1 {
        playlists.len() - 1
    } else {
        first_with_id(playlists.drop_last(), id)
    }
}

/// The position of the playlist's parent folder, or -1 when it sits at the top level
/// (no parent, a parent that is not listed, or itself as parent).
pub open spec fn parent_position(playlists: Seq<Playlist>, i: int) -> int {
    match playlists[i].parent_id {
        None => -1,
        Some(p) => {
            let j = first_with_id(playlists, p@);
            if j == i {
                -1
            } else {
                j
            }
        },
    }
}

/// A hierarchy node by its playlist, whether it is a folder, and its children's positions.
pub type NodeView = (PlaylistId, bool, Seq<usize>);

pub open spec fn node_view(n: PlaylistNode) -> NodeView {
    (n.playlist_id, n.is_folder, n.children@)
}

/// The nodes of a hierarchy by their views.
pub open spec fn nodes_view(h: PlaylistHierarchy) -> Seq<NodeView> {
    h.nodes@.map_values(|n: PlaylistNode| node_view(n))
}

/// The rows a node contributes: itself at `depth`, then, when it is an expanded folder,
/// the rows of its children one level deeper. `fuel` bounds how deep the walk goes.
pub open spec fn node_rows(nodes: Seq<NodeView>, expanded: Set<Seq<char>>, index: int, depth: int, fuel: nat) -> Seq<VisiblePlaylistEntry>
    decreases fuel, 0int,
{
    let node = nodes[index];
    let open = node.1 && expanded.contains(node.0@);
    let entry = VisiblePlaylistEntry { playlist_id: node.0, depth: depth as usize, is_folder: node.1, expanded: open };
    if open && fuel > 0 && depth < nodes.len() {
        seq![entry] + children_rows(nodes, expanded, node.2, depth + 1, (fuel - 1) as nat)
    } else {
        seq![entry]
    }
}

/// The rows of a list of nodes, in order, skipping positions that name no node.
pub open spec fn children_rows(nodes: Seq<NodeView>, expanded: Set<Seq<char>>, children: Seq<usize>, depth: int, fuel: nat) -> Seq<VisiblePlaylistEntry>
    decreases fuel, children.len() as int + 1,
{
    if children.len() == 0 {
        Seq::empty()
    } else {
        let prev = children_rows(nodes, expanded, children.drop_last(), depth, fuel);
        let c = children.last();
        if c < nodes.len() {
            prev + node_rows(nodes, expanded, c as int, depth, fuel)
        } else {
            prev
        }
    }
}

/// The rows shown for a hierarchy: every root at depth 0 with the rows below it.
pub open spec fn visible_rows(nodes: Seq<NodeView>, roots: Seq<usize>, expanded: Set<Seq<char>>) -> Seq<VisiblePlaylistEntry> {
    children_rows(nodes, expanded, roots, 0, nodes.len())
}

/// The positions among the first `m` playlists whose parent position is `parent`.
pub open spec fn positions_under(playlists: Seq<Playlist>, parent: int, m: nat) -> Seq<usize>
    decreases m,
{
    if m == 0 {
        Seq::empty()
    } else {
        let prev = positions_under(playlists, parent, (m - 1) as nat);
        if parent_position(playlists, m - 1) == parent {
            prev.push((m - 1) as usize)
        } else {
            prev
        }
    }
}

/// The nodes of the hierarchy built from `playlists`.
pub open spec fn hierarchy_nodes(playlists: Seq<Playlist>) -> Seq<NodeView> {
    Seq::new(
        playlists.len(),
        |i: int| (playlists[i].id, playlists[i].kind == PlaylistKind::Folder, positions_under(playlists, i, playlists.len())),
    )
}

/// The roots of the hierarchy built from `playlists`.
pub open spec fn hierarchy_roots(playlists: Seq<Playlist>) -> Seq<usize> {
    positions_under(playlists, -1, playlists.len())
}

proof fn lemma_first_with_id(playlists: Seq<Playlist>, id: Seq<char>, j: int)
    requires
        0 <= j < playlists.len(),
        playlists[j].id@ == id,
        forall|k: int| 0 <= k < j ==> playlists[k].id@ != id,
    ensures
        first_with_id(playlists, id) == j,
    decreases playlists.len(),
{
    if j < playlists.len() - 1 {
        let init = playlists.drop_last();
        assert forall|k: int| 0 <= k < j implies init[k].id@ != id by {
            assert(init[k] == playlists[k]);
        }
        lemma_first_with_id(init, id, j);
    } else {
        let init = playlists.drop_last();
        lemma_no_id(init, id);
    }
}

proof fn lemma_no_id(playlists: Seq<Playlist>, id: Seq<char>)
    requires
        forall|k: int| 0 <= k < playlists.len() ==> playlists[k].id@ != id,
    ensures
        first_with_id(playlists, id) == -1,
    decreases playlists.len(),
{
    if playlists.len() > 0 {
        let init = playlists.drop_last();
        assert forall|k: int| 0 <= k < init.len() implies init[k].id@ != id by {
            assert(init[k] == playlists[k]);
        }
        lemma_no_id(init, id);
    }
}

/// The position of the first playlist whose identity is `id`.
pub fn first_position(playlists: &[Playlist], id: &PlaylistId) -> (r: Option<usize>)
    ensures
        r is None ==> forall|k: int| 0 <= k < playlists@.len() ==> playlists@[k].id@ != id@,
        r matches Some(j) ==> j < playlists@.len() && playlists@[j as int].id@ == id@ && forall|k: int|
            0 <= k < j ==> playlists@[k].id@ != id@,
        r is None ==> first_with_id(playlists@, id@) == -1,
        r matches Some(j) ==> first_with_id(playlists@, id@) == j,
{
    let mut i: usize = 0;
    while i < playlists.len()
        invariant
            i <= playlists@.len(),
            forall|k: int| 0 <= k < i ==> playlists@[k].id@ != id@,
        decreases playlists.len() - i,
    {
        if playlists[i].id.same(id) {
            proof {
                lemma_first_with_id(playlists@, id@, i as int);
            }
            return Some(i);
        }
        i = i + 1;
    }
    proof {
        lemma_no_id(playlists@, id@);
    }
    None
}

impl PlaylistHierarchy {
    /// Builds the hierarchy: every playlist becomes a node, in order; a playlist whose
    /// parent folder is listed becomes that folder's child (under the first playlist with
    /// the parent's identity), and every other playlist is a root.
    pub fn from_playlists(playlists: &[Playlist]) -> (r: PlaylistHierarchy)
        ensures
            nodes_view(r) == hierarchy_nodes(playlists@),
            r.roots@ == hierarchy_roots(playlists@),
    {
        let n = playlists.len();
        let mut parents: Vec<Option<usize>> = Vec::new();
        let mut i: usize = 0;
        while i < n
            invariant
                n == playlists@.len(),
                i <= n,
                parents@.len() == i,
                forall|k: int|
                    0 <= k < i ==> (match #[trigger] parents@[k] {
                        Some(j) => j < n && parent_position(playlists@, k) == j,
                        None => parent_position(playlists@, k) == -1,
                    }),
            decreases n - i,
        {
            let parent = match &playlists[i].parent_id {
                None => None,
                Some(p) => match first_position(playlists, p) {
                    Some(j) => if j == i {
                        None
                    } else {
                        Some(j)
                    },
                    None => None,
                },
            };
            parents.push(parent);
            i = i + 1;
        }
        let mut nodes: Vec<PlaylistNode> = Vec::new();
        let mut roots: Vec<usize> = Vec::new();
        let mut i: usize = 0;
        while i < n
            invariant
                n == playlists@.len(),
                parents@.len() == n,
                forall|k: int|
                    0 <= k < n ==> (match #[trigger] parents@[k] {
                        Some(j) => j < n && parent_position(playlists@, k) == j,
                        None => parent_position(playlists@, k) == -1,
                    }),
                i <= n,
                nodes@.len() == i,
                forall|k: int| 0 <= k < i ==> #[trigger] node_view(nodes@[k]) == hierarchy_nodes(playlists@)[k],
                roots@ == positions_under(playlists@, -1, i as nat),
            decreases n - i,
        {
            let mut children: Vec<usize> = Vec::new();
            let mut c: usize = 0;
            while c < n
                invariant
                    n == playlists@.len(),
                    n == parents@.len(),
                    forall|k: int|
                        0 <= k < n ==> (match #[trigger] parents@[k] {
                            Some(j) => j < n && parent_position(playlists@, k) == j,
                            None => parent_position(playlists@, k) == -1,
                        }),
                    c <= n,
                    i < n,
                    children@ == positions_under(playlists@, i as int, c as nat),
                decreases n - c,
            {
                proof {
                    let _ = parents@[c as int];
                }
                if let Some(p) = parents[c] {
                    if p == i {
                        children.push(c);
                    }
                }
                c = c + 1;
            }
            proof {
                let _ = parents@[i as int];
            }
            if parents[i].is_none() {
                roots.push(i);
            }
            let is_folder = match playlists[i].kind {
                PlaylistKind::Folder => true,
                _ => false,
            };
            nodes.push(PlaylistNode { playlist_id: playlists[i].id.duplicate(), is_folder, children });
            i = i + 1;
        }
        let r = PlaylistHierarchy { nodes, roots };
        assert(nodes_view(r) =~= hierarchy_nodes(playlists@));
        r
    }

    /// Whether the node at `index` is a folder that is expanded.
    fn is_open(&self, index: usize, expanded: &PlaylistIdSet) -> (r: bool)
        requires
            index < self.nodes@.len(),
        ensures
            r == (self.nodes@[index as int].is_folder && expanded@.contains(self.nodes@[index as int].playlist_id@)),
    {
        self.nodes[index].is_folder && expanded.contains(&self.nodes[index].playlist_id)
    }

    fn emit(&self, index: usize, depth: usize, expanded: &PlaylistIdSet, out: &mut Vec<VisiblePlaylistEntry>, fuel: usize)
        requires
            index < self.nodes@.len(),
            depth <= self.nodes@.len(),
        ensures
            final(out)@ == old(out)@ + node_rows(nodes_view(*self), expanded@, index as int, depth as int, fuel as nat),
        decreases fuel,
    {
        let open = self.is_open(index, expanded);
        let ghost start = old(out)@;
        let entry = VisiblePlaylistEntry {
            playlist_id: self.nodes[index].playlist_id.duplicate(),
            depth,
            is_folder: self.nodes[index].is_folder,
            expanded: open,
        };
        let ghost first = entry;
        out.push(entry);
        if open && fuel > 0 && depth < self.nodes.len() {
            let ghost children = self.nodes@[index as int].children@;
            let mut k: usize = 0;
            assert(children.take(0) =~= Seq::<usize>::empty());
            while k < self.nodes[index].children.len()
                invariant
                    index < self.nodes@.len(),
                    fuel > 0,
                    depth < self.nodes@.len(),
                    children == self.nodes@[index as int].children@,
                    k <= children.len(),
                    out@ == start + seq![first] + children_rows(nodes_view(*self), expanded@, children.take(k as int), depth + 1, (fuel - 1) as nat),
                decreases children.len() - k,
            {
                let child = self.nodes[index].children[k];
                let ghost before = out@;
                assert(children.take(k + 1).drop_last() =~= children.take(k as int));
                assert(children.take(k + 1).last() == child);
                if child < self.nodes.len() {
                    self.emit(child, depth + 1, expanded, out, fuel - 1);
                    assert(out@ =~= start + seq![first] + children_rows(nodes_view(*self), expanded@, children.take(k + 1), depth + 1, (fuel - 1) as nat));
                }
                k = k + 1;
            }
            assert(children.take(children.len() as int) =~= children);
            assert(out@ =~= start + node_rows(nodes_view(*self), expanded@, index as int, depth as int, fuel as nat));
        } else {
            assert(out@ =~= start + node_rows(nodes_view(*self), expanded@, index as int, depth as int, fuel as nat));
        }
    }

    /// The rows shown for this hierarchy: each root in order at depth 0, and below every
    /// expanded folder its children one level deeper.
    pub fn visible_entries(&self, expanded: &PlaylistIdSet) -> (r: Vec<VisiblePlaylistEntry>)
        ensures
            r@ == visible_rows(nodes_view(*self), self.roots@, expanded@),
    {
        let mut out: Vec<VisiblePlaylistEntry> = Vec::new();
        let fuel = self.nodes.len();
        let ghost roots = self.roots@;
        let mut i: usize = 0;
        assert(roots.take(0) =~= Seq::<usize>::empty());
        while i < self.roots.len()
            invariant
                roots == self.roots@,
                fuel == self.nodes@.len(),
                i <= roots.len(),
                out@ == children_rows(nodes_view(*self), expanded@, roots.take(i as int), 0, fuel as nat),
            decreases roots.len() - i,
        {
            let root = self.roots[i];
            assert(roots.take(i + 1).drop_last() =~= roots.take(i as int));
            assert(roots.take(i + 1).last() == root);
            if root < self.nodes.len() {
                self.emit(root, 0, expanded, &mut out, fuel);
            }
            i = i + 1;
        }
        assert(roots.take(roots.len() as int) =~= roots);
        out
    }
}

} // verus!
