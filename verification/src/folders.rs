//! The Folders view's directory tree model.
//!
//! The library's directory grouping is copied once into a flat array in
//! preorder: each node keeps its display data and the indices of its
//! children, so expanding a node walks a handful of indices and building the
//! model never copies a subtree. A node's id is its index.

use vstd::prelude::*;

use crate::folder_tree::{folder_matches, FolderTreeState};
use crate::library::{DirNodeInfo, TrackInfo};
use crate::projectm::overlay::Rect;
use crate::text::{decimal, decimal_string, lemma_decimal_reads_back, read_decimal, str_eq};

verus! {

/// One directory, flattened: its display data plus its children's indices.
#[derive(Debug)]
pub struct FlatDir {
    pub path: String,
    pub name: String,
    pub total_track_count: usize,
    pub has_children: bool,
    pub children: Vec<usize>,
}

/// The row text of a folder: its name and total track count.
pub open spec fn folder_label(name: Seq<char>, total: usize) -> Seq<char> {
    name + " ("@ + decimal(total as nat) + ")"@
}

impl FlatDir {
    /// The row text: the folder name and its total track count.
    pub fn label(&self) -> (s: String)
        ensures
            s@ == folder_label(self.name@, self.total_track_count),
    {
        let mut s = self.name.clone();
        s.append(" (");
        let count = decimal_string(self.total_track_count as u64);
        s.append(count.as_str());
        s.append(")");
        s
    }
}

/// A folder's row text is its name, then its total track count in decimal
/// between parentheses: the number inside reads back as the count.
pub proof fn lemma_folder_label_reads_count(name: Seq<char>, total: usize)
    ensures
        ({
            let l = folder_label(name, total);
            &&& l.take(name.len() as int) == name
            &&& l.subrange(name.len() as int, name.len() + 2int) == " ("@
            &&& l.last() == ')'
            &&& read_decimal(l.subrange(name.len() + 2int, l.len() - 1)) == total
        }),
{
    reveal_strlit(" (");
    reveal_strlit(")");
    lemma_decimal_reads_back(total as nat);
    let d = decimal(total as nat);
    let l = folder_label(name, total);
    assert(l.take(name.len() as int) =~= name);
    assert(l.subrange(name.len() as int, name.len() + 2int) =~= " ("@);
    assert(l.subrange(name.len() + 2int, l.len() - 1) =~= d);
}

/// How many directories `level` holds, subfolders included.
pub open spec fn size(level: Seq<DirNodeInfo>) -> nat
    decreases level,
{
    if level.len() == 0 {
        0
    } else {
        size(level.drop_last()) + 1 + size(level.last().children@)
    }
}

/// Where each directory of `level` lands when the level is flattened in
/// preorder starting at index `base`.
pub open spec fn offsets(level: Seq<DirNodeInfo>, base: int) -> Seq<int>
    decreases level.len(),
{
    if level.len() == 0 {
        Seq::empty()
    } else {
        offsets(level.drop_last(), base).push(base + size(level.drop_last()))
    }
}

/// Whether `f` is the flat copy of directory `n`, apart from its children.
pub open spec fn copies(f: FlatDir, n: DirNodeInfo) -> bool {
    &&& f.path@ == n.path@
    &&& f.name@ == n.name@
    &&& f.total_track_count == n.total_track_count
    &&& f.has_children == (n.children@.len() > 0)
}

/// Whether `flat` holds `level` in preorder from index `base` on: each
/// directory, right after it its subfolders, and its children's indices.
pub open spec fn flat_ok(flat: Seq<FlatDir>, base: int, level: Seq<DirNodeInfo>) -> bool
    decreases level,
{
    if level.len() == 0 {
        true
    } else {
        let n = level.last();
        let at = base + size(level.drop_last());
        &&& flat_ok(flat, base, level.drop_last())
        &&& 0 <= at < flat.len()
        &&& copies(flat[at], n)
        &&& flat[at].children@.map_values(|i: usize| i as int) == offsets(n.children@, at + 1)
        &&& flat_ok(flat, at + 1, n.children@)
    }
}

/// `flat_ok` only reads the entries it covers.
proof fn lemma_flat_ok_prefix(f1: Seq<FlatDir>, f2: Seq<FlatDir>, base: int, level: Seq<DirNodeInfo>)
    requires
        flat_ok(f1, base, level),
        base + size(level) <= f2.len(),
        forall|k: int| base <= k < base + size(level) ==> #[trigger] f2[k] == f1[k],
    ensures
        flat_ok(f2, base, level),
    decreases level,
{
    if level.len() > 0 {
        let n = level.last();
        let at = base + size(level.drop_last());
        lemma_flat_ok_prefix(f1, f2, base, level.drop_last());
        lemma_flat_ok_prefix(f1, f2, at + 1, n.children@);
    }
}

/// Whether every child index in `flat[from..]` points below `bound`.
pub open spec fn indices_below(flat: Seq<FlatDir>, from: int, bound: int) -> bool {
    forall|k: int, j: int|
        from <= k < flat.len() && 0 <= j < flat[k].children@.len() ==> #[trigger] flat[k].children@[j]
            < bound
}

/// Flattens one level, appending each directory (and its descendants) to
/// `flat` in preorder and returning this level's indices.
fn flatten_level(level: &Vec<DirNodeInfo>, flat: &mut Vec<FlatDir>) -> (indices: Vec<usize>)
    ensures
        final(flat)@.len() == old(flat)@.len() + size(level@),
        forall|k: int| 0 <= k < old(flat)@.len() ==> #[trigger] final(flat)@[k] == old(flat)@[k],
        flat_ok(final(flat)@, old(flat)@.len() as int, level@),
        indices@.map_values(|i: usize| i as int) == offsets(level@, old(flat)@.len() as int),
        indices_below(final(flat)@, old(flat)@.len() as int, final(flat)@.len() as int),
        forall|j: int| 0 <= j < indices@.len() ==> #[trigger] indices@[j] < final(flat)@.len(),
    decreases level@,
{
    let ghost start = flat@;
    let ghost base = flat@.len() as int;
    let mut indices: Vec<usize> = Vec::new();
    let mut i: usize = 0;
    while i < level.len()
        invariant
            i <= level@.len(),
            base == start.len(),
            flat@.len() == base + size(level@.take(i as int)),
            forall|k: int| 0 <= k < base ==> #[trigger] flat@[k] == start[k],
            flat_ok(flat@, base, level@.take(i as int)),
            indices@.map_values(|x: usize| x as int) == offsets(level@.take(i as int), base),
            indices_below(flat@, base, flat@.len() as int),
            forall|j: int| 0 <= j < indices@.len() ==> #[trigger] indices@[j] < flat@.len(),
        decreases level@.len() - i,
    {
        let node = &level[i];
        let index = flat.len();
        let ghost pre = level@.take(i as int);
        let ghost next = level@.take(i + 1);
        proof {
            assert(next.drop_last() =~= pre);
            assert(next.last() == *node);
        }
        indices.push(index);
        let ghost f0 = flat@;
        flat.push(
            FlatDir {
                path: node.path.clone(),
                name: node.name.clone(),
                total_track_count: node.total_track_count,
                has_children: node.children.len() > 0,
                children: Vec::new(),
            },
        );
        let ghost before_children = flat@;
        proof {
            assert(decreases_to!(level@ => level@[i as int]));
            assert(decreases_to!(level@[i as int] => level@[i as int].children));
        }
        let children = flatten_level(&node.children, flat);
        let ghost after_children = flat@;
        let old_entry = FlatDir {
            path: flat[index].path.clone(),
            name: flat[index].name.clone(),
            total_track_count: flat[index].total_track_count,
            has_children: flat[index].has_children,
            children,
        };
        flat.set(index, old_entry);
        proof {
            let at = base + size(pre);
            assert(at == index);
            assert(flat@[at] == old_entry);
            lemma_flat_ok_prefix(f0, flat@, base, pre);
            lemma_flat_ok_prefix(after_children, flat@, at + 1, node.children@);
            assert(flat_ok(flat@, base, next));
            assert(indices@.map_values(|x: usize| x as int) =~= offsets(next, base));
            assert(flat@.len() == base + size(next));
        }
        i = i + 1;
    }
    proof {
        assert(level@.take(level@.len() as int) =~= level@);
    }
    indices
}

/// The paths of the directories of `level`, subfolders included, in
/// preorder: each directory, then its subfolders.
pub open spec fn tree_paths(level: Seq<DirNodeInfo>) -> Seq<Seq<char>>
    decreases level,
{
    if level.len() == 0 {
        Seq::empty()
    } else {
        tree_paths(level.drop_last()) + seq![level.last().path@] + tree_paths(
            level.last().children@,
        )
    }
}

/// Flattening a level lays its directories' paths out in preorder.
proof fn lemma_flat_paths(flat: Seq<FlatDir>, base: int, level: Seq<DirNodeInfo>)
    requires
        flat_ok(flat, base, level),
    ensures
        tree_paths(level).len() == size(level),
        forall|k: int| 0 <= k < size(level) ==> #[trigger] flat[base + k].path@ == tree_paths(level)[k],
    decreases level,
{
    if level.len() > 0 {
        let init = level.drop_last();
        let n = level.last();
        let at = base + size(init);
        lemma_flat_paths(flat, base, init);
        lemma_flat_paths(flat, at + 1, n.children@);
        let tp = tree_paths(level);
        assert(tp == tree_paths(init) + seq![n.path@] + tree_paths(n.children@));
        assert forall|k: int| 0 <= k < size(level) implies #[trigger] flat[base + k].path@ == tree_paths(
            level,
        )[k] by {
            if k < size(init) {
                assert(flat[base + k].path@ == tree_paths(init)[k]);
            } else if k == size(init) {
                assert(copies(flat[at], n));
            } else {
                let c = k - size(init) - 1;
                assert(flat[at + 1 + c].path@ == tree_paths(n.children@)[c]);
                assert(base + k == at + 1 + c);
            }
        }
    }
}

/// Whether no path occurs twice in `paths`.
pub open spec fn no_repeated_path(paths: Seq<Seq<char>>) -> bool {
    forall|i: int, j: int| 0 <= i < j < paths.len() ==> #[trigger] paths[i] != #[trigger] paths[j]
}

/// When no two directories of the input tree, at any depth, share a path,
/// no two nodes of its flattening do, so `by_path` round-trips every node of
/// `DirTreeModel::new(tree)` (see `lemma_by_path_round_trip`).
pub proof fn lemma_distinct_tree_paths(tree: Seq<DirNodeInfo>, nodes: Seq<FlatDir>)
    requires
        flat_ok(nodes, 0, tree),
        nodes.len() == size(tree),
        no_repeated_path(tree_paths(tree)),
    ensures
        distinct_paths(nodes),
{
    lemma_flat_paths(nodes, 0, tree);
    assert forall|i: int, j: int| 0 <= i < j < nodes.len() implies (#[trigger] nodes[i]).path@ != (
    #[trigger] nodes[j]).path@ by {
        assert(nodes[0 + i].path@ == tree_paths(tree)[i]);
        assert(nodes[0 + j].path@ == tree_paths(tree)[j]);
    }
}

/// Whether `id` is the last node of `nodes` at `path`, or `None` when no
/// node is there.
pub open spec fn finds_last(nodes: Seq<FlatDir>, path: Seq<char>, id: Option<usize>) -> bool {
    match id {
        Some(i) => i < nodes.len() && nodes[i as int].path@ == path && forall|j: int|
            i < j < nodes.len() ==> (#[trigger] nodes[j]).path@ != path,
        None => forall|j: int| 0 <= j < nodes.len() ==> (#[trigger] nodes[j]).path@ != path,
    }
}

/// Whether no two nodes share a path.
pub open spec fn distinct_paths(nodes: Seq<FlatDir>) -> bool {
    forall|i: int, j: int| 0 <= i < j < nodes.len() ==> (#[trigger] nodes[i]).path@ != (
    #[trigger] nodes[j]).path@
}

/// When no two nodes share a path, looking a node's path up gives back its
/// id: `paths` and `by_path` round-trip every node.
pub proof fn lemma_by_path_round_trip(nodes: Seq<FlatDir>, id: int, found: Option<usize>)
    requires
        distinct_paths(nodes),
        0 <= id < nodes.len(),
        finds_last(nodes, nodes[id].path@, found),
    ensures
        found == Some(id as usize),
{
    match found {
        Some(i) => {
            if (i as int) < id {
                assert(nodes[id].path@ != nodes[id].path@);
            } else if (i as int) > id {
                assert(nodes[id].path@ != nodes[i as int].path@);
            }
        },
        None => {
            assert(nodes[id].path@ != nodes[id].path@);
        },
    }
}

/// A node as the tree control shows it: its id, row text and whether it can
/// expand.
#[derive(Debug, Clone)]
pub struct TreeNode {
    pub id: usize,
    pub label: String,
    pub has_children: bool,
}

/// A lazily-expanded tree model over the library's directory grouping.
#[derive(Debug)]
pub struct DirTreeModel {
    nodes: Vec<FlatDir>,
    roots: Vec<usize>,
}

impl DirTreeModel {
    #[verifier::type_invariant]
    closed spec fn well_formed(self) -> bool {
        &&& indices_below(self.nodes@, 0, self.nodes@.len() as int)
        &&& forall|j: int| 0 <= j < self.roots@.len() ==> #[trigger] self.roots@[j] < self.nodes@.len()
    }

    /// The flattened directories, indexed by node id.
    pub closed spec fn nodes_view(&self) -> Seq<FlatDir> {
        self.nodes@
    }

    /// The ids of the top-level directories.
    pub closed spec fn roots_view(&self) -> Seq<usize> {
        self.roots@
    }

    /// Flattens `tree` into nodes in preorder (ids are node indices) and the
    /// root ids.
    pub fn new(tree: &Vec<DirNodeInfo>) -> (m: DirTreeModel)
        ensures
            m.nodes_view().len() == size(tree@),
            flat_ok(m.nodes_view(), 0, tree@),
            m.roots_view().map_values(|i: usize| i as int) == offsets(tree@, 0),
    {
        let mut nodes: Vec<FlatDir> = Vec::new();
        let roots = flatten_level(tree, &mut nodes);
        DirTreeModel { nodes, roots }
    }

    /// The number of nodes.
    pub fn len(&self) -> (n: usize)
        ensures
            n == self.nodes_view().len(),
    {
        self.nodes.len()
    }

    /// The path of each node, indexed by its id.
    pub fn paths(&self) -> (p: Vec<String>)
        ensures
            p@.len() == self.nodes_view().len(),
            forall|i: int| 0 <= i < p@.len() ==> #[trigger] p@[i]@ == self.nodes_view()[i].path@,
    {
        let mut p: Vec<String> = Vec::new();
        let mut i: usize = 0;
        while i < self.nodes.len()
            invariant
                i <= self.nodes@.len(),
                p@.len() == i,
                forall|k: int| 0 <= k < i ==> #[trigger] p@[k]@ == self.nodes@[k].path@,
            decreases self.nodes@.len() - i,
        {
            p.push(self.nodes[i].path.clone());
            i = i + 1;
        }
        p
    }

    /// The id of the node at `path`: the last one when several share it, as
    /// a path-keyed map built in id order keeps.
    pub fn by_path(&self, path: &str) -> (id: Option<usize>)
        ensures
            finds_last(self.nodes_view(), path@, id),
    {
        let mut i: usize = self.nodes.len();
        while i > 0
            invariant
                i <= self.nodes@.len(),
                forall|j: int| i <= j < self.nodes@.len() ==> (#[trigger] self.nodes@[j]).path@ != path@,
            decreases i,
        {
            i = i - 1;
            if str_eq(self.nodes[i].path.as_str(), path) {
                return Some(i);
            }
        }
        None
    }

    /// The tree rows under `parent` (`None` for the roots); an unknown id
    /// has none.
    pub fn children(&self, parent: Option<usize>) -> (rows: Vec<TreeNode>)
        ensures
            ({
                let ids = match parent {
                    None => self.roots_view(),
                    Some(id) => if id < self.nodes_view().len() {
                        self.nodes_view()[id as int].children@
                    } else {
                        Seq::empty()
                    },
                };
                &&& rows@.len() == ids.len()
                &&& forall|j: int|
                    0 <= j < ids.len() ==> {
                        let n = self.nodes_view()[ids[j] as int];
                        &&& (#[trigger] rows@[j]).id == ids[j]
                        &&& rows@[j].label@ == folder_label(n.name@, n.total_track_count)
                        &&& rows@[j].has_children == n.has_children
                    }
            }),
    {
        proof {
            use_type_invariant(self);
        }
        let empty: Vec<usize> = Vec::new();
        let ids: &Vec<usize> = match parent {
            None => &self.roots,
            Some(id) => if id < self.nodes.len() {
                &self.nodes[id].children
            } else {
                &empty
            },
        };
        let mut rows: Vec<TreeNode> = Vec::new();
        let mut j: usize = 0;
        while j < ids.len()
            invariant
                j <= ids@.len(),
                indices_below(self.nodes@, 0, self.nodes@.len() as int),
                forall|q: int| 0 <= q < ids@.len() ==> #[trigger] ids@[q] < self.nodes@.len(),
                rows@.len() == j,
                forall|q: int|
                    0 <= q < j ==> {
                        let n = self.nodes@[ids@[q] as int];
                        &&& (#[trigger] rows@[q]).id == ids@[q]
                        &&& rows@[q].label@ == folder_label(n.name@, n.total_track_count)
                        &&& rows@[q].has_children == n.has_children
                    },
            decreases ids@.len() - j,
        {
            let index = ids[j];
            let node = &self.nodes[index];
            rows.push(TreeNode { id: index, label: node.label(), has_children: node.has_children });
            j = j + 1;
        }
        rows
    }
}

/// Whether the directory tree must be reinstalled: on the first sync, and
/// afterwards when the library (its scan state and track count) changed and
/// no scan is running.
pub fn tree_rebuild_due(applied: Option<(bool, usize)>, scanning: bool, track_count: usize) -> (r: bool)
    ensures
        r == (applied is None || (!scanning && applied != Some((scanning, track_count)))),
{
    match applied {
        None => true,
        Some((s, c)) => !scanning && !(s == scanning && c == track_count),
    }
}

/// The selected folder of `state`, by view.
pub open spec fn selected_view(state: FolderTreeState) -> Option<Seq<char>> {
    match state.selected {
        Some(s) => Some(s@),
        None => None,
    }
}

/// The tracks of `tracks` in the selected folder, in library order.
pub open spec fn in_folder(tracks: Seq<TrackInfo>, state: FolderTreeState) -> Seq<TrackInfo>
    decreases tracks.len(),
{
    if tracks.len() == 0 {
        Seq::empty()
    } else {
        let rest = in_folder(tracks.drop_last(), state);
        if folder_matches(selected_view(state), state.include_subfolders, tracks.last().path@) {
            rest.push(tracks.last())
        } else {
            rest
        }
    }
}

/// The library tracks the folders table shows: those in the selected
/// folder (or below it, with subfolders included), in library order.
pub fn folder_tracks<'a>(tracks: &'a [TrackInfo], state: &FolderTreeState) -> (r: Vec<&'a TrackInfo>)
    ensures
        r@.map_values(|t: &TrackInfo| *t) == in_folder(tracks@, *state),
{
    let mut r: Vec<&'a TrackInfo> = Vec::new();
    let mut i: usize = 0;
    while i < tracks.len()
        invariant
            i <= tracks@.len(),
            r@.map_values(|t: &TrackInfo| *t) == in_folder(tracks@.take(i as int), *state),
        decreases tracks@.len() - i,
    {
        let t = &tracks[i];
        proof {
            assert(tracks@.take(i + 1).drop_last() =~= tracks@.take(i as int));
            assert(tracks@.take(i + 1).last() == tracks@[i as int]);
        }
        if state.matches(t) {
            r.push(t);
        }
        proof {
            assert(r@.map_values(|t: &TrackInfo| *t) =~= in_folder(tracks@.take(i + 1), *state));
        }
        i = i + 1;
    }
    proof {
        assert(tracks@.take(tracks@.len() as int) =~= tracks@);
    }
    r
}

/// Where the folders view puts its parts inside `bounds`, given its sizes in
/// pixels: the tree on the left (never past the right edge), then after an
/// inset the subfolders checkbox row on top of the track table.
pub struct FoldersLayout {
    pub tree: Rect,
    pub subfolders_row: Rect,
    pub table: Rect,
}

/// Lays the folders view out in `bounds`.
pub fn folders_layout(bounds: Rect, tree_width: i32, header: i32, inset: i32) -> (l: FoldersLayout)
    requires
        bounds.left + tree_width <= i32::MAX,
        bounds.left + tree_width >= i32::MIN,
        (if bounds.left + tree_width < bounds.right { bounds.left + tree_width } else { bounds.right as int })
            + inset <= i32::MAX,
        (if bounds.left + tree_width < bounds.right { bounds.left + tree_width } else { bounds.right as int })
            + inset >= i32::MIN,
        i32::MIN <= bounds.top + header <= i32::MAX,
    ensures
        ({
            let tree_right = if bounds.left + tree_width < bounds.right {
                bounds.left + tree_width
            } else {
                bounds.right as int
            };
            &&& l.tree == Rect {
                left: bounds.left,
                top: bounds.top,
                right: tree_right as i32,
                bottom: bounds.bottom,
            }
            &&& l.subfolders_row == Rect {
                left: (tree_right + inset) as i32,
                top: bounds.top,
                right: bounds.right,
                bottom: (bounds.top + header) as i32,
            }
            &&& l.table == Rect {
                left: (tree_right + inset) as i32,
                top: (bounds.top + header) as i32,
                right: bounds.right,
                bottom: bounds.bottom,
            }
        }),
{
    let candidate = bounds.left + tree_width;
    let tree_right = if candidate < bounds.right {
        candidate
    } else {
        bounds.right
    };
    let right = tree_right + inset;
    let header_bottom = bounds.top + header;
    FoldersLayout {
        tree: Rect { left: bounds.left, top: bounds.top, right: tree_right, bottom: bounds.bottom },
        subfolders_row: Rect { left: right, top: bounds.top, right: bounds.right, bottom: header_bottom },
        table: Rect { left: right, top: header_bottom, right: bounds.right, bottom: bounds.bottom },
    }
}

/// For a model built from a tree whose directories all have different
/// paths (`DirTreeModel::new` ensures `flat_ok` and the node count), looking
/// any node's path up with `by_path` gives back that node's id.
pub proof fn lemma_tree_round_trip(tree: Seq<DirNodeInfo>, nodes: Seq<FlatDir>, id: int, found: Option<usize>)
    requires
        flat_ok(nodes, 0, tree),
        nodes.len() == size(tree),
        no_repeated_path(tree_paths(tree)),
        0 <= id < nodes.len(),
        finds_last(nodes, nodes[id].path@, found),
    ensures
        found == Some(id as usize),
{
    lemma_distinct_tree_paths(tree, nodes);
    lemma_by_path_round_trip(nodes, id, found);
}

} // verus!
