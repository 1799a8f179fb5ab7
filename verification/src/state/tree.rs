//! A directory tree shown as a list: each row a file at some depth,
//! directories opened in place to show their entries below them.
use vstd::prelude::*;
use crate::fs::file::VFile;
use crate::search::{bwd, find_backward, find_forward, first_backward, first_forward, fwd, none_match};
use crate::sort::{files_sorted, name_of, name_of_exec, sort_files};
use crate::state::filer::{back_search_start, search_skip, search_start, visible};
use crate::state::table_cursor::{self, in_range, spec_clamp, spec_next, spec_prev};
use crate::text::{owned, str_eq, views};

verus! {

/// One row of the tree.
#[derive(Debug)]
pub struct TreeNode {
    pub path: String,
    pub name: String,
    pub depth: usize,
    pub is_dir: bool,
    pub expanded: bool,
}

/// `n` is the row of the listed file `f` at `depth`, closed.
pub open spec fn node_matches(n: TreeNode, f: VFile, depth: nat) -> bool {
    &&& n.path@ == f.path@
    &&& n.name@ == name_of(f)
    &&& n.depth == depth
    &&& n.is_dir == (f.metadata matches Some(m) && m.kind == crate::fs::file::FileKind::Directory)
    &&& !n.expanded
}

/// `rows` are the rows of a listing `files` at `depth`: dot files only when
/// shown, sorted by name.
pub open spec fn listing_rows(files: Seq<VFile>, show_dot_file: bool, depth: nat, rows: Seq<TreeNode>) -> bool {
    exists|sorted: Seq<VFile>| {
        &&& files_sorted(sorted, crate::state::SortKey::Name)
        &&& #[trigger] sorted.to_multiset() == visible(files, show_dot_file).to_multiset()
        &&& rows.len() == sorted.len()
        &&& forall|j: int| 0 <= j < rows.len() ==> node_matches(#[trigger] rows[j], sorted[j], depth)
    }
}

/// `rows` are what one call of `list` on `path` gave: the rows of its
/// listing, or none where it failed.
pub open spec fn rows_listed<L: Fn(&str) -> Result<Vec<VFile>, String>>(list: L, path: Seq<char>, show_dot_file: bool, depth: nat, rows: Seq<TreeNode>) -> bool {
    exists|s: &str, res: Result<Vec<VFile>, String>| s@ == path && #[trigger] call_ensures(list, (s,), res) && match res {
        Ok(fs) => listing_rows(fs@, show_dot_file, depth, rows),
        Err(_) => rows.len() == 0,
    }
}

/// The rows with row `i` opened onto `rows`.
pub open spec fn expansion(nodes: Seq<TreeNode>, i: int, rows: Seq<TreeNode>) -> Seq<TreeNode> {
    nodes.subrange(0, i).push(TreeNode { expanded: rows.len() > 0, ..nodes[i] }) + rows + nodes.subrange(i + 1, nodes.len() as int)
}

/// The rows below row `i` that belong to it: the first row after it that is
/// not deeper ends them.
pub open spec fn subtree_end(nodes: Seq<TreeNode>, i: int, e: int) -> bool {
    &&& i < e <= nodes.len()
    &&& forall|j: int| i < j < e ==> (#[trigger] nodes[j]).depth > nodes[i].depth
    &&& e < nodes.len() ==> nodes[e].depth <= nodes[i].depth
}

/// Closing a directory that was just opened gives the rows back as they
/// were: the opened rows (one level deeper) are exactly what closing takes
/// away, given that the closed directory had no rows below it.
pub proof fn lemma_expand_then_collapse(nodes: Seq<TreeNode>, i: int, rows: Seq<TreeNode>, e: int)
    requires
        0 <= i < nodes.len(),
        !nodes[i].expanded,
        rows.len() > 0,
        forall|j: int| 0 <= j < rows.len() ==> (#[trigger] rows[j]).depth == nodes[i].depth + 1,
        i + 1 < nodes.len() ==> nodes[i + 1].depth <= nodes[i].depth,
        subtree_end(expansion(nodes, i, rows), i, e),
    ensures
        e == i + 1 + rows.len(),
        expansion(nodes, i, rows).subrange(0, i).push(TreeNode { expanded: false, ..expansion(nodes, i, rows)[i] })
            + expansion(nodes, i, rows).subrange(e, expansion(nodes, i, rows).len() as int) == nodes,
{
    let ex = expansion(nodes, i, rows);
    let end = i + 1 + rows.len();
    assert(ex.len() == nodes.len() + rows.len());
    assert(ex[i] == TreeNode { expanded: true, ..nodes[i] });
    assert forall|j: int| i < j < end implies #[trigger] ex[j] == rows[j - i - 1] by {}
    if e < end {
        assert(ex[e] == rows[e - i - 1]);
        assert(ex[e].depth > ex[i].depth);
    }
    if e > end {
        assert(ex[end] == nodes[i + 1]);
        assert(ex[end].depth > ex[i].depth);
    }
    assert(e == end);
    let back = ex.subrange(0, i).push(TreeNode { expanded: false, ..ex[i] }) + ex.subrange(e, ex.len() as int);
    assert(TreeNode { expanded: false, ..ex[i] } == nodes[i]);
    assert forall|j: int| 0 <= j < nodes.len() implies #[trigger] back[j] == nodes[j] by {
        if j > i {
            assert(back[j] == ex[j + rows.len()]);
        }
    }
    assert(back =~= nodes);
}

/// The directory a tree around `path` lists: the one holding it (the root
/// lists itself).
pub open spec fn tree_root(path: Seq<char>) -> Seq<char> {
    match crate::path::spec_parent(path) {
        Some(q) => q,
        None => path,
    }
}

/// The names of the rows, in order.
pub open spec fn node_names(nodes: Seq<TreeNode>) -> Seq<Seq<char>> {
    Seq::new(nodes.len(), |i: int| nodes[i].name@)
}

pub struct TreeState {
    pub flat_nodes: Vec<TreeNode>,
    pub selected: Option<usize>,
    pub show_dot_file: bool,
}

/// The listing of `dir` as rows at `depth`: dot files only when shown,
/// sorted by name. A listing that fails gives no rows.
fn list_nodes<L: Fn(&str) -> Result<Vec<VFile>, String>>(dir: &str, depth: usize, show_dot_file: bool, list: &L) -> (r: Vec<TreeNode>)
    requires
        forall|s: &str| call_requires(*list, (s,)),
    ensures
        exists|res: Result<Vec<VFile>, String>| call_ensures(*list, (dir,), res) && match res {
            Ok(fs) => listing_rows(fs@, show_dot_file, depth as nat, r@),
            Err(_) => r@.len() == 0,
        },
{
    let res = list(dir);
    let ghost gres = res;
    let files = match res {
        Ok(fs) => fs,
        Err(_) => {
            return Vec::new();
        },
    };
    let kept = crate::state::filer::visible_files(files, show_dot_file);
    let sorted = sort_files(kept, crate::state::SortKey::Name);
    let mut out: Vec<TreeNode> = Vec::new();
    let mut i: usize = 0;
    while i < sorted.len()
        invariant
            i <= sorted@.len(),
            out@.len() == i,
            forall|j: int| 0 <= j < i ==> node_matches(#[trigger] out@[j], sorted@[j], depth as nat),
        decreases sorted@.len() - i,
    {
        let f = &sorted[i];
        out.push(TreeNode {
            path: owned(f.absolute_path()),
            name: name_of_exec(f),
            depth,
            is_dir: f.is_dir(),
            expanded: false,
        });
        i += 1;
    }
    assert(listing_rows(gres->Ok_0@, show_dot_file, depth as nat, out@));
    out
}

impl TreeState {
    pub open spec fn wf(&self) -> bool {
        in_range(self.selected, self.flat_nodes@.len())
    }

    /// The tree around `current_path`: the entries of the directory that
    /// holds it, the row of `current_path` selected (the first row when it
    /// is not listed).
    pub fn new<L: Fn(&str) -> Result<Vec<VFile>, String>>(current_path: &str, show_dot_file: bool, list: &L) -> (r: TreeState)
        requires
            forall|s: &str| call_requires(*list, (s,)),
        ensures
            r.wf(),
            r.show_dot_file == show_dot_file,
            rows_listed(*list, tree_root(current_path@), show_dot_file, 0, r.flat_nodes@),
            forall|j: int| 0 <= j < r.flat_nodes@.len() ==> (#[trigger] r.flat_nodes@[j]).depth == 0,
            r.flat_nodes@.len() > 0 ==> r.selected is Some,
            r.selected matches Some(i) ==> (r.flat_nodes@[i as int].path@ == current_path@ || (i == 0
                && forall|j: int| 0 <= j < r.flat_nodes@.len() ==> (#[trigger] r.flat_nodes@[j]).path@ != current_path@)),
    {
        let root = match crate::path::parent(current_path) {
            Some(p) => p,
            None => owned(current_path),
        };
        let nodes = list_nodes(root.as_str(), 0, show_dot_file, list);
        assert(rows_listed(*list, tree_root(current_path@), show_dot_file, 0, nodes@));
        let mut k: usize = 0;
        while k < nodes.len() && !str_eq(nodes[k].path.as_str(), current_path)
            invariant
                k <= nodes@.len(),
                forall|j: int| 0 <= j < k ==> (#[trigger] nodes@[j]).path@ != current_path@,
            decreases nodes@.len() - k,
        {
            k += 1;
        }
        let selected = if k < nodes.len() { Some(k) } else { table_cursor::first(nodes.len()) };
        TreeState { flat_nodes: nodes, selected, show_dot_file }
    }

    pub fn prev(&mut self)
        ensures
            final(self).flat_nodes == old(self).flat_nodes,
            final(self).show_dot_file == old(self).show_dot_file,
            final(self).selected == spec_prev(old(self).selected, old(self).flat_nodes@.len()),
            final(self).wf(),
    {
        self.selected = table_cursor::prev(self.selected, self.flat_nodes.len());
    }

    pub fn next(&mut self)
        ensures
            final(self).flat_nodes == old(self).flat_nodes,
            final(self).show_dot_file == old(self).show_dot_file,
            final(self).selected == spec_next(old(self).selected, old(self).flat_nodes@.len()),
            final(self).wf(),
    {
        self.selected = table_cursor::next(self.selected, self.flat_nodes.len());
    }

    pub fn selected_index(&self) -> (r: Option<usize>)
        ensures
            r == self.selected,
    {
        self.selected
    }

    /// Selects row `index`, kept inside the tree.
    pub fn select_index(&mut self, index: Option<usize>)
        ensures
            final(self).flat_nodes == old(self).flat_nodes,
            final(self).show_dot_file == old(self).show_dot_file,
            final(self).selected == spec_clamp(index, old(self).flat_nodes@.len()),
            final(self).wf(),
    {
        self.selected = table_cursor::clamp(index, self.flat_nodes.len());
    }

    /// The path of the selected row.
    pub fn selected_path(&self) -> (r: Option<&str>)
        requires
            self.wf(),
        ensures
            match self.selected {
                Some(i) => r matches Some(p) && p@ == self.flat_nodes@[i as int].path@,
                None => r is None,
            },
    {
        match self.selected {
            Some(i) => Some(self.flat_nodes[i].path.as_str()),
            None => None,
        }
    }

    /// Opens the selected directory: its entries, one level deeper, come
    /// right below it. A file, an open directory, or a directory that cannot
    /// be listed stays as it is.
    pub fn expand_selected<L: Fn(&str) -> Result<Vec<VFile>, String>>(&mut self, list: &L)
        requires
            old(self).wf(),
            forall|s: &str| call_requires(*list, (s,)),
        ensures
            final(self).wf(),
            final(self).selected == old(self).selected,
            final(self).show_dot_file == old(self).show_dot_file,
            match old(self).selected {
                Some(i) => {
                    let n = old(self).flat_nodes@[i as int];
                    if n.is_dir && !n.expanded && n.depth < usize::MAX {
                        exists|rows: Seq<TreeNode>| #[trigger] rows_listed(*list, n.path@, old(self).show_dot_file, (n.depth + 1) as nat, rows)
                            && final(self).flat_nodes@ == expansion(old(self).flat_nodes@, i as int, rows)
                    } else {
                        final(self).flat_nodes@ == old(self).flat_nodes@
                    }
                },
                None => final(self).flat_nodes@ == old(self).flat_nodes@,
            },
    {
        let i = match self.selected {
            Some(i) => i,
            None => {
                return;
            },
        };
        if !self.flat_nodes[i].is_dir || self.flat_nodes[i].expanded || self.flat_nodes[i].depth == usize::MAX {
            return;
        }
        let depth = self.flat_nodes[i].depth + 1;
        let children = list_nodes(self.flat_nodes[i].path.as_str(), depth, self.show_dot_file, list);
        let ghost old_nodes = self.flat_nodes@;
        let ghost kids = children@;
        if children.len() == 0 {
            proof {
                assert(old_nodes =~= expansion(old_nodes, i as int, kids));
                assert(rows_listed(*list, old_nodes[i as int].path@, self.show_dot_file, depth as nat, kids));
                assert(rows_listed(*list, old_nodes[i as int].path@, old(self).show_dot_file, (old_nodes[i as int].depth + 1) as nat, kids));
            }
            return;
        }
        let len = self.flat_nodes.len();
        assert(i < len);
        let mut rest = self.flat_nodes.split_off(i + 1);
        let mut node = self.flat_nodes.pop().unwrap();
        node.expanded = true;
        self.flat_nodes.push(node);
        let mut children = children;
        self.flat_nodes.append(&mut children);
        self.flat_nodes.append(&mut rest);
        proof {
            assert(self.flat_nodes@ =~= expansion(old_nodes, i as int, kids));
            assert(rows_listed(*list, old_nodes[i as int].path@, self.show_dot_file, depth as nat, kids));
            assert(rows_listed(*list, old_nodes[i as int].path@, old(self).show_dot_file, (old_nodes[i as int].depth + 1) as nat, kids));
        }
    }

    /// Closes the selected directory, taking its open rows away; on a row
    /// that is not an open directory, goes to the directory above it.
    pub fn collapse_selected(&mut self)
        requires
            old(self).wf(),
        ensures
            final(self).wf(),
            final(self).show_dot_file == old(self).show_dot_file,
            match old(self).selected {
                Some(i) => {
                    let n = old(self).flat_nodes@[i as int];
                    if n.is_dir && n.expanded {
                        final(self).selected == old(self).selected
                        && exists|e: int| subtree_end(old(self).flat_nodes@, i as int, e)
                            && final(self).flat_nodes@ == old(self).flat_nodes@.subrange(0, i as int)
                                .push(TreeNode { expanded: false, ..n })
                                + old(self).flat_nodes@.subrange(e, old(self).flat_nodes@.len() as int)
                    } else {
                        final(self).flat_nodes@ == old(self).flat_nodes@
                        && (n.depth > 0 && (exists|p: int| 0 <= p < i && (#[trigger] old(self).flat_nodes@[p]).depth < n.depth) ==> (
                            final(self).selected matches Some(p) && p < i && old(self).flat_nodes@[p as int].depth < n.depth
                            && forall|q: int| p < q < i ==> (#[trigger] old(self).flat_nodes@[q]).depth >= n.depth))
                        && (!(n.depth > 0 && (exists|p: int| 0 <= p < i && (#[trigger] old(self).flat_nodes@[p]).depth < n.depth))
                            ==> final(self).selected == old(self).selected)
                    }
                },
                None => *final(self) == *old(self),
            },
    {
        let i = match self.selected {
            Some(i) => i,
            None => {
                return;
            },
        };
        let depth = self.flat_nodes[i].depth;
        if self.flat_nodes[i].is_dir && self.flat_nodes[i].expanded {
            let len = self.flat_nodes.len();
            let mut e = i + 1;
            while e < self.flat_nodes.len() && self.flat_nodes[e].depth > depth
                invariant
                    i < e <= self.flat_nodes@.len(),
                    depth == self.flat_nodes@[i as int].depth,
                    forall|j: int| i < j < e ==> (#[trigger] self.flat_nodes@[j]).depth > depth,
                decreases self.flat_nodes@.len() - e,
            {
                e += 1;
            }
            let ghost old_nodes = self.flat_nodes@;
            assert(subtree_end(old_nodes, i as int, e as int));
            let mut rest = self.flat_nodes.split_off(e);
            self.flat_nodes.truncate(i + 1);
            let mut node = self.flat_nodes.pop().unwrap();
            node.expanded = false;
            self.flat_nodes.push(node);
            self.flat_nodes.append(&mut rest);
            proof {
                let n = old_nodes[i as int];
                assert(self.flat_nodes@ =~= old_nodes.subrange(0, i as int).push(TreeNode { expanded: false, ..n })
                    + old_nodes.subrange(e as int, old_nodes.len() as int));
            }
            return;
        }
        if depth == 0 {
            proof {
                assert(!(exists|p: int| 0 <= p < i && (#[trigger] self.flat_nodes@[p]).depth < depth));
            }
            return;
        }
        let mut p = i;
        while p > 0 && self.flat_nodes[p - 1].depth >= depth
            invariant
                p <= i,
                i < self.flat_nodes@.len(),
                depth == self.flat_nodes@[i as int].depth,
                forall|q: int| p <= q < i ==> (#[trigger] self.flat_nodes@[q]).depth >= depth,
            decreases p,
        {
            p -= 1;
        }
        if p > 0 {
            self.selected = Some(p - 1);
        } else {
            assert(!(exists|q: int| 0 <= q < i && (#[trigger] self.flat_nodes@[q]).depth < depth));
        }
    }

    /// Search as in the file list: from the selected row on, going round.
    pub fn select_matching(&mut self, query: &str)
        requires
            old(self).wf(),
        ensures
            final(self).wf(),
            final(self).flat_nodes == old(self).flat_nodes,
            none_match(node_names(old(self).flat_nodes@), query@) ==> final(self).selected == old(self).selected,
            !none_match(node_names(old(self).flat_nodes@), query@) ==> exists|k: int|
                #[trigger] first_forward(node_names(old(self).flat_nodes@), query@, search_start(old(self).selected), 0, k)
                && final(self).selected == Some(fwd(search_start(old(self).selected), k, old(self).flat_nodes@.len() as int) as usize),
    {
        self.search(query, false, false);
    }

    pub fn select_next_matching(&mut self, query: &str)
        requires
            old(self).wf(),
        ensures
            final(self).wf(),
            final(self).flat_nodes == old(self).flat_nodes,
            none_match(node_names(old(self).flat_nodes@), query@) ==> final(self).selected == old(self).selected,
            !none_match(node_names(old(self).flat_nodes@), query@) ==> exists|k: int|
                #[trigger] first_forward(node_names(old(self).flat_nodes@), query@, search_start(old(self).selected), search_skip(old(self).selected), k)
                && final(self).selected == Some(fwd(search_start(old(self).selected), k, old(self).flat_nodes@.len() as int) as usize),
    {
        self.search(query, true, false);
    }

    pub fn select_prev_matching(&mut self, query: &str)
        requires
            old(self).wf(),
        ensures
            final(self).wf(),
            final(self).flat_nodes == old(self).flat_nodes,
            none_match(node_names(old(self).flat_nodes@), query@) ==> final(self).selected == old(self).selected,
            !none_match(node_names(old(self).flat_nodes@), query@) ==> exists|k: int|
                #[trigger] first_backward(node_names(old(self).flat_nodes@), query@,
                    back_search_start(old(self).selected, old(self).flat_nodes@.len()), search_skip(old(self).selected), k)
                && final(self).selected == Some(bwd(back_search_start(old(self).selected, old(self).flat_nodes@.len()), k,
                    old(self).flat_nodes@.len() as int) as usize),
    {
        self.search(query, true, true);
    }

    fn search(&mut self, query: &str, skip: bool, backward: bool)
        requires
            old(self).wf(),
        ensures
            final(self).wf(),
            final(self).flat_nodes == old(self).flat_nodes,
            none_match(node_names(old(self).flat_nodes@), query@) ==> final(self).selected == old(self).selected,
            !backward && !skip && !none_match(node_names(old(self).flat_nodes@), query@) ==> exists|k: int|
                #[trigger] first_forward(node_names(old(self).flat_nodes@), query@, search_start(old(self).selected), 0, k)
                && final(self).selected == Some(fwd(search_start(old(self).selected), k, old(self).flat_nodes@.len() as int) as usize),
            !backward && skip && !none_match(node_names(old(self).flat_nodes@), query@) ==> exists|k: int|
                #[trigger] first_forward(node_names(old(self).flat_nodes@), query@, search_start(old(self).selected), search_skip(old(self).selected), k)
                && final(self).selected == Some(fwd(search_start(old(self).selected), k, old(self).flat_nodes@.len() as int) as usize),
            backward && skip && !none_match(node_names(old(self).flat_nodes@), query@) ==> exists|k: int|
                #[trigger] first_backward(node_names(old(self).flat_nodes@), query@,
                    back_search_start(old(self).selected, old(self).flat_nodes@.len()), search_skip(old(self).selected), k)
                && final(self).selected == Some(bwd(back_search_start(old(self).selected, old(self).flat_nodes@.len()), k,
                    old(self).flat_nodes@.len() as int) as usize),
    {
        let len = self.flat_nodes.len();
        if len == 0 {
            return;
        }
        let mut names: Vec<String> = Vec::new();
        let mut j: usize = 0;
        while j < len
            invariant
                len == self.flat_nodes@.len(),
                j <= len,
                names@.len() == j,
                forall|t: int| 0 <= t < j ==> (#[trigger] names@[t])@ == self.flat_nodes@[t].name@,
            decreases len - j,
        {
            names.push(self.flat_nodes[j].name.clone());
            j += 1;
        }
        assert(views(names@) =~= node_names(self.flat_nodes@));
        let (start, k0) = match self.selected {
            Some(s) => (s, if skip { 1 } else { 0 }),
            None => (if backward { len - 1 } else { 0 }, 0),
        };
        if backward {
            match find_backward(&names, query, start, k0) {
                Some(i) => {
                    proof {
                        let k = choose|k: int| first_backward(views(names@), query@, start as int, k0 as int, k)
                            && i == bwd(start as int, k, names@.len() as int);
                        if skip {
                            assert(first_backward(node_names(self.flat_nodes@), query@,
                                back_search_start(self.selected, self.flat_nodes@.len()), search_skip(self.selected), k));
                        }
                    }
                    self.selected = Some(i);
                },
                None => {},
            }
        } else {
            match find_forward(&names, query, start, k0) {
                Some(i) => {
                    proof {
                        let k = choose|k: int| first_forward(views(names@), query@, start as int, k0 as int, k)
                            && i == fwd(start as int, k, names@.len() as int);
                        if skip {
                            assert(first_forward(node_names(self.flat_nodes@), query@, search_start(self.selected), search_skip(self.selected), k));
                        } else {
                            assert(first_forward(node_names(self.flat_nodes@), query@, search_start(self.selected), 0, k));
                        }
                    }
                    self.selected = Some(i);
                },
                None => {},
            }
        }
    }
}

} // verus!
