//! A read-only snapshot of the compositor's node tree.
//!
//! Nodes are stored in pre-order (tiling children before floating children),
//! each with its depth; the subtree of a node is the run of nodes that follows
//! it with a greater depth.
use vstd::prelude::*;

verus! {

/// What a node is in the compositor's tree.
#[derive(Clone, Copy, Debug, PartialEq, Eq, Structural)]
pub enum NodeKind {
    Root,
    Output,
    Workspace,
    Con,
    FloatingCon,
    Dockarea,
}

/// How a container arranges its children.
#[derive(Clone, Copy, Debug, PartialEq, Eq, Structural)]
pub enum NodeLayout {
    SplitH,
    SplitV,
    Stacked,
    Tabbed,
    Output,
    Dockarea,
    Unset,
}

/// One node of a snapshot, with the properties the engines read.
#[derive(Clone, Copy, Debug, PartialEq, Eq, Structural)]
pub struct NodeInfo {
    pub id: i64,
    pub kind: NodeKind,
    pub layout: NodeLayout,
    pub width: i32,
    pub height: i32,
    pub focused: bool,
    pub visible: bool,
    pub fullscreen: bool,
    /// The node shows an application window.
    pub window: bool,
    /// Workspace number, for workspace nodes.
    pub num: Option<i32>,
    /// Distance from the root.
    pub depth: usize,
}

/// A snapshot: nodes in pre-order.
pub struct Tree {
    pub nodes: Vec<NodeInfo>,
}

/// A sequence of nodes whose depths could come from a pre-order walk.
pub open spec fn depths_ok(s: Seq<NodeInfo>) -> bool {
    &&& (s.len() > 0 ==> s[0].depth == 0)
    &&& forall|i: int| 0 < i < s.len() ==> #[trigger] s[i].depth <= s[i - 1].depth + 1
}

impl View for Tree {
    type V = Seq<NodeInfo>;

    open spec fn view(&self) -> Seq<NodeInfo> {
        self.nodes@
    }
}

/// `j` lies in the subtree rooted at `a` (`a` itself included).
pub open spec fn in_subtree(s: Seq<NodeInfo>, a: int, j: int) -> bool {
    &&& 0 <= a <= j < s.len()
    &&& forall|k: int| a < k <= j ==> #[trigger] s[k].depth > s[a].depth
}

/// `a` is a proper ancestor of `j`.
pub open spec fn ancestor(s: Seq<NodeInfo>, a: int, j: int) -> bool {
    a < j && in_subtree(s, a, j)
}

/// `c` is a direct child of `p`.
pub open spec fn child_of(s: Seq<NodeInfo>, p: int, c: int) -> bool {
    ancestor(s, p, c) && s[c].depth == s[p].depth + 1
}

/// `i` is the first node, in pre-order, whose id is `id`.
pub open spec fn first_with_id(s: Seq<NodeInfo>, id: i64, i: int) -> bool {
    &&& 0 <= i < s.len()
    &&& s[i].id == id
    &&& forall|k: int| 0 <= k < i ==> #[trigger] s[k].id != id
}

/// The index of the first node with the given id.
pub open spec fn index_of(s: Seq<NodeInfo>, id: i64) -> Option<int> {
    if exists|i: int| first_with_id(s, id, i) {
        Some(choose|i: int| first_with_id(s, id, i))
    } else {
        None
    }
}

/// `a` is the nearest proper ancestor of `j`.
pub open spec fn is_parent(s: Seq<NodeInfo>, a: int, j: int) -> bool {
    ancestor(s, a, j) && forall|b: int| a < b < j ==> !#[trigger] ancestor(s, b, j)
}

/// The parent of node `j`, if it has one.
pub open spec fn parent_of(s: Seq<NodeInfo>, j: int) -> Option<int> {
    if exists|a: int| is_parent(s, a, j) {
        Some(choose|a: int| is_parent(s, a, j))
    } else {
        None
    }
}

/// `a` is the nearest proper ancestor of `j` of the given kind.
pub open spec fn is_nearest_of_kind(s: Seq<NodeInfo>, a: int, j: int, k: NodeKind) -> bool {
    &&& ancestor(s, a, j)
    &&& s[a].kind == k
    &&& forall|b: int| a < b < j && #[trigger] ancestor(s, b, j) ==> s[b].kind != k
}

/// The nearest proper ancestor of node `j` of the given kind, if any.
pub open spec fn nearest_of_kind(s: Seq<NodeInfo>, j: int, k: NodeKind) -> Option<int> {
    if exists|a: int| is_nearest_of_kind(s, a, j, k) {
        Some(choose|a: int| is_nearest_of_kind(s, a, j, k))
    } else {
        None
    }
}

/// The nearest workspace node above node `j`, if any.
pub open spec fn workspace_node_of(s: Seq<NodeInfo>, j: int) -> Option<int> {
    nearest_of_kind(s, j, NodeKind::Workspace)
}

/// `i` is the first node, in pre-order, with the property.
pub open spec fn is_first_match(s: Seq<NodeInfo>, p: Probe, i: int) -> bool {
    &&& 0 <= i < s.len()
    &&& probe_holds(s[i], p)
    &&& forall|k: int| 0 <= k < i ==> !probe_holds(#[trigger] s[k], p)
}

/// The first node, in pre-order, with the property.
pub open spec fn first_match(s: Seq<NodeInfo>, p: Probe) -> Option<int> {
    if exists|i: int| is_first_match(s, p, i) {
        Some(choose|i: int| is_first_match(s, p, i))
    } else {
        None
    }
}

pub open spec fn opt_int(o: Option<usize>) -> Option<int> {
    match o {
        Some(i) => Some(i as int),
        None => None,
    }
}

/// Ids of the listed nodes.
pub open spec fn ids_of(t: Seq<NodeInfo>, v: Seq<usize>) -> Seq<i64> {
    Seq::new(v.len(), |i: int| t[v[i] as int].id)
}

/// A property of a node that a subtree search looks for.
#[derive(Clone, Copy, Debug, PartialEq, Eq, Structural)]
pub enum Probe {
    /// The node has this id.
    Id(i64),
    /// The node is a focused window.
    FocusedWindow,
    /// The node is a visible window.
    VisibleWindow,
    /// The node is the workspace with this number.
    WorkspaceNum(i32),
}

pub open spec fn probe_holds(n: NodeInfo, p: Probe) -> bool {
    match p {
        Probe::Id(id) => n.id == id,
        Probe::FocusedWindow => n.window && n.focused,
        Probe::VisibleWindow => n.window && n.visible,
        Probe::WorkspaceNum(k) => n.kind == NodeKind::Workspace && n.num == Some(k),
    }
}

/// `k` is the first node of the subtree of `a`, in pre-order, with the property.
pub open spec fn first_in_subtree(s: Seq<NodeInfo>, a: int, p: Probe, k: int) -> bool {
    &&& in_subtree(s, a, k)
    &&& probe_holds(s[k], p)
    &&& forall|m: int| a <= m < k ==> !probe_holds(#[trigger] s[m], p)
}

/// The first node of the subtree of `a` with the property, if any.
pub open spec fn find_in_subtree(s: Seq<NodeInfo>, a: int, p: Probe) -> Option<int> {
    if exists|k: int| first_in_subtree(s, a, p, k) {
        Some(choose|k: int| first_in_subtree(s, a, p, k))
    } else {
        None
    }
}

/// How many of the listed nodes have the property.
pub open spec fn count_probe(s: Seq<NodeInfo>, v: Seq<usize>, p: Probe) -> nat
    decreases v.len(),
{
    if v.len() == 0 {
        0
    } else {
        count_probe(s, v.drop_last(), p) + if probe_holds(s[v.last() as int], p) {
            1nat
        } else {
            0nat
        }
    }
}

/// `v` lists, in increasing order, exactly the indices `k` in `[lo, hi)` with `p(k)`.
pub open spec fn enumerates(v: Seq<usize>, lo: int, hi: int, p: spec_fn(int) -> bool) -> bool {
    &&& forall|a: int, b: int| 0 <= a < b < v.len() ==> v[a] < v[b]
    &&& forall|a: int| 0 <= a < v.len() ==> lo <= #[trigger] v[a] < hi && p(v[a] as int)
    &&& forall|k: int| lo <= k < hi && #[trigger] p(k) ==> exists|a: int| 0 <= a < v.len() && v[a] == k
}

pub proof fn lemma_enumerates_empty(hi: int, p: spec_fn(int) -> bool)
    requires
        forall|k: int| 0 <= k < hi ==> !#[trigger] p(k),
    ensures
        enumerates(Seq::empty(), 0, hi, p),
{
}

/// Extending an enumeration of `[0, k)` by index `k`.
pub proof fn lemma_enumerates_step(v: Seq<usize>, k: int, p: spec_fn(int) -> bool)
    requires
        enumerates(v, 0, k, p),
        0 <= k <= usize::MAX,
    ensures
        p(k) ==> enumerates(v.push(k as usize), 0, k + 1, p),
        !p(k) ==> enumerates(v, 0, k + 1, p),
{
    if p(k) {
        let w = v.push(k as usize);
        assert(w[v.len() as int] == k);
        assert forall|j: int| 0 <= j < k + 1 && #[trigger] p(j) implies exists|a: int|
            0 <= a < w.len() && w[a] == j by {
            if j < k {
                let a = choose|a: int| 0 <= a < v.len() && v[a] == j;
                assert(w[a] == j);
            } else {
                assert(w[v.len() as int] == j);
            }
        }
    }
}

proof fn lemma_enumerates_agree(v1: Seq<usize>, v2: Seq<usize>, lo: int, hi: int, p: spec_fn(int) -> bool, n: int)
    requires
        enumerates(v1, lo, hi, p),
        enumerates(v2, lo, hi, p),
        0 <= n <= v1.len(),
        n <= v2.len(),
    ensures
        forall|b: int| 0 <= b < n ==> v1[b] == v2[b],
    decreases n,
{
    if n > 0 {
        lemma_enumerates_agree(v1, v2, lo, hi, p, n - 1);
        let a = n - 1;
        assert(p(v1[a] as int));
        assert(p(v2[a] as int));
        let c = choose|c: int| 0 <= c < v2.len() && v2[c] == v1[a];
        let d = choose|d: int| 0 <= d < v1.len() && v1[d] == v2[a];
        if c < a {
            assert(v1[c] == v2[c]);
        } else if c > a {
            assert(v2[a] < v2[c]);
            if d < a {
                assert(v1[d] == v2[d]);
            } else if d > a {
                assert(v1[a] < v1[d]);
            }
        }
    }
}

/// An enumeration of a range by a predicate is unique.
pub proof fn lemma_enumerates_unique(v1: Seq<usize>, v2: Seq<usize>, lo: int, hi: int, p: spec_fn(int) -> bool)
    requires
        enumerates(v1, lo, hi, p),
        enumerates(v2, lo, hi, p),
    ensures
        v1 == v2,
{
    if v1.len() > v2.len() {
        let n = v2.len() as int;
        lemma_enumerates_agree(v1, v2, lo, hi, p, n);
        assert(p(v1[n] as int));
        let c = choose|c: int| 0 <= c < v2.len() && v2[c] == v1[n];
        assert(v1[c] == v2[c]);
    } else if v2.len() > v1.len() {
        let n = v1.len() as int;
        lemma_enumerates_agree(v1, v2, lo, hi, p, n);
        assert(p(v2[n] as int));
        let c = choose|c: int| 0 <= c < v1.len() && v1[c] == v2[n];
        assert(v1[c] == v2[c]);
    } else {
        lemma_enumerates_agree(v1, v2, lo, hi, p, v1.len() as int);
    }
    assert(v1 =~= v2);
}

/// The direct children of `p`, in order.
pub open spec fn children_of(s: Seq<NodeInfo>, p: int) -> Seq<usize> {
    choose|v: Seq<usize>| is_children(s, p, v)
}

/// The window nodes of the subtree of `a`, in pre-order.
pub open spec fn windows_of(s: Seq<NodeInfo>, a: int) -> Seq<usize> {
    choose|v: Seq<usize>| is_subtree_windows(s, a, v)
}

/// The direct children of `p`, in order.
pub open spec fn is_children(s: Seq<NodeInfo>, p: int, v: Seq<usize>) -> bool {
    enumerates(v, 0, s.len() as int, |c: int| child_of(s, p, c))
}

/// The window nodes of the subtree of `a`, in pre-order.
pub open spec fn is_subtree_windows(s: Seq<NodeInfo>, a: int, v: Seq<usize>) -> bool {
    enumerates(v, 0, s.len() as int, |j: int| in_subtree(s, a, j) && s[j].window)
}

impl Tree {
    /// An empty snapshot.
    pub fn new() -> (r: Tree)
        ensures
            r@ == Seq::<NodeInfo>::empty(),
            r.wf(),
    {
        Tree { nodes: Vec::new() }
    }

    pub open spec fn wf(&self) -> bool {
        depths_ok(self@)
    }

    /// Appends the next node of a pre-order walk. Returns `false`, leaving
    /// the snapshot as it was, when its depth cannot follow the last node.
    pub fn push(&mut self, node: NodeInfo) -> (r: bool)
        requires
            old(self).wf(),
        ensures
            final(self).wf(),
            r == (if old(self)@.len() == 0 {
                node.depth == 0
            } else {
                node.depth <= old(self)@.last().depth + 1
            }),
            r ==> final(self)@ == old(self)@.push(node),
            !r ==> final(self)@ == old(self)@,
    {
        let n = self.nodes.len();
        let ok = if n == 0 {
            node.depth == 0
        } else {
            node.depth <= self.nodes[n - 1].depth || node.depth - 1 == self.nodes[n - 1].depth
        };
        if ok {
            self.nodes.push(node);
        }
        ok
    }

    /// Number of nodes.
    pub fn len(&self) -> (r: usize)
        ensures
            r == self@.len(),
    {
        self.nodes.len()
    }

    /// Index of the first node, in pre-order, with the given id.
    pub fn find_by_id(&self, id: i64) -> (r: Option<usize>)
        ensures
            match r {
                Some(i) => first_with_id(self@, id, i as int),
                None => forall|k: int| 0 <= k < self@.len() ==> #[trigger] self@[k].id != id,
            },
            opt_int(r) == index_of(self@, id),
    {
        let mut i: usize = 0;
        while i < self.nodes.len()
            invariant
                i <= self@.len(),
                forall|k: int| 0 <= k < i ==> #[trigger] self@[k].id != id,
            decreases self@.len() - i,
        {
            if self.nodes[i].id == id {
                proof {
                    assert(first_with_id(self@, id, i as int));
                    let c = choose|c: int| first_with_id(self@, id, c);
                    if c < i {
                    } else if c > i {
                        assert(self@[i as int].id != id);
                    }
                }
                return Some(i);
            }
            i = i + 1;
        }
        None
    }
    /// The nearest proper ancestor of node `j`.
    pub fn parent(&self, j: usize) -> (r: Option<usize>)
        requires
            j < self@.len(),
        ensures
            match r {
                Some(a) => ancestor(self@, a as int, j as int) && forall|b: int|
                    a < b < j ==> !#[trigger] ancestor(self@, b, j as int),
                None => forall|b: int| 0 <= b < j ==> !#[trigger] ancestor(self@, b, j as int),
            },
            opt_int(r) == parent_of(self@, j as int),
    {
        let d = self.nodes[j].depth;
        let mut k: usize = j;
        while k > 0
            invariant
                k <= j < self@.len(),
                d == self@[j as int].depth,
                forall|x: int| k <= x <= j ==> #[trigger] self@[x].depth >= d,
            decreases k,
        {
            k = k - 1;
            if self.nodes[k].depth < d {
                assert forall|b: int| k < b < j implies !#[trigger] ancestor(self@, b, j as int) by {
                    assert(self@[j as int].depth <= self@[b].depth);
                }
                proof {
                    assert(is_parent(self@, k as int, j as int));
                    let c = choose|c: int| is_parent(self@, c, j as int);
                    if c < k {
                        assert(ancestor(self@, k as int, j as int));
                    } else if c > k {
                        assert(ancestor(self@, c, j as int));
                    }
                }
                return Some(k);
            }
        }
        assert forall|b: int| 0 <= b < j implies !#[trigger] ancestor(self@, b, j as int) by {
            assert(self@[j as int].depth <= self@[b].depth);
        }
        None
    }

    /// The nearest proper ancestor of node `j` of the given kind.
    pub fn nearest_of_kind(&self, j: usize, kind: NodeKind) -> (r: Option<usize>)
        requires
            j < self@.len(),
        ensures
            match r {
                Some(a) => {
                    &&& ancestor(self@, a as int, j as int)
                    &&& self@[a as int].kind == kind
                    &&& forall|b: int|
                        a < b < j && #[trigger] ancestor(self@, b, j as int) ==> self@[b].kind
                            != kind
                },
                None => forall|b: int|
                    0 <= b < j && #[trigger] ancestor(self@, b, j as int) ==> self@[b].kind
                        != kind,
            },
            opt_int(r) == nearest_of_kind(self@, j as int, kind),
    {
        let mut m: usize = self.nodes[j].depth;
        let mut k: usize = j;
        while k > 0
            invariant
                k <= j < self@.len(),
                forall|x: int| k <= x <= j ==> #[trigger] self@[x].depth >= m,
                exists|x: int| k <= x <= j && #[trigger] self@[x].depth == m,
                forall|b: int|
                    k <= b < j && #[trigger] ancestor(self@, b, j as int) ==> self@[b].kind
                        != kind,
            decreases k,
        {
            let ghost oldk = k;
            let ghost oldm = m;
            k = k - 1;
            let dk = self.nodes[k].depth;
            if dk < m {
                assert(ancestor(self@, k as int, j as int));
                if self.nodes[k].kind == kind {
                    proof {
                        assert(is_nearest_of_kind(self@, k as int, j as int, kind));
                        let c = choose|c: int| is_nearest_of_kind(self@, c, j as int, kind);
                        if c < k {
                            assert(ancestor(self@, k as int, j as int));
                        } else if c > k {
                            assert(ancestor(self@, c, j as int));
                        }
                    }
                    return Some(k);
                }
                m = dk;
            } else {
                proof {
                    let x = choose|x: int| oldk <= x <= j && #[trigger] self@[x].depth == oldm;
                    assert(k < x <= j);
                    assert(!ancestor(self@, k as int, j as int));
                }
            }
        }
        None
    }

    /// The nearest workspace among the proper ancestors of node `j`.
    pub fn workspace_of(&self, j: usize) -> (r: Option<usize>)
        requires
            j < self@.len(),
        ensures
            opt_int(r) == workspace_node_of(self@, j as int),
    {
        self.nearest_of_kind(j, NodeKind::Workspace)
    }

    /// The first node, in pre-order, with the property.
    pub fn find_first(&self, p: Probe) -> (r: Option<usize>)
        ensures
            opt_int(r) == first_match(self@, p),
    {
        let mut i: usize = 0;
        while i < self.nodes.len()
            invariant
                i <= self@.len(),
                forall|k: int| 0 <= k < i ==> !probe_holds(#[trigger] self@[k], p),
            decreases self@.len() - i,
        {
            if Self::probe(&self.nodes[i], p) {
                proof {
                    assert(is_first_match(self@, p, i as int));
                    let c = choose|c: int| is_first_match(self@, p, c);
                    if c > i {
                        assert(!probe_holds(self@[i as int], p));
                    }
                }
                return Some(i);
            }
            i = i + 1;
        }
        None
    }

    /// The direct children of node `p`, in order.
    pub fn children(&self, p: usize) -> (r: Vec<usize>)
        requires
            p < self@.len(),
        ensures
            is_children(self@, p as int, r@),
            r@ == children_of(self@, p as int),
    {
        let d = self.nodes[p].depth;
        let n = self.nodes.len();
        let mut r: Vec<usize> = Vec::new();
        proof {
            lemma_enumerates_empty(p + 1, |c: int| child_of(self@, p as int, c));
        }
        let mut k: usize = p + 1;
        while k < self.nodes.len() && self.nodes[k].depth > d
            invariant
                p < k <= self@.len(),
                d == self@[p as int].depth,
                forall|x: int| p < x < k ==> #[trigger] self@[x].depth > d,
                enumerates(r@, 0, k as int, |c: int| child_of(self@, p as int, c)),
            decreases self@.len() - k,
        {
            let ghost v = r@;
            if self.nodes[k].depth - 1 == d {
                r.push(k);
            }
            proof {
                if self@[k as int].depth == d + 1 {
                    assert(child_of(self@, p as int, k as int));
                    assert(r@ == v.push(k));
                }
                lemma_enumerates_step(v, k as int, |c: int| child_of(self@, p as int, c));
            }
            k = k + 1;
        }
        assert forall|c: int| k <= c < self@.len() implies !#[trigger] child_of(self@, p as int, c) by {
            if c > k {
                assert(self@[k as int].depth <= d);
            }
        }
        proof {
            assert(is_children(self@, p as int, r@));
            let c = choose|v: Seq<usize>| is_children(self@, p as int, v);
            lemma_enumerates_unique(r@, c, 0, self@.len() as int, |c: int| child_of(self@, p as int, c));
        }
        r
    }

    /// The window nodes of the subtree of `a`, in pre-order.
    pub fn subtree_windows(&self, a: usize) -> (r: Vec<usize>)
        requires
            a < self@.len(),
        ensures
            is_subtree_windows(self@, a as int, r@),
            r@ == windows_of(self@, a as int),
    {
        let d = self.nodes[a].depth;
        let n = self.nodes.len();
        let ghost sel = |j: int| in_subtree(self@, a as int, j) && self@[j].window;
        let mut r: Vec<usize> = Vec::new();
        proof {
            lemma_enumerates_empty(a as int, sel);
        }
        let ghost v0 = r@;
        if self.nodes[a].window {
            r.push(a);
        }
        proof {
            assert(sel(a as int) == self@[a as int].window);
            lemma_enumerates_step(v0, a as int, sel);
        }
        let mut k: usize = a + 1;
        while k < self.nodes.len() && self.nodes[k].depth > d
            invariant
                a < k <= self@.len(),
                d == self@[a as int].depth,
                forall|x: int| a < x < k ==> #[trigger] self@[x].depth > d,
                sel == (|j: int| in_subtree(self@, a as int, j) && self@[j].window),
                enumerates(r@, 0, k as int, sel),
            decreases self@.len() - k,
        {
            let ghost v = r@;
            if self.nodes[k].window {
                r.push(k);
            }
            proof {
                assert(sel(k as int) == self@[k as int].window);
                lemma_enumerates_step(v, k as int, sel);
            }
            k = k + 1;
        }
        assert forall|c: int| k <= c < self@.len() implies !#[trigger] in_subtree(self@, a as int, c) by {
            if c > k {
                assert(self@[k as int].depth <= d);
            }
        }
        proof {
            assert(is_subtree_windows(self@, a as int, r@));
            let c = choose|v: Seq<usize>| is_subtree_windows(self@, a as int, v);
            lemma_enumerates_unique(r@, c, 0, self@.len() as int, sel);
        }
        r
    }

    pub fn probe(n: &NodeInfo, p: Probe) -> (r: bool)
        ensures
            r == probe_holds(*n, p),
    {
        match p {
            Probe::Id(id) => n.id == id,
            Probe::FocusedWindow => n.window && n.focused,
                Probe::VisibleWindow => n.window && n.visible,
            Probe::WorkspaceNum(k) => n.kind == NodeKind::Workspace && n.num == Some(k),
        }
    }

    /// The first node of the subtree of `a`, in pre-order, with the property.
    pub fn search_subtree(&self, a: usize, p: Probe) -> (r: Option<usize>)
        requires
            a < self@.len(),
        ensures
            opt_int(r) == find_in_subtree(self@, a as int, p),
    {
        let d = self.nodes[a].depth;
        if Self::probe(&self.nodes[a], p) {
            proof {
                assert(first_in_subtree(self@, a as int, p, a as int));
                let c = choose|c: int| first_in_subtree(self@, a as int, p, c);
                if c > a {
                    assert(!probe_holds(self@[a as int], p));
                }
            }
            return Some(a);
        }
        let n = self.nodes.len();
        let mut k: usize = a + 1;
        while k < self.nodes.len() && self.nodes[k].depth > d
            invariant
                a < k <= self@.len(),
                d == self@[a as int].depth,
                forall|x: int| a < x < k ==> #[trigger] self@[x].depth > d,
                forall|m: int| a <= m < k ==> !probe_holds(#[trigger] self@[m], p),
            decreases self@.len() - k,
        {
            if Self::probe(&self.nodes[k], p) {
                proof {
                    assert(first_in_subtree(self@, a as int, p, k as int));
                    let c = choose|c: int| first_in_subtree(self@, a as int, p, c);
                    if c > k {
                        assert(!probe_holds(self@[k as int], p));
                    }
                }
                return Some(k);
            }
            k = k + 1;
        }
        proof {
            if exists|c: int| first_in_subtree(self@, a as int, p, c) {
                let c = choose|c: int| first_in_subtree(self@, a as int, p, c);
                if c >= k {
                    assert(self@[k as int].depth <= d);
                }
            }
        }
        None
    }

    /// How many of the listed nodes have the property.
    pub fn count(&self, v: &Vec<usize>, p: Probe) -> (r: usize)
        requires
            forall|i: int| 0 <= i < v@.len() ==> #[trigger] v@[i] < self@.len(),
        ensures
            r == count_probe(self@, v@, p),
    {
        let mut c: usize = 0;
        let mut i: usize = 0;
        while i < v.len()
            invariant
                i <= v@.len(),
                c <= i,
                c == count_probe(self@, v@.take(i as int), p),
                forall|i: int| 0 <= i < v@.len() ==> #[trigger] v@[i] < self@.len(),
            decreases v@.len() - i,
        {
            let ghost t = v@.take(i as int + 1);
            assert(t.drop_last() =~= v@.take(i as int));
            if Self::probe(&self.nodes[v[i]], p) {
                c = c + 1;
            }
            i = i + 1;
        }
        assert(v@.take(v@.len() as int) =~= v@);
        c
    }

    /// Ids of the listed nodes.
    pub fn ids(&self, v: &Vec<usize>) -> (r: Vec<i64>)
        requires
            forall|i: int| 0 <= i < v@.len() ==> #[trigger] v@[i] < self@.len(),
        ensures
            r@ == ids_of(self@, v@),
    {
        let mut r: Vec<i64> = Vec::new();
        let mut i: usize = 0;
        while i < v.len()
            invariant
                i <= v@.len(),
                r@.len() == i,
                forall|i: int| 0 <= i < v@.len() ==> #[trigger] v@[i] < self@.len(),
                forall|k: int| 0 <= k < i ==> #[trigger] r@[k] == self@[v@[k] as int].id,
            decreases v@.len() - i,
        {
            r.push(self.nodes[v[i]].id);
            i = i + 1;
        }
        assert(r@ =~= ids_of(self@, v@));
        r
    }
}

} // verus!
