//! Interactive commands on a stack-main workspace: cycling focus through
//! the stack, rotating windows through stack and main, swapping with main.
//!
//! Each command acts on the focused workspace of a fresh snapshot, whose
//! first top-level node is the stack and whose last is the main window.
use vstd::prelude::*;
use crate::command::Clause;
use crate::error::EngineError;
use crate::tree::{
    NodeInfo, Probe, Tree, children_of, count_probe, find_in_subtree, first_in_subtree, ids_of,
    in_subtree, index_of, is_subtree_windows, lemma_enumerates_unique, probe_holds, windows_of,
};
use crate::workspace::{Workspace, focused_index, get_focused_workspace};

verus! {

/// Controller for the stack-main commands.
pub struct StackMain {}

/// The node of the focused workspace, when its stack holds anything;
/// `Ok(None)` when the workspace or its stack is empty.
pub open spec fn stack_site(t: Seq<NodeInfo>, wss: Seq<Workspace>) -> Result<Option<int>, EngineError> {
    match focused_index(wss) {
        None => Err(EngineError::NoFocusedWorkspace),
        Some(f) => match index_of(t, wss[f].id) {
            None => Err(EngineError::NoWorkspaceNode),
            Some(w) => {
                let kids = children_of(t, w);
                if kids.len() == 0 || children_of(t, kids[0] as int).len() == 0 {
                    Ok(None)
                } else {
                    Ok(Some(w))
                }
            },
        },
    }
}

/// The stack window a command starts from: the focused window of the
/// stack; else, when exactly one of its windows is visible, that window;
/// else the stack's child `initial`.
pub open spec fn anchor(t: Seq<NodeInfo>, stack: int, initial: int) -> i64 {
    match find_in_subtree(t, stack, Probe::FocusedWindow) {
        Some(c) => t[c].id,
        None => {
            if count_probe(t, windows_of(t, stack), Probe::VisibleWindow) == 1 {
                match find_in_subtree(t, stack, Probe::VisibleWindow) {
                    Some(c) => t[c].id,
                    None => t[initial].id,
                }
            } else {
                t[initial].id
            }
        },
    }
}

/// `p` is the first position of `ids` holding `x`.
pub open spec fn first_pos(ids: Seq<i64>, x: i64, p: int) -> bool {
    &&& 0 <= p < ids.len()
    &&& ids[p] == x
    &&& forall|q: int| 0 <= q < p ==> #[trigger] ids[q] != x
}

/// The element that follows the first `x` in `ids`, read cyclically.
pub open spec fn cycle_next(ids: Seq<i64>, x: i64) -> Option<i64> {
    if exists|p: int| first_pos(ids, x, p) {
        let p = choose|p: int| first_pos(ids, x, p);
        Some(ids[(p + 1) % (ids.len() as int)])
    } else {
        None
    }
}

/// Ids of the listed nodes, in the order of the direction.
pub open spec fn directed_ids(t: Seq<NodeInfo>, v: Seq<usize>, reverse: bool) -> Seq<i64> {
    if reverse {
        ids_of(t, v).reverse()
    } else {
        ids_of(t, v)
    }
}

/// The script of a focus move through the stack.
pub open spec fn focus_advance_plan(t: Seq<NodeInfo>, wss: Seq<Workspace>, reverse: bool) -> Result<Seq<Clause>, EngineError> {
    match stack_site(t, wss) {
        Err(e) => Err(e),
        Ok(None) => Ok(seq![]),
        Ok(Some(w)) => {
            let stack = children_of(t, w)[0] as int;
            let sk = children_of(t, stack);
            let initial = if reverse {
                sk[0] as int
            } else {
                sk.last() as int
            };
            match cycle_next(directed_ids(t, sk, reverse), anchor(t, stack, initial)) {
                Some(n) => Ok(seq![Clause::Focus(n)]),
                None => Ok(seq![]),
            }
        },
    }
}

/// Pairwise swaps along `ids`: each element is swapped with the next.
pub open spec fn swap_chain(ids: Seq<i64>) -> Seq<Clause>
    decreases ids.len(),
{
    if ids.len() < 2 {
        seq![]
    } else {
        swap_chain(ids.drop_last()) + seq![
            Clause::Focus(ids[ids.len() - 2]),
            Clause::SwapWith(ids[ids.len() - 1]),
        ]
    }
}

/// First script of a rotation: the stack windows shift by one place in the
/// direction, the one at the far end wrapping around; focus then returns to
/// the stack and to main.
pub open spec fn rotate_shift_plan(t: Seq<NodeInfo>, wss: Seq<Workspace>, reverse: bool) -> Result<Seq<Clause>, EngineError> {
    match stack_site(t, wss) {
        Err(e) => Err(e),
        Ok(None) => Ok(seq![]),
        Ok(Some(w)) => {
            let kids = children_of(t, w);
            let stack = kids[0] as int;
            let main = kids.last() as int;
            Ok(swap_chain(directed_ids(t, windows_of(t, stack), reverse)) + seq![
                Clause::Focus(t[children_of(t, stack)[0] as int].id),
                Clause::Focus(t[main].id),
            ])
        },
    }
}

/// Second script of a rotation, on the snapshot taken after the first: main
/// is swapped with the stack window at the edge the direction left free
/// (first for next, last for prev), which then takes focus.
pub open spec fn rotate_main_plan(t: Seq<NodeInfo>, wss: Seq<Workspace>, reverse: bool) -> Result<Seq<Clause>, EngineError> {
    match stack_site(t, wss) {
        Err(e) => Err(e),
        Ok(None) => Ok(seq![]),
        Ok(Some(w)) => {
            let kids = children_of(t, w);
            let leaves = windows_of(t, kids[0] as int);
            if leaves.len() == 0 {
                Err(EngineError::EmptyStack)
            } else {
                let edge = if reverse {
                    t[leaves.last() as int].id
                } else {
                    t[leaves[0] as int].id
                };
                Ok(seq![Clause::Focus(t[kids.last() as int].id), Clause::SwapWith(edge), Clause::Focus(edge)])
            }
        },
    }
}

/// The script that swaps main with the stack's anchor window.
pub open spec fn swap_main_plan(t: Seq<NodeInfo>, wss: Seq<Workspace>) -> Result<Seq<Clause>, EngineError> {
    match stack_site(t, wss) {
        Err(e) => Err(e),
        Ok(None) => Ok(seq![]),
        Ok(Some(w)) => {
            let kids = children_of(t, w);
            let stack = kids[0] as int;
            let a = anchor(t, stack, children_of(t, stack)[0] as int);
            Ok(seq![Clause::Focus(t[kids.last() as int].id), Clause::SwapWith(a), Clause::Focus(a)])
        },
    }
}

/// The stack node of workspace node `w`: its first top-level node.
pub open spec fn stack_of(t: Seq<NodeInfo>, w: int) -> int {
    children_of(t, w)[0] as int
}

/// Focus-next on a stack whose three children are its only windows, none
/// focused and exactly one visible: the visible window is the anchor, and
/// the child after it takes focus, the first one when the anchor is last.
pub proof fn lemma_focus_next_from_sole_visible(t: Seq<NodeInfo>, wss: Seq<Workspace>, w: int, p: int)
    requires
        stack_site(t, wss) == Ok::<Option<int>, EngineError>(Some(w)),
        children_of(t, stack_of(t, w)).len() == 3,
        is_subtree_windows(t, stack_of(t, w), children_of(t, stack_of(t, w))),
        forall|j: int| #[trigger] in_subtree(t, stack_of(t, w), j) ==> !(t[j].window && t[j].focused),
        0 <= p < 3,
        forall|q: int| 0 <= q < 3 ==> (t[children_of(t, stack_of(t, w))[q] as int].visible <==> q == p),
        forall|q: int, r: int|
            0 <= q < r < 3 ==> t[children_of(t, stack_of(t, w))[q] as int].id != t[children_of(
                t,
                stack_of(t, w),
            )[r] as int].id,
    ensures
        focus_advance_plan(t, wss, false) == Ok::<Seq<Clause>, EngineError>(
            seq![Clause::Focus(t[children_of(t, stack_of(t, w))[(p + 1) % 3] as int].id)],
        ),
{
    let stack = stack_of(t, w);
    let sk = children_of(t, stack);
    let sel = |j: int| in_subtree(t, stack, j) && t[j].window;
    // the stack's windows are its children
    let c = windows_of(t, stack);
    lemma_enumerates_unique(c, sk, 0, t.len() as int, sel);
    assert(windows_of(t, stack) == sk);
    assert(sel(sk[0] as int) && sel(sk[1] as int) && sel(sk[2] as int));
    // no focused window
    assert(!exists|k: int| first_in_subtree(t, stack, Probe::FocusedWindow, k)) by {
        if exists|k: int| first_in_subtree(t, stack, Probe::FocusedWindow, k) {
            let k = choose|k: int| first_in_subtree(t, stack, Probe::FocusedWindow, k);
            assert(in_subtree(t, stack, k));
        }
    }
    // exactly one visible window
    assert(sk.drop_last().drop_last().drop_last() =~= Seq::<usize>::empty());
    assert(sk.drop_last().drop_last() =~= seq![sk[0]]);
    assert(sk.drop_last() =~= seq![sk[0], sk[1]]);
    let s1 = sk.drop_last().drop_last();
    let s2 = sk.drop_last();
    assert(count_probe(t, s1.drop_last(), Probe::VisibleWindow) == 0);
    assert(s1.last() == sk[0]);
    assert(probe_holds(t[sk[0] as int], Probe::VisibleWindow) == (p == 0));
    assert(probe_holds(t[sk[1] as int], Probe::VisibleWindow) == (p == 1));
    assert(probe_holds(t[sk[2] as int], Probe::VisibleWindow) == (p == 2));
    assert(count_probe(t, s1, Probe::VisibleWindow) == if p == 0 { 1nat } else { 0nat });
    assert(s2.drop_last() == s1 && s2.last() == sk[1]);
    assert(count_probe(t, s2, Probe::VisibleWindow) == if p <= 1 { 1nat } else { 0nat });
    assert(sk.drop_last() == s2 && sk.last() == sk[2]);
    assert(count_probe(t, sk, Probe::VisibleWindow) == 1);
    // which is the first visible window of the stack
    let v = sk[p] as int;
    assert(sel(v));
    assert forall|m: int| stack <= m < v implies !probe_holds(#[trigger] t[m], Probe::VisibleWindow) by {
        if probe_holds(t[m], Probe::VisibleWindow) {
            assert(in_subtree(t, stack, m));
            assert(sel(m));
            let a = choose|a: int| 0 <= a < sk.len() && sk[a] == m;
            assert(a == p);
        }
    }
    assert(first_in_subtree(t, stack, Probe::VisibleWindow, v));
    let f = choose|k: int| first_in_subtree(t, stack, Probe::VisibleWindow, k);
    if f < v {
        assert(!probe_holds(t[f], Probe::VisibleWindow));
    } else if f > v {
        assert(!probe_holds(t[v], Probe::VisibleWindow));
    }
    assert(find_in_subtree(t, stack, Probe::VisibleWindow) == Some(v));
    let x = t[v].id;
    assert(anchor(t, stack, sk.last() as int) == x);
    // the child after the anchor
    let ids = directed_ids(t, sk, false);
    assert(ids == ids_of(t, sk));
    assert(first_pos(ids, x, p));
    let q = choose|q: int| first_pos(ids, x, q);
    if q > p {
        assert(ids[p] != x);
    } else if q < p {
        assert(ids[q] != x);
    }
    assert(cycle_next(ids, x) == Some(ids[(p + 1) % 3]));
}

/// Where the stack of the focused workspace is.
pub struct Site {
    /// The workspace node.
    pub ws: usize,
    /// Top-level nodes of the workspace; the first is the stack.
    pub kids: Vec<usize>,
    /// Children of the stack.
    pub stack_kids: Vec<usize>,
}

/// `s` describes the stack of workspace node `w`.
pub open spec fn site_at(t: Seq<NodeInfo>, wss: Seq<Workspace>, s: Site, w: int) -> bool {
    &&& stack_site(t, wss) == Ok::<Option<int>, EngineError>(Some(w))
    &&& s.kids@ == children_of(t, w)
    &&& s.kids@.len() > 0
    &&& s.stack_kids@ == children_of(t, s.kids@[0] as int)
    &&& s.stack_kids@.len() > 0
    &&& forall|i: int| 0 <= i < s.kids@.len() ==> #[trigger] s.kids@[i] < t.len()
    &&& forall|i: int| 0 <= i < s.stack_kids@.len() ==> #[trigger] s.stack_kids@[i] < t.len()
}

impl StackMain {
    /// A controller.
    pub fn new() -> (r: StackMain) {
        StackMain {}
    }

    fn site(tree: &Tree, wss: &Vec<Workspace>) -> (r: Result<Option<Site>, EngineError>)
        ensures
            match r {
                Err(e) => stack_site(tree@, wss@) == Err::<Option<int>, EngineError>(e),
                Ok(None) => stack_site(tree@, wss@) == Ok::<Option<int>, EngineError>(None),
                Ok(Some(s)) => site_at(tree@, wss@, s, s.ws as int),
            },
    {
        let f = match get_focused_workspace(wss) {
            Some(f) => f,
            None => return Err(EngineError::NoFocusedWorkspace),
        };
        let w = match tree.find_by_id(wss[f].id) {
            Some(w) => w,
            None => return Err(EngineError::NoWorkspaceNode),
        };
        let kids = tree.children(w);
        if kids.len() == 0 {
            return Ok(None);
        }
        assert(kids@[0] < tree@.len());
        let stack_kids = tree.children(kids[0]);
        if stack_kids.len() == 0 {
            return Ok(None);
        }
        assert(forall|i: int| 0 <= i < stack_kids@.len() ==> #[trigger] stack_kids@[i] < tree@.len());
        Ok(Some(Site { ws: w, kids, stack_kids }))
    }

    fn anchor(tree: &Tree, stack: usize, initial: usize) -> (r: i64)
        requires
            stack < tree@.len(),
            initial < tree@.len(),
        ensures
            r == anchor(tree@, stack as int, initial as int),
    {
        match tree.search_subtree(stack, Probe::FocusedWindow) {
            Some(c) => tree.nodes[c].id,
            None => {
                let wins = tree.subtree_windows(stack);
                if tree.count(&wins, Probe::VisibleWindow) == 1 {
                    match tree.search_subtree(stack, Probe::VisibleWindow) {
                        Some(c) => tree.nodes[c].id,
                        None => tree.nodes[initial].id,
                    }
                } else {
                    tree.nodes[initial].id
                }
            },
        }
    }

    fn ids_in(tree: &Tree, v: &Vec<usize>, reverse: bool) -> (r: Vec<i64>)
        requires
            forall|i: int| 0 <= i < v@.len() ==> #[trigger] v@[i] < tree@.len(),
        ensures
            r@ == directed_ids(tree@, v@, reverse),
    {
        let n = v.len();
        let mut r: Vec<i64> = Vec::new();
        let mut i: usize = 0;
        while i < n
            invariant
                n == v@.len(),
                i <= n,
                r@.len() == i,
                forall|i: int| 0 <= i < v@.len() ==> #[trigger] v@[i] < tree@.len(),
                forall|k: int| 0 <= k < i ==> #[trigger] r@[k] == if reverse {
                    tree@[v@[n - 1 - k] as int].id
                } else {
                    tree@[v@[k] as int].id
                },
            decreases n - i,
        {
            if reverse {
                r.push(tree.nodes[v[n - 1 - i]].id);
            } else {
                r.push(tree.nodes[v[i]].id);
            }
            i = i + 1;
        }
        if reverse {
            assert(r@ =~= ids_of(tree@, v@).reverse());
        } else {
            assert(r@ =~= ids_of(tree@, v@));
        }
        r
    }

    fn cycle_next(ids: &Vec<i64>, x: i64) -> (r: Option<i64>)
        ensures
            r == cycle_next(ids@, x),
    {
        let n = ids.len();
        let mut p: usize = 0;
        while p < n
            invariant
                n == ids@.len(),
                p <= n,
                forall|q: int| 0 <= q < p ==> #[trigger] ids@[q] != x,
            decreases n - p,
        {
            if ids[p] == x {
                proof {
                    assert(first_pos(ids@, x, p as int));
                    let c = choose|c: int| first_pos(ids@, x, c);
                    if c > p {
                        assert(ids@[p as int] != x);
                    }
                }
                return Some(ids[(p + 1) % n]);
            }
            p = p + 1;
        }
        None
    }

    fn swap_chain(ids: &Vec<i64>) -> (r: Vec<Clause>)
        ensures
            r@ == swap_chain(ids@),
    {
        let n = ids.len();
        let mut r: Vec<Clause> = Vec::new();
        if n < 2 {
            assert(r@ =~= swap_chain(ids@));
            return r;
        }
        let mut i: usize = 1;
        assert(ids@.take(1).len() < 2);
        assert(r@ =~= swap_chain(ids@.take(1)));
        while i < n
            invariant
                n == ids@.len(),
                1 <= i <= n,
                r@ == swap_chain(ids@.take(i as int)),
            decreases n - i,
        {
            r.push(Clause::Focus(ids[i - 1]));
            r.push(Clause::SwapWith(ids[i]));
            proof {
                let t = ids@.take(i as int + 1);
                assert(t.drop_last() =~= ids@.take(i as int));
                assert(r@ =~= swap_chain(t));
            }
            i = i + 1;
        }
        assert(ids@.take(n as int) =~= ids@);
        r
    }

    /// Moves focus through the stack: starting from the anchor (the focused
    /// stack window; else the only visible one; else the stack's last child,
    /// or first when `reverse`), focuses the next child of the stack in the
    /// direction, wrapping around.
    pub fn stack_focus_advance(&self, tree: &Tree, wss: &Vec<Workspace>, reverse: bool) -> (r: Result<Vec<Clause>, EngineError>)
        ensures
            match r {
                Ok(v) => focus_advance_plan(tree@, wss@, reverse) == Ok::<Seq<Clause>, EngineError>(v@),
                Err(e) => focus_advance_plan(tree@, wss@, reverse) == Err::<Seq<Clause>, EngineError>(e),
            },
    {
        let mut v: Vec<Clause> = Vec::new();
        let site = match Self::site(tree, wss) {
            Err(e) => return Err(e),
            Ok(None) => {
                assert(v@ =~= seq![]);
                return Ok(v);
            },
            Ok(Some(s)) => s,
        };
        let stack = site.kids[0];
        let initial = if reverse {
            site.stack_kids[0]
        } else {
            site.stack_kids[site.stack_kids.len() - 1]
        };
        let a = Self::anchor(tree, stack, initial);
        let ids = Self::ids_in(tree, &site.stack_kids, reverse);
        match Self::cycle_next(&ids, a) {
            Some(n) => {
                v.push(Clause::Focus(n));
                assert(v@ =~= seq![Clause::Focus(n)]);
            },
            None => {
                assert(v@ =~= seq![]);
            },
        }
        Ok(v)
    }

    /// [`StackMain::stack_focus_advance`] towards the start of the stack.
    pub fn stack_focus_prev(&self, tree: &Tree, wss: &Vec<Workspace>) -> (r: Result<Vec<Clause>, EngineError>)
        ensures
            match r {
                Ok(v) => focus_advance_plan(tree@, wss@, true) == Ok::<Seq<Clause>, EngineError>(v@),
                Err(e) => focus_advance_plan(tree@, wss@, true) == Err::<Seq<Clause>, EngineError>(e),
            },
    {
        self.stack_focus_advance(tree, wss, true)
    }

    /// [`StackMain::stack_focus_advance`] towards the end of the stack.
    pub fn stack_focus_next(&self, tree: &Tree, wss: &Vec<Workspace>) -> (r: Result<Vec<Clause>, EngineError>)
        ensures
            match r {
                Ok(v) => focus_advance_plan(tree@, wss@, false) == Ok::<Seq<Clause>, EngineError>(v@),
                Err(e) => focus_advance_plan(tree@, wss@, false) == Err::<Seq<Clause>, EngineError>(e),
            },
    {
        self.stack_focus_advance(tree, wss, false)
    }

    /// First script of a rotation (see [`rotate_shift_plan`]); the second,
    /// [`StackMain::stack_main_rotate_finish`], is decided on the snapshot
    /// taken after this one has run.
    pub fn stack_main_rotate(&self, tree: &Tree, wss: &Vec<Workspace>, reverse: bool) -> (r: Result<Vec<Clause>, EngineError>)
        ensures
            match r {
                Ok(v) => rotate_shift_plan(tree@, wss@, reverse) == Ok::<Seq<Clause>, EngineError>(v@),
                Err(e) => rotate_shift_plan(tree@, wss@, reverse) == Err::<Seq<Clause>, EngineError>(e),
            },
    {
        let site = match Self::site(tree, wss) {
            Err(e) => return Err(e),
            Ok(None) => {
                let v: Vec<Clause> = Vec::new();
                assert(v@ =~= seq![]);
                return Ok(v);
            },
            Ok(Some(s)) => s,
        };
        let stack = site.kids[0];
        let main = site.kids[site.kids.len() - 1];
        let leaves = tree.subtree_windows(stack);
        let ids = Self::ids_in(tree, &leaves, reverse);
        let mut v = Self::swap_chain(&ids);
        let ghost chain = v@;
        v.push(Clause::Focus(tree.nodes[site.stack_kids[0]].id));
        v.push(Clause::Focus(tree.nodes[main].id));
        assert(v@ =~= chain + seq![
            Clause::Focus(tree@[site.stack_kids@[0] as int].id),
            Clause::Focus(tree@[main as int].id),
        ]);
        Ok(v)
    }

    /// Second script of a rotation (see [`rotate_main_plan`]).
    pub fn stack_main_rotate_finish(&self, tree: &Tree, wss: &Vec<Workspace>, reverse: bool) -> (r: Result<Vec<Clause>, EngineError>)
        ensures
            match r {
                Ok(v) => rotate_main_plan(tree@, wss@, reverse) == Ok::<Seq<Clause>, EngineError>(v@),
                Err(e) => rotate_main_plan(tree@, wss@, reverse) == Err::<Seq<Clause>, EngineError>(e),
            },
    {
        let mut v: Vec<Clause> = Vec::new();
        let site = match Self::site(tree, wss) {
            Err(e) => return Err(e),
            Ok(None) => {
                assert(v@ =~= seq![]);
                return Ok(v);
            },
            Ok(Some(s)) => s,
        };
        let main = site.kids[site.kids.len() - 1];
        let leaves = tree.subtree_windows(site.kids[0]);
        if leaves.len() == 0 {
            return Err(EngineError::EmptyStack);
        }
        let edge = if reverse {
            tree.nodes[leaves[leaves.len() - 1]].id
        } else {
            tree.nodes[leaves[0]].id
        };
        v.push(Clause::Focus(tree.nodes[main].id));
        v.push(Clause::SwapWith(edge));
        v.push(Clause::Focus(edge));
        assert(v@ =~= seq![Clause::Focus(tree@[main as int].id), Clause::SwapWith(edge), Clause::Focus(edge)]);
        Ok(v)
    }

    /// First script of a rotation towards the end of the stack.
    pub fn stack_main_rotate_next(&self, tree: &Tree, wss: &Vec<Workspace>) -> (r: Result<Vec<Clause>, EngineError>)
        ensures
            match r {
                Ok(v) => rotate_shift_plan(tree@, wss@, false) == Ok::<Seq<Clause>, EngineError>(v@),
                Err(e) => rotate_shift_plan(tree@, wss@, false) == Err::<Seq<Clause>, EngineError>(e),
            },
    {
        self.stack_main_rotate(tree, wss, false)
    }

    /// First script of a rotation towards the start of the stack.
    pub fn stack_main_rotate_prev(&self, tree: &Tree, wss: &Vec<Workspace>) -> (r: Result<Vec<Clause>, EngineError>)
        ensures
            match r {
                Ok(v) => rotate_shift_plan(tree@, wss@, true) == Ok::<Seq<Clause>, EngineError>(v@),
                Err(e) => rotate_shift_plan(tree@, wss@, true) == Err::<Seq<Clause>, EngineError>(e),
            },
    {
        self.stack_main_rotate(tree, wss, true)
    }

    /// Swaps main with the stack's anchor (as for focus moves, falling back
    /// to the stack's first child), which then takes focus.
    pub fn stack_swap_main(&self, tree: &Tree, wss: &Vec<Workspace>) -> (r: Result<Vec<Clause>, EngineError>)
        ensures
            match r {
                Ok(v) => swap_main_plan(tree@, wss@) == Ok::<Seq<Clause>, EngineError>(v@),
                Err(e) => swap_main_plan(tree@, wss@) == Err::<Seq<Clause>, EngineError>(e),
            },
    {
        let mut v: Vec<Clause> = Vec::new();
        let site = match Self::site(tree, wss) {
            Err(e) => return Err(e),
            Ok(None) => {
                assert(v@ =~= seq![]);
                return Ok(v);
            },
            Ok(Some(s)) => s,
        };
        let main = site.kids[site.kids.len() - 1];
        let a = Self::anchor(tree, site.kids[0], site.stack_kids[0]);
        v.push(Clause::Focus(tree.nodes[main].id));
        v.push(Clause::SwapWith(a));
        v.push(Clause::Focus(a));
        assert(v@ =~= seq![Clause::Focus(tree@[main as int].id), Clause::SwapWith(a), Clause::Focus(a)]);
        Ok(v)
    }
}

} // verus!
