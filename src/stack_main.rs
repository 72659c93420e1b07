//! The stack-main event engine: keeps a workspace arranged as a stack
//! container (first top-level node) beside one main window (last).
//!
//! Each event is decided against a fresh snapshot; nothing is kept between
//! events.
use vstd::prelude::*;
use crate::command::Clause;
use crate::error::EngineError;
use crate::event::{WindowChange, WindowEvent};
use crate::layout::{StackLayout, arrangement_clauses, push_arrangement};
use crate::tree::{
    NodeInfo, NodeKind, Probe, Tree, children_of, find_in_subtree, index_of, opt_int, windows_of,
};
use crate::workspace::{
    Workspace, focused_index, get_focused_workspace, is_special, node_ws,
    should_skip_layout_of_workspace, workspace_of_node,
};

verus! {

/// Parameters of the stack-main engine for one workspace.
#[derive(Clone, Copy, Debug, PartialEq, Eq, Structural)]
pub struct StackMain {
    /// Width of the main window, in percent.
    pub size: u8,
    /// Arrangement of the stack.
    pub stack_layout: StackLayout,
}

/// What an event calls for; each step is decided on its own fresh snapshot.
#[derive(Clone, Copy, Debug, PartialEq, Eq, Structural)]
pub enum Reaction {
    Nothing,
    /// Insert the event's container ([`StackMain::on_new_window`]).
    New,
    /// Repair the layout after a removal ([`StackMain::on_close_window`]).
    Close,
    /// Insert at the destination, then repair the source.
    NewThenClose,
}

/// `a` is the first position after the stack whose node is a window other
/// than the event's container.
pub open spec fn is_main_pos(t: Seq<NodeInfo>, kids: Seq<usize>, id: i64, a: int) -> bool {
    &&& 1 <= a < kids.len()
    &&& main_candidate(t[kids[a] as int], id)
    &&& forall|b: int| 1 <= b < a ==> !main_candidate(#[trigger] t[kids[b] as int], id)
}

pub open spec fn main_candidate(n: NodeInfo, id: i64) -> bool {
    n.window && n.id != id
}

/// The node that serves as main when a third top-level node has appeared.
pub open spec fn main_after_stack(t: Seq<NodeInfo>, kids: Seq<usize>, id: i64) -> Option<int> {
    if exists|a: int| is_main_pos(t, kids, id, a) {
        Some(kids[choose|a: int| is_main_pos(t, kids, id, a)] as int)
    } else {
        None
    }
}

/// Clauses that fold the new container `id` into the stack `s` and swap it
/// with the main window `m`.
pub open spec fn fold_into_stack(s: i64, m: i64, id: i64) -> Seq<Clause> {
    seq![
        Clause::MarkStack(s),
        Clause::Focus(id),
        Clause::MoveToStackMark(s),
        Clause::UnmarkStack(s),
        Clause::Focus(m),
        Clause::SwapWith(id),
        Clause::Focus(id),
    ]
}

/// Where a new container `id` goes, given the workspace node `w`.
pub open spec fn insertion_plan(m: StackMain, t: Seq<NodeInfo>, w: int, id: i64) -> Result<Seq<Clause>, EngineError> {
    let kids = children_of(t, w);
    if kids.len() == 1 {
        Ok(seq![Clause::Focus(id), Clause::Split { vertical: false }])
    } else if kids.len() == 2 {
        let stack = kids[0] as int;
        let main = kids[1] as int;
        if t[stack].window {
            Ok(seq![Clause::Focus(t[stack].id)] + arrangement_clauses(m.stack_layout) + seq![
                Clause::ResizeWidth((100 - m.size) as u8),
                Clause::Focus(t[main].id),
            ])
        } else if find_in_subtree(t, stack, Probe::Id(id)) is Some {
            Ok(seq![Clause::Focus(t[main].id), Clause::SwapWith(id), Clause::Focus(id)])
        } else {
            Ok(seq![Clause::NopNotInStack])
        }
    } else if kids.len() == 3 {
        match main_after_stack(t, kids, id) {
            Some(k) => Ok(fold_into_stack(t[kids[0] as int].id, t[k].id, id)),
            None => Err(EngineError::NoMainWindow),
        }
    } else {
        Ok(seq![])
    }
}

/// The script for a new (or arriving) container `id`.
pub open spec fn new_window_plan(m: StackMain, t: Seq<NodeInfo>, wss: Seq<Workspace>, id: i64) -> Result<Seq<Clause>, EngineError> {
    match index_of(t, id) {
        None => Ok(seq![]),
        Some(j) => match node_ws(t, wss, j) {
            None => Err(EngineError::NoWorkspace),
            Some((w, i)) => {
                if is_special(wss[i]) || t[j].kind == NodeKind::FloatingCon || t[j].fullscreen {
                    Ok(seq![])
                } else {
                    insertion_plan(m, t, w, id)
                }
            },
        },
    }
}

/// The window of the remaining stack `st` that moves back to main: its
/// focused window, else its first visible window.
pub open spec fn stack_current(t: Seq<NodeInfo>, st: int) -> Option<int> {
    match find_in_subtree(t, st, Probe::FocusedWindow) {
        Some(c) => Some(c),
        None => find_in_subtree(t, st, Probe::VisibleWindow),
    }
}

/// The script after container `id` left the focused workspace.
pub open spec fn close_window_plan(m: StackMain, t: Seq<NodeInfo>, wss: Seq<Workspace>, id: i64) -> Result<Seq<Clause>, EngineError> {
    match focused_index(wss) {
        None => Err(EngineError::NoFocusedWorkspace),
        Some(f) => {
            if is_special(wss[f]) {
                Ok(seq![])
            } else {
                match index_of(t, wss[f].id) {
                    None => Err(EngineError::NoWorkspaceNode),
                    Some(w) => {
                        let kids = children_of(t, w);
                        if kids.len() == 1 && t[kids[0] as int].id != id {
                            let wins = windows_of(t, w);
                            if wins.len() == 1 {
                                Ok(seq![
                                    Clause::Focus(t[wins[0] as int].id),
                                    Clause::Layout(crate::command::LayoutWord::SplitH),
                                    Clause::MoveUp,
                                ])
                            } else {
                                match stack_current(t, kids[0] as int) {
                                    None => Err(EngineError::NoVisibleWindow),
                                    Some(c) => Ok(seq![
                                        Clause::Focus(t[c].id),
                                        Clause::MoveRight,
                                        Clause::ResizeWidth(m.size),
                                    ]),
                                }
                            }
                        } else {
                            Ok(seq![])
                        }
                    },
                }
            }
        },
    }
}

/// What a moved container `id` calls for.
pub open spec fn move_reaction(t: Seq<NodeInfo>, wss: Seq<Workspace>, id: i64) -> Result<Reaction, EngineError> {
    match index_of(t, id) {
        None => Ok(Reaction::Nothing),
        Some(j) => match node_ws(t, wss, j) {
            None => Ok(Reaction::Close),
            Some((w, i)) => {
                if is_special(wss[i]) || t[j].kind == NodeKind::FloatingCon || t[j].fullscreen {
                    Ok(Reaction::Nothing)
                } else {
                    match focused_index(wss) {
                        None => Err(EngineError::NoFocusedWorkspace),
                        Some(f) => if wss[i].id == wss[f].id {
                            Ok(Reaction::New)
                        } else {
                            Ok(Reaction::NewThenClose)
                        },
                    }
                }
            },
        },
    }
}

/// What an event calls for.
pub open spec fn reaction(t: Seq<NodeInfo>, wss: Seq<Workspace>, e: WindowEvent) -> Result<Reaction, EngineError> {
    match e.change {
        WindowChange::New => Ok(Reaction::New),
        WindowChange::Close => Ok(Reaction::Close),
        WindowChange::Move => move_reaction(t, wss, e.container_id),
        WindowChange::Floating => if e.container_floating {
            Ok(Reaction::Close)
        } else {
            Ok(Reaction::New)
        },
        _ => Ok(Reaction::Nothing),
    }
}

impl StackMain {
    pub open spec fn wf(&self) -> bool {
        self.size <= 100
    }

    /// The engine for main width `size` percent and the given arrangement.
    pub fn new(size: u8, stack_layout: StackLayout) -> (r: StackMain)
        requires
            size <= 100,
        ensures
            r.wf(),
            r.size == size,
            r.stack_layout == stack_layout,
    {
        StackMain { size, stack_layout }
    }

    fn main_after_stack(tree: &Tree, kids: &Vec<usize>, id: i64) -> (r: Option<usize>)
        requires
            forall|i: int| 0 <= i < kids@.len() ==> #[trigger] kids@[i] < tree@.len(),
        ensures
            opt_int(r) == main_after_stack(tree@, kids@, id),
    {
        let mut a: usize = 1;
        while a < kids.len()
            invariant
                1 <= a,
                forall|i: int| 0 <= i < kids@.len() ==> #[trigger] kids@[i] < tree@.len(),
                forall|b: int| 1 <= b < a && b < kids@.len() ==> !main_candidate(#[trigger] tree@[kids@[b] as int], id),
            decreases kids@.len() - a,
        {
            let n = &tree.nodes[kids[a]];
            if n.window && n.id != id {
                proof {
                    assert(is_main_pos(tree@, kids@, id, a as int));
                    let c = choose|c: int| is_main_pos(tree@, kids@, id, c);
                    if c > a {
                        assert(!main_candidate(tree@[kids@[a as int] as int], id));
                    } else if c < a {
                    }
                }
                return Some(kids[a]);
            }
            a = a + 1;
        }
        None
    }

    /// The script for a new container `event.container_id`, decided on a
    /// fresh snapshot: empty when it is gone (stale event), sits on a special
    /// workspace, floats or is fullscreen; else by the number of top-level
    /// nodes of its workspace (see [`insertion_plan`]).
    pub fn on_new_window(&self, tree: &Tree, wss: &Vec<Workspace>, event: &WindowEvent) -> (r: Result<Vec<Clause>, EngineError>)
        requires
            self.wf(),
        ensures
            match r {
                Ok(v) => new_window_plan(*self, tree@, wss@, event.container_id) == Ok::<Seq<Clause>, EngineError>(v@),
                Err(e) => new_window_plan(*self, tree@, wss@, event.container_id) == Err::<Seq<Clause>, EngineError>(e),
            },
    {
        let id = event.container_id;
        let mut v: Vec<Clause> = Vec::new();
        let j = match tree.find_by_id(id) {
            Some(j) => j,
            None => return Ok(v),
        };
        let (w, i) = match workspace_of_node(tree, wss, j) {
            Some(p) => p,
            None => return Err(EngineError::NoWorkspace),
        };
        if should_skip_layout_of_workspace(&wss[i]) {
            return Ok(v);
        }
        if tree.nodes[j].kind == NodeKind::FloatingCon || tree.nodes[j].fullscreen {
            return Ok(v);
        }
        let kids = tree.children(w);
        proof {
            assert(forall|a: int| 0 <= a < kids@.len() ==> #[trigger] kids@[a] < tree@.len());
        }
        if kids.len() == 1 {
            v.push(Clause::Focus(id));
            v.push(Clause::Split { vertical: false });
            assert(v@ =~= seq![Clause::Focus(id), Clause::Split { vertical: false }]);
            Ok(v)
        } else if kids.len() == 2 {
            let stack = kids[0];
            let main = kids[1];
            if tree.nodes[stack].window {
                v.push(Clause::Focus(tree.nodes[stack].id));
                push_arrangement(&mut v, self.stack_layout);
                v.push(Clause::ResizeWidth(100 - self.size));
                v.push(Clause::Focus(tree.nodes[main].id));
                assert(v@ =~= seq![Clause::Focus(tree@[stack as int].id)] + arrangement_clauses(self.stack_layout) + seq![
                    Clause::ResizeWidth((100 - self.size) as u8),
                    Clause::Focus(tree@[main as int].id),
                ]);
                Ok(v)
            } else if tree.search_subtree(stack, Probe::Id(id)).is_some() {
                v.push(Clause::Focus(tree.nodes[main].id));
                v.push(Clause::SwapWith(id));
                v.push(Clause::Focus(id));
                assert(v@ =~= seq![Clause::Focus(tree@[main as int].id), Clause::SwapWith(id), Clause::Focus(id)]);
                Ok(v)
            } else {
                v.push(Clause::NopNotInStack);
                assert(v@ =~= seq![Clause::NopNotInStack]);
                Ok(v)
            }
        } else if kids.len() == 3 {
            match Self::main_after_stack(tree, &kids, id) {
                Some(k) => {
                    let s = tree.nodes[kids[0]].id;
                    let m = tree.nodes[k].id;
                    v.push(Clause::MarkStack(s));
                    v.push(Clause::Focus(id));
                    v.push(Clause::MoveToStackMark(s));
                    v.push(Clause::UnmarkStack(s));
                    v.push(Clause::Focus(m));
                    v.push(Clause::SwapWith(id));
                    v.push(Clause::Focus(id));
                    assert(v@ =~= fold_into_stack(s, m, id));
                    Ok(v)
                },
                None => Err(EngineError::NoMainWindow),
            }
        } else {
            assert(v@ =~= seq![]);
            Ok(v)
        }
    }

    /// The script after `event.container_id` closed or left, decided on a
    /// fresh snapshot of the focused workspace: when a single top-level node
    /// other than the closed one remains, either the only window left is
    /// flattened out of the stack, or the stack's current window (focused,
    /// else first visible) moves back into the main position at `size`
    /// percent.
    pub fn on_close_window(&self, tree: &Tree, wss: &Vec<Workspace>, event: &WindowEvent) -> (r: Result<Vec<Clause>, EngineError>)
        ensures
            match r {
                Ok(v) => close_window_plan(*self, tree@, wss@, event.container_id) == Ok::<Seq<Clause>, EngineError>(v@),
                Err(e) => close_window_plan(*self, tree@, wss@, event.container_id) == Err::<Seq<Clause>, EngineError>(e),
            },
    {
        let id = event.container_id;
        let mut v: Vec<Clause> = Vec::new();
        let f = match get_focused_workspace(wss) {
            Some(f) => f,
            None => return Err(EngineError::NoFocusedWorkspace),
        };
        if should_skip_layout_of_workspace(&wss[f]) {
            return Ok(v);
        }
        let w = match tree.find_by_id(wss[f].id) {
            Some(w) => w,
            None => return Err(EngineError::NoWorkspaceNode),
        };
        let kids = tree.children(w);
        if kids.len() == 1 && tree.nodes[kids[0]].id != id {
            let wins = tree.subtree_windows(w);
            if wins.len() == 1 {
                let c = tree.nodes[wins[0]].id;
                v.push(Clause::Focus(c));
                v.push(Clause::Layout(crate::command::LayoutWord::SplitH));
                v.push(Clause::MoveUp);
                assert(v@ =~= seq![
                    Clause::Focus(c),
                    Clause::Layout(crate::command::LayoutWord::SplitH),
                    Clause::MoveUp,
                ]);
                return Ok(v);
            }
            let st = kids[0];
            let cur = match tree.search_subtree(st, Probe::FocusedWindow) {
                Some(c) => c,
                None => match tree.search_subtree(st, Probe::VisibleWindow) {
                    Some(c) => c,
                    None => return Err(EngineError::NoVisibleWindow),
                },
            };
            assert(stack_current(tree@, st as int) == Some(cur as int));
            let c = tree.nodes[cur].id;
            v.push(Clause::Focus(c));
            v.push(Clause::MoveRight);
            v.push(Clause::ResizeWidth(self.size));
            assert(v@ =~= seq![Clause::Focus(c), Clause::MoveRight, Clause::ResizeWidth(self.size)]);
            Ok(v)
        } else {
            assert(v@ =~= seq![]);
            Ok(v)
        }
    }

    /// What `event` calls for, decided on a fresh snapshot: a new container
    /// is inserted, a closed one repaired after; a moved one is looked up
    /// (gone: nothing; without a workspace: a close; on a special workspace,
    /// floating or fullscreen: nothing; on the focused workspace: an
    /// insertion; elsewhere: an insertion and a close); a container that
    /// starts floating is removed and one that stops is inserted.
    pub fn handle(&self, tree: &Tree, wss: &Vec<Workspace>, event: &WindowEvent) -> (r: Result<Reaction, EngineError>)
        ensures
            r == reaction(tree@, wss@, *event),
    {
        match event.change {
            WindowChange::New => Ok(Reaction::New),
            WindowChange::Close => Ok(Reaction::Close),
            WindowChange::Move => Self::on_move_window(tree, wss, event.container_id),
            WindowChange::Floating => {
                if event.container_floating {
                    Ok(Reaction::Close)
                } else {
                    Ok(Reaction::New)
                }
            },
            _ => Ok(Reaction::Nothing),
        }
    }

    /// What a move of container `id` calls for (see [`move_reaction`]).
    pub fn on_move_window(tree: &Tree, wss: &Vec<Workspace>, id: i64) -> (r: Result<Reaction, EngineError>)
        ensures
            r == move_reaction(tree@, wss@, id),
    {
        let j = match tree.find_by_id(id) {
            Some(j) => j,
            None => return Ok(Reaction::Nothing),
        };
        let i = match workspace_of_node(tree, wss, j) {
            Some((_w, i)) => i,
            None => return Ok(Reaction::Close),
        };
        if should_skip_layout_of_workspace(&wss[i]) {
            return Ok(Reaction::Nothing);
        }
        if tree.nodes[j].kind == NodeKind::FloatingCon || tree.nodes[j].fullscreen {
            return Ok(Reaction::Nothing);
        }
        match get_focused_workspace(wss) {
            None => Err(EngineError::NoFocusedWorkspace),
            Some(f) => {
                if wss[i].id == wss[f].id {
                    Ok(Reaction::New)
                } else {
                    Ok(Reaction::NewThenClose)
                }
            },
        }
    }
}

} // verus!
