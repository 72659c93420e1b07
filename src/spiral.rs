//! The spiral engine: each newly focused window is split along its longer
//! side, so that the next window opens beside or below it.
use vstd::prelude::*;
use crate::command::Clause;
use crate::event::{WindowChange, WindowEvent};
use crate::tree::{NodeInfo, NodeKind, NodeLayout, Tree, index_of, parent_of};
use crate::workspace::{Workspace, is_special, node_ws, should_skip_layout_of_workspace, workspace_of_node};

verus! {

/// Focus events closer than this many milliseconds to the last decision are dropped.
pub const THROTTLE_MS: u64 = 50;

/// State of the spiral worker between events.
#[derive(Clone, Copy, Debug, PartialEq, Eq, Structural)]
pub struct Spiral {
    /// Container of the last focus event that was evaluated.
    pub last_focused_id: Option<i64>,
    /// Time, in milliseconds, of the last focus event that passed the throttle.
    pub last_layout_time: Option<u64>,
}

/// A focus event at `now` comes too soon after the last decision.
pub open spec fn throttled(last: Option<u64>, now: u64) -> bool {
    match last {
        Some(t) => now < t + THROTTLE_MS,
        None => false,
    }
}

/// The worker's state after an event, and whether the event goes on to be
/// evaluated against a fresh snapshot.
pub open spec fn step(s: Spiral, e: WindowEvent, now: u64) -> (Spiral, bool) {
    if e.change != WindowChange::Focus || throttled(s.last_layout_time, now) {
        (s, false)
    } else if s.last_focused_id == Some(e.container_id) {
        (Spiral { last_layout_time: Some(now), ..s }, false)
    } else {
        (Spiral { last_focused_id: Some(e.container_id), last_layout_time: Some(now) }, true)
    }
}

/// The node is left alone: floating, fullscreen, or inside a tabbed or
/// stacked container.
pub open spec fn exempt(t: Seq<NodeInfo>, j: int) -> bool {
    ||| t[j].kind == NodeKind::FloatingCon
    ||| t[j].fullscreen
    ||| match parent_of(t, j) {
        Some(p) => t[p].layout == NodeLayout::Stacked || t[p].layout == NodeLayout::Tabbed,
        None => false,
    }
}

/// The split a node should have: vertical when taller than wide.
pub open spec fn wants_vertical(n: NodeInfo) -> bool {
    n.height > n.width
}

/// The command for the container `id`, if it needs one.
pub open spec fn spiral_decision(t: Seq<NodeInfo>, wss: Seq<Workspace>, id: i64) -> Option<Clause> {
    match index_of(t, id) {
        None => None,
        Some(j) => match node_ws(t, wss, j) {
            None => None,
            Some((w, i)) => {
                if is_special(wss[i]) || exempt(t, j) {
                    None
                } else {
                    let v = wants_vertical(t[j]);
                    let current = if v {
                        NodeLayout::SplitV
                    } else {
                        NodeLayout::SplitH
                    };
                    if t[j].layout == current {
                        None
                    } else {
                        Some(Clause::SplitCon { con: t[j].id, vertical: v })
                    }
                }
            },
        },
    }
}

impl Spiral {
    /// A worker that has seen no event.
    pub fn new() -> (r: Spiral)
        ensures
            r.last_focused_id is None,
            r.last_layout_time is None,
    {
        Spiral { last_focused_id: None, last_layout_time: None }
    }

    /// Takes an event arriving at `now` (milliseconds on a monotonic clock)
    /// and says whether it is to be evaluated. Only focus events are; a
    /// focus event within the throttle window of the last decision, or for
    /// the container evaluated last, is dropped.
    pub fn handle(&mut self, event: &WindowEvent, now: u64) -> (r: bool)
        ensures
            (*final(self), r) == step(*old(self), *event, now),
            throttled(old(self).last_layout_time, now) ==> !r && *final(self) == *old(self),
            old(self).last_focused_id == Some(event.container_id) ==> !r
                && final(self).last_focused_id == old(self).last_focused_id,
    {
        if event.change != WindowChange::Focus {
            return false;
        }
        match self.last_layout_time {
            Some(t) => {
                if now < t || now - t < THROTTLE_MS {
                    return false;
                }
            },
            None => {},
        }
        self.last_layout_time = Some(now);
        match self.last_focused_id {
            Some(id) => {
                if id == event.container_id {
                    return false;
                }
            },
            None => {},
        }
        self.last_focused_id = Some(event.container_id);
        true
    }

    /// Decides, from a fresh snapshot and the workspace list, the split
    /// command for the focused container `id`: none when the container is
    /// gone, has no listed workspace, sits on a special workspace, is exempt,
    /// or already has the split it should have.
    pub fn layout(tree: &Tree, wss: &Vec<Workspace>, id: i64) -> (r: Option<Clause>)
        ensures
            r == spiral_decision(tree@, wss@, id),
    {
        let j = match tree.find_by_id(id) {
            Some(j) => j,
            None => return None,
        };
        let i = match workspace_of_node(tree, wss, j) {
            Some((_w, i)) => i,
            None => return None,
        };
        if should_skip_layout_of_workspace(&wss[i]) {
            return None;
        }
        let n = tree.nodes[j];
        if n.kind == NodeKind::FloatingCon || n.fullscreen {
            return None;
        }
        match tree.parent(j) {
            Some(p) => {
                let pl = tree.nodes[p].layout;
                if pl == NodeLayout::Stacked || pl == NodeLayout::Tabbed {
                    return None;
                }
            },
            None => {},
        }
        let v = n.height > n.width;
        let current = if v {
            NodeLayout::SplitV
        } else {
            NodeLayout::SplitH
        };
        if n.layout == current {
            None
        } else {
            Some(Clause::SplitCon { con: n.id, vertical: v })
        }
    }
}

/// After a focus event for a container has been evaluated, every following
/// focus event for the same container is dropped until another container
/// is evaluated.
pub proof fn lemma_repeated_focus_evaluated_once(s: Spiral, e1: WindowEvent, t1: u64, e2: WindowEvent, t2: u64)
    requires
        step(s, e1, t1).1,
        e2.container_id == e1.container_id,
    ensures
        !step(step(s, e1, t1).0, e2, t2).1,
        step(step(s, e1, t1).0, e2, t2).0.last_focused_id == Some(e1.container_id),
{
}

/// No focus event within the throttle window of an evaluated event is evaluated.
pub proof fn lemma_throttle_after_decision(s: Spiral, e1: WindowEvent, t1: u64, e2: WindowEvent, t2: u64)
    requires
        step(s, e1, t1).1,
        t1 <= t2 < t1 + THROTTLE_MS,
    ensures
        !step(step(s, e1, t1).0, e2, t2).1,
        step(step(s, e1, t1).0, e2, t2).0 == step(s, e1, t1).0,
{
}

} // verus!
