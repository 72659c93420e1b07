//! Rebuilding a workspace under a new policy.
//!
//! The workspace is vacated by switching its output to the temporary
//! workspace; its windows are then moved back one by one, newest capture
//! last, so that each re-enters as a new window; finally the earlier
//! focus and name are restored.
use vstd::prelude::*;
use crate::command::Clause;
use crate::tree::{
    NodeKind, NodeInfo, Probe, Tree, first_match, ids_of, nearest_of_kind, windows_of,
};
use crate::workspace::Workspace;

verus! {

/// The workspace to rebuild as the snapshot shows it.
pub struct RelayoutSite {
    /// Index of the workspace node.
    pub ws: usize,
    /// Index of the output node that shows it.
    pub output: usize,
    /// Id of that output.
    pub output_id: i64,
    /// Ids of the workspace's windows, in capture (pre-)order.
    pub windows: Vec<i64>,
}

/// The workspace node numbered `n` (first in pre-order) and its output.
pub open spec fn relayout_nodes(t: Seq<NodeInfo>, n: i32) -> Option<(int, int)> {
    match first_match(t, Probe::WorkspaceNum(n)) {
        None => None,
        Some(w) => match nearest_of_kind(t, w, NodeKind::Output) {
            None => None,
            Some(o) => Some((w, o)),
        },
    }
}

/// Clauses that vacate the workspace: the temporary workspace is shown on its output.
pub open spec fn vacate_clauses(output_id: i64) -> Seq<Clause> {
    seq![Clause::SwitchToTmpWorkspace, Clause::MoveWorkspaceToOutput(output_id)]
}

/// Clauses that bring window `w` back to workspace `n` and focus it.
pub open spec fn return_clauses(w: i64, n: i32) -> Seq<Clause> {
    seq![Clause::MoveToWorkspace { con: w, num: n }, Clause::Focus(w)]
}

/// Clauses that restore the workspace focused before: shown again on the
/// output when focus moved to another workspace, and its name restored.
pub open spec fn restore_clauses(before: Workspace, after_num: i32, output_id: i64) -> Seq<Clause> {
    (if after_num != before.num {
        seq![Clause::SwitchToWorkspaceNumber(before.num), Clause::MoveWorkspaceToOutput(output_id)]
    } else {
        seq![]
    }) + seq![Clause::RenameWorkspace(before.name)]
}

/// Finds the workspace numbered `ws_num` and the output that shows it.
pub fn relayout_site(tree: &Tree, ws_num: i32) -> (r: Option<RelayoutSite>)
    ensures
        match r {
            None => relayout_nodes(tree@, ws_num) is None,
            Some(s) => {
                &&& relayout_nodes(tree@, ws_num) == Some((s.ws as int, s.output as int))
                &&& s.output_id == tree@[s.output as int].id
                &&& s.windows@ == ids_of(tree@, windows_of(tree@, s.ws as int))
            },
        },
{
    let w = match tree.find_first(Probe::WorkspaceNum(ws_num)) {
        Some(w) => w,
        None => return None,
    };
    let o = match tree.nearest_of_kind(w, NodeKind::Output) {
        Some(o) => o,
        None => return None,
    };
    let wins = tree.subtree_windows(w);
    let windows = tree.ids(&wins);
    Some(RelayoutSite { ws: w, output: o, output_id: tree.nodes[o].id, windows })
}

/// The script that vacates the workspace.
pub fn vacate(output_id: i64) -> (r: Vec<Clause>)
    ensures
        r@ == vacate_clauses(output_id),
{
    let r = vec![Clause::SwitchToTmpWorkspace, Clause::MoveWorkspaceToOutput(output_id)];
    assert(r@ =~= vacate_clauses(output_id));
    r
}

/// The scripts that bring the captured windows back to workspace `ws_num`,
/// one per window, in reverse capture order.
pub fn return_scripts(windows: &Vec<i64>, ws_num: i32) -> (r: Vec<Vec<Clause>>)
    ensures
        r@.len() == windows@.len(),
        forall|i: int| 0 <= i < r@.len() ==> #[trigger] r@[i]@ == return_clauses(windows@[windows@.len() - 1 - i], ws_num),
{
    let n = windows.len();
    let mut r: Vec<Vec<Clause>> = Vec::new();
    let mut i: usize = 0;
    while i < n
        invariant
            n == windows@.len(),
            i <= n,
            r@.len() == i,
            forall|k: int| 0 <= k < i ==> #[trigger] r@[k]@ == return_clauses(windows@[n - 1 - k], ws_num),
        decreases n - i,
    {
        let w = windows[n - 1 - i];
        let s = vec![Clause::MoveToWorkspace { con: w, num: ws_num }, Clause::Focus(w)];
        assert(s@ =~= return_clauses(w, ws_num));
        r.push(s);
        i = i + 1;
    }
    r
}

/// The script that restores the workspace focused before the rebuild.
pub fn restore(before: &Workspace, after_num: i32, output_id: i64) -> (r: Vec<Clause>)
    ensures
        r@ == restore_clauses(*before, after_num, output_id),
{
    let mut r: Vec<Clause> = Vec::new();
    if after_num != before.num {
        r.push(Clause::SwitchToWorkspaceNumber(before.num));
        r.push(Clause::MoveWorkspaceToOutput(output_id));
    }
    r.push(Clause::RenameWorkspace(before.name.clone()));
    assert(r@ =~= restore_clauses(*before, after_num, output_id));
    r
}

} // verus!
