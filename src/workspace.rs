//! Workspaces as the compositor lists them, and which of them are managed.
use vstd::prelude::*;
use crate::command::{SCRATCHPAD_WORKSPACE, TMP_WORKSPACE};
use crate::tree::{Tree, NodeInfo, workspace_node_of, opt_int};
use crate::text::{decimal, int_text};

verus! {

/// A workspace as listed by the compositor.
#[derive(Clone, Debug, PartialEq, Eq)]
pub struct Workspace {
    pub id: i64,
    /// The workspace number, or -1 for a workspace whose name has none.
    pub num: i32,
    pub name: String,
    pub focused: bool,
}

/// The workspace is the compositor's scratchpad.
pub open spec fn is_scratchpad(ws: Workspace) -> bool {
    ws.name@ == SCRATCHPAD_WORKSPACE@
}

/// The workspace is the temporary one used while rebuilding a workspace.
pub open spec fn is_tmp(ws: Workspace) -> bool {
    ws.name@ == TMP_WORKSPACE@
}

/// Layout engines leave the workspace alone.
pub open spec fn is_special(ws: Workspace) -> bool {
    is_scratchpad(ws) || is_tmp(ws)
}

/// `i` is the first focused workspace of the list.
pub open spec fn first_focused(wss: Seq<Workspace>, i: int) -> bool {
    &&& 0 <= i < wss.len()
    &&& wss[i].focused
    &&& forall|k: int| 0 <= k < i ==> !(#[trigger] wss[k]).focused
}

/// The first focused workspace of the list, if any.
pub open spec fn focused_index(wss: Seq<Workspace>) -> Option<int> {
    if exists|i: int| first_focused(wss, i) {
        Some(choose|i: int| first_focused(wss, i))
    } else {
        None
    }
}

/// Whether `ws` is the scratchpad workspace.
pub fn is_scratchpad_workspace(ws: &Workspace) -> (r: bool)
    ensures
        r == is_scratchpad(*ws),
{
    ws.name == String::from_str(SCRATCHPAD_WORKSPACE)
}

/// Whether `ws` is the temporary workspace.
pub fn is_persway_tmp_workspace(ws: &Workspace) -> (r: bool)
    ensures
        r == is_tmp(*ws),
{
    ws.name == String::from_str(TMP_WORKSPACE)
}

/// Whether the layout engines skip `ws`.
pub fn should_skip_layout_of_workspace(ws: &Workspace) -> (r: bool)
    ensures
        r == is_special(*ws),
{
    is_persway_tmp_workspace(ws) || is_scratchpad_workspace(ws)
}

/// The first focused workspace of the list.
pub fn get_focused_workspace(wss: &Vec<Workspace>) -> (r: Option<usize>)
    ensures
        match r {
            Some(i) => first_focused(wss@, i as int),
            None => forall|k: int| 0 <= k < wss@.len() ==> !(#[trigger] wss@[k]).focused,
        },
        opt_int(r) == focused_index(wss@),
{
    let mut i: usize = 0;
    while i < wss.len()
        invariant
            i <= wss@.len(),
            forall|k: int| 0 <= k < i ==> !(#[trigger] wss@[k]).focused,
        decreases wss@.len() - i,
    {
        if wss[i].focused {
            proof {
                assert(first_focused(wss@, i as int));
                let c = choose|c: int| first_focused(wss@, c);
                if c > i {
                    assert(!wss@[i as int].focused);
                }
            }
            return Some(i);
        }
        i = i + 1;
    }
    None
}

/// `i` is the first listed workspace whose id is `id`.
pub open spec fn first_ws_with_id(wss: Seq<Workspace>, id: i64, i: int) -> bool {
    &&& 0 <= i < wss.len()
    &&& wss[i].id == id
    &&& forall|k: int| 0 <= k < i ==> (#[trigger] wss[k]).id != id
}

/// The first listed workspace with the given id.
pub fn find_workspace(wss: &Vec<Workspace>, id: i64) -> (r: Option<usize>)
    ensures
        match r {
            Some(i) => first_ws_with_id(wss@, id, i as int),
            None => forall|k: int| 0 <= k < wss@.len() ==> (#[trigger] wss@[k]).id != id,
        },
        opt_int(r) == ws_index_of(wss@, id),
{
    let mut i: usize = 0;
    while i < wss.len()
        invariant
            i <= wss@.len(),
            forall|k: int| 0 <= k < i ==> (#[trigger] wss@[k]).id != id,
        decreases wss@.len() - i,
    {
        if wss[i].id == id {
            proof {
                assert(first_ws_with_id(wss@, id, i as int));
                let c = choose|c: int| first_ws_with_id(wss@, id, c);
                if c > i {
                    assert(wss@[i as int].id != id);
                }
            }
            return Some(i);
        }
        i = i + 1;
    }
    None
}

/// The first listed workspace with the given id.
pub open spec fn ws_index_of(wss: Seq<Workspace>, id: i64) -> Option<int> {
    if exists|i: int| first_ws_with_id(wss, id, i) {
        Some(choose|i: int| first_ws_with_id(wss, id, i))
    } else {
        None
    }
}

/// The workspace that holds node `j`: the index of its node in the
/// snapshot and of its entry in the list.
pub open spec fn node_ws(t: Seq<NodeInfo>, wss: Seq<Workspace>, j: int) -> Option<(int, int)> {
    match workspace_node_of(t, j) {
        Some(w) => match ws_index_of(wss, t[w].id) {
            Some(i) => Some((w, i)),
            None => None,
        },
        None => None,
    }
}

pub open spec fn opt_pair(o: Option<(usize, usize)>) -> Option<(int, int)> {
    match o {
        Some((a, b)) => Some((a as int, b as int)),
        None => None,
    }
}

/// The workspace that holds node `j`: its node in the snapshot and its
/// entry in the list. `None` when either is missing.
pub fn workspace_of_node(tree: &Tree, wss: &Vec<Workspace>, j: usize) -> (r: Option<(usize, usize)>)
    requires
        j < tree@.len(),
    ensures
        opt_pair(r) == node_ws(tree@, wss@, j as int),
{
    match tree.workspace_of(j) {
        Some(w) => match find_workspace(wss, tree.nodes[w].id) {
            Some(i) => Some((w, i)),
            None => None,
        },
        None => None,
    }
}

/// The names in order of first appearance, each once.
pub open spec fn distinct_names(v: Seq<Seq<char>>) -> Seq<Seq<char>>
    decreases v.len(),
{
    if v.len() == 0 {
        seq![]
    } else {
        let d = distinct_names(v.drop_last());
        if d.contains(v.last()) {
            d
        } else {
            d.push(v.last())
        }
    }
}

/// The names joined by single spaces.
pub open spec fn joined(v: Seq<Seq<char>>) -> Seq<char>
    decreases v.len(),
{
    if v.len() == 0 {
        seq![]
    } else if v.len() == 1 {
        v[0]
    } else {
        joined(v.drop_last()) + " "@ + v.last()
    }
}

pub open spec fn views(v: Seq<String>) -> Seq<Seq<char>> {
    v.map_values(|s: String| s@)
}

/// Name of workspace `num` showing the applications `apps`:
/// `<num>: <app> <app> ...`, each application once, or the number alone.
pub open spec fn workspace_name_text(num: i32, apps: Seq<Seq<char>>) -> Seq<char> {
    let d = distinct_names(apps);
    if d.len() == 0 {
        decimal(num as int)
    } else {
        decimal(num as int) + ": "@ + joined(d)
    }
}

fn contains_name(v: &Vec<String>, s: &String) -> (r: bool)
    ensures
        r == views(v@).contains(s@),
{
    let mut i: usize = 0;
    while i < v.len()
        invariant
            i <= v@.len(),
            forall|k: int| 0 <= k < i ==> (#[trigger] v@[k])@ != s@,
        decreases v@.len() - i,
    {
        if v[i] == *s {
            assert(views(v@)[i as int] == s@);
            return true;
        }
        i = i + 1;
    }
    proof {
        if views(v@).contains(s@) {
            let k = choose|k: int| 0 <= k < views(v@).len() && views(v@)[k] == s@;
            assert(v@[k]@ == s@);
        }
    }
    false
}

/// The name for workspace `num` from the applications of its windows.
pub fn workspace_name(num: i32, apps: &Vec<String>) -> (r: String)
    ensures
        r@ == workspace_name_text(num, views(apps@)),
{
    let mut seen: Vec<String> = Vec::new();
    let mut i: usize = 0;
    while i < apps.len()
        invariant
            i <= apps@.len(),
            views(seen@) == distinct_names(views(apps@.take(i as int))),
        decreases apps@.len() - i,
    {
        proof {
            assert(views(apps@.take(i as int + 1)).drop_last() =~= views(apps@.take(i as int)));
        }
        if !contains_name(&seen, &apps[i]) {
            let ghost before = seen@;
            seen.push(apps[i].clone());
            assert(views(seen@) =~= views(before).push(apps@[i as int]@));
        }
        i = i + 1;
    }
    assert(apps@.take(apps@.len() as int) =~= apps@);
    let mut name = int_text(num as i64);
    if seen.len() > 0 {
        name.append(": ");
        let mut k: usize = 0;
        while k < seen.len()
            invariant
                k <= seen@.len(),
                seen@.len() > 0,
                name@ == decimal(num as int) + ": "@ + joined(views(seen@.take(k as int))),
            decreases seen@.len() - k,
        {
            proof {
                assert(views(seen@.take(k as int + 1)).drop_last() =~= views(seen@.take(k as int)));
            }
            if k > 0 {
                name.append(" ");
            }
            name.append(seen[k].as_str());
            proof {
                if k == 0 {
                    assert(joined(views(seen@.take(0))) =~= seq![]);
                }
                assert(name@ =~= decimal(num as int) + ": "@ + joined(views(seen@.take(k as int + 1))));
            }
            k = k + 1;
        }
        assert(seen@.take(seen@.len() as int) =~= seen@);
    }
    name
}

} // verus!
