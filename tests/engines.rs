use persway::command::{render, Clause};
use persway::error::EngineError;
use persway::event::{WindowChange, WindowEvent};
use persway::layout::StackLayout;
use persway::spiral::Spiral;
use persway::stack_commands::StackMain as StackCommands;
use persway::stack_main::{Reaction, StackMain};
use persway::tree::{NodeInfo, NodeKind, NodeLayout, Tree};
use persway::workspace::Workspace;

fn node(id: i64, kind: NodeKind, depth: usize) -> NodeInfo {
    NodeInfo {
        id,
        kind,
        layout: NodeLayout::SplitH,
        width: 100,
        height: 100,
        focused: false,
        visible: false,
        fullscreen: false,
        window: false,
        num: None,
        depth,
    }
}

fn window(id: i64, depth: usize) -> NodeInfo {
    NodeInfo { window: true, visible: true, layout: NodeLayout::Unset, ..node(id, NodeKind::Con, depth) }
}

fn workspace_node(id: i64, num: i32) -> NodeInfo {
    NodeInfo { num: Some(num), ..node(id, NodeKind::Workspace, 2) }
}

/// Root, one output (id 2) and workspace number 1 (id 3), then `rest`.
fn tree_with(rest: Vec<NodeInfo>) -> Tree {
    let mut t = Tree::new();
    assert!(t.push(node(1, NodeKind::Root, 0)));
    assert!(t.push(node(2, NodeKind::Output, 1)));
    assert!(t.push(workspace_node(3, 1)));
    for n in rest {
        assert!(t.push(n));
    }
    t
}

fn ws(id: i64, num: i32, name: &str, focused: bool) -> Workspace {
    Workspace { id, num, name: name.to_string(), focused }
}

fn focused_one() -> Vec<Workspace> {
    vec![ws(3, 1, "1", true)]
}

fn event(change: WindowChange, id: i64) -> WindowEvent {
    WindowEvent { change, container_id: id, container_floating: false }
}

fn text(r: Result<Vec<Clause>, EngineError>) -> String {
    render(&r.expect("plan"))
}

#[test]
fn push_rejects_depth_jump() {
    let mut t = Tree::new();
    assert!(!t.push(node(1, NodeKind::Root, 1)));
    assert!(t.push(node(1, NodeKind::Root, 0)));
    assert!(!t.push(node(2, NodeKind::Output, 2)));
    assert_eq!(t.len(), 1);
}

#[test]
fn tree_queries() {
    let t = tree_with(vec![node(10, NodeKind::Con, 3), window(11, 4), window(12, 4), window(13, 3)]);
    assert_eq!(t.children(2), vec![3, 6]);
    assert_eq!(t.children(3), vec![4, 5]);
    assert_eq!(t.subtree_windows(2), vec![4, 5, 6]);
    assert_eq!(t.parent(5), Some(3));
    assert_eq!(t.parent(0), None);
    assert_eq!(t.workspace_of(5), Some(2));
    assert_eq!(t.workspace_of(1), None);
    assert_eq!(t.find_by_id(12), Some(5));
    assert_eq!(t.find_by_id(99), None);
}

#[test]
fn render_joins_clauses() {
    let v = vec![
        Clause::MarkStack(7),
        Clause::MoveToStackMark(7),
        Clause::UnmarkStack(7),
        Clause::MoveToWorkspace { con: 5, num: -3 },
        Clause::SwitchToTmpWorkspace,
        Clause::Hook { target: Some(4), text: "opacity 0.8".to_string() },
    ];
    assert_eq!(
        render(&v),
        "[con_id=7] mark --add _stack_7; move container to mark _stack_7; [con_mark=_stack_7] unmark _stack_7; [con_id=5] move to workspace number -3; workspace ◕‿◕; [con_id=4] opacity 0.8"
    );
    assert_eq!(render(&vec![]), "");
}

#[test]
fn decimal_text_of_extremes() {
    assert_eq!(persway::text::int_text(0), "0");
    assert_eq!(persway::text::int_text(-45), "-45");
    assert_eq!(persway::text::int_text(i64::MIN), "-9223372036854775808");
    assert_eq!(persway::text::int_text(i64::MAX), "9223372036854775807");
}

#[test]
fn spiral_single_window_splits_horizontally_once() {
    let mut w = window(10, 3);
    w.width = 800;
    w.height = 600;
    let t = tree_with(vec![w]);
    let c = Spiral::layout(&t, &focused_one(), 10).expect("a split");
    assert_eq!(render(&vec![c]), "[con_id=10] split h");
    w.layout = NodeLayout::SplitH;
    let t2 = tree_with(vec![w]);
    assert_eq!(Spiral::layout(&t2, &focused_one(), 10), None);
}

#[test]
fn spiral_tall_window_splits_vertically() {
    let mut w = window(10, 3);
    w.width = 600;
    w.height = 800;
    let t = tree_with(vec![w]);
    assert_eq!(Spiral::layout(&t, &focused_one(), 10), Some(Clause::SplitCon { con: 10, vertical: true }));
}

#[test]
fn spiral_skips_tabbed_floating_stale_and_scratchpad() {
    let mut tabbed = node(20, NodeKind::Con, 3);
    tabbed.layout = NodeLayout::Tabbed;
    let t = tree_with(vec![tabbed, window(21, 4)]);
    assert_eq!(Spiral::layout(&t, &focused_one(), 21), None);
    let f = NodeInfo { kind: NodeKind::FloatingCon, ..window(22, 3) };
    let t = tree_with(vec![f]);
    assert_eq!(Spiral::layout(&t, &focused_one(), 22), None);
    assert_eq!(Spiral::layout(&t, &focused_one(), 99), None);
    let t = tree_with(vec![window(23, 3)]);
    assert_eq!(Spiral::layout(&t, &vec![ws(3, -1, "__i3_scratch", true)], 23), None);
    assert_eq!(Spiral::layout(&t, &vec![ws(3, -1, "◕‿◕", true)], 23), None);
    assert_eq!(Spiral::layout(&t, &vec![ws(4, 1, "1", true)], 23), None);
}

#[test]
fn spiral_throttles_within_fifty_ms() {
    let mut s = Spiral::new();
    assert!(s.handle(&event(WindowChange::Focus, 1), 1000));
    assert!(!s.handle(&event(WindowChange::Focus, 2), 1049));
    assert_eq!(s.last_layout_time, Some(1000));
    assert!(s.handle(&event(WindowChange::Focus, 2), 1050));
}

#[test]
fn spiral_evaluates_repeated_focus_once() {
    let mut s = Spiral::new();
    assert!(s.handle(&event(WindowChange::Focus, 7), 0));
    assert!(!s.handle(&event(WindowChange::Focus, 7), 100));
    assert!(!s.handle(&event(WindowChange::Focus, 7), 200));
    assert!(s.handle(&event(WindowChange::Focus, 8), 300));
}

#[test]
fn spiral_ignores_other_events() {
    let mut s = Spiral::new();
    assert!(!s.handle(&event(WindowChange::New, 7), 0));
    assert_eq!(s, Spiral::new());
}

fn sm() -> StackMain {
    StackMain::new(67, StackLayout::Tabbed)
}

#[test]
fn new_window_on_single_leaf_splits() {
    let t = tree_with(vec![window(10, 3)]);
    let r = sm().on_new_window(&t, &focused_one(), &event(WindowChange::New, 10));
    assert_eq!(text(r), "[con_id=10] focus; split h");
}

#[test]
fn new_window_beside_bare_leaf_builds_stack() {
    let t = tree_with(vec![window(10, 3), window(11, 3)]);
    let r = sm().on_new_window(&t, &focused_one(), &event(WindowChange::New, 11));
    assert_eq!(
        text(r),
        "[con_id=10] focus; split v; layout tabbed; resize set width 33; [con_id=11] focus"
    );
}

#[test]
fn new_window_arrangements_stacked_and_tiled() {
    let t = tree_with(vec![window(10, 3), window(11, 3)]);
    let e = event(WindowChange::New, 11);
    let r = StackMain::new(70, StackLayout::Stacked).on_new_window(&t, &focused_one(), &e);
    assert_eq!(text(r), "[con_id=10] focus; split v; layout stacking; resize set width 30; [con_id=11] focus");
    let r = StackMain::new(100, StackLayout::Tiled).on_new_window(&t, &focused_one(), &e);
    assert_eq!(text(r), "[con_id=10] focus; split v; resize set width 0; [con_id=11] focus");
}

#[test]
fn new_window_inside_stack_swaps_with_main() {
    let t = tree_with(vec![node(20, NodeKind::Con, 3), window(10, 4), window(12, 4), window(11, 3)]);
    let r = sm().on_new_window(&t, &focused_one(), &event(WindowChange::New, 12));
    assert_eq!(text(r), "[con_id=11] focus; swap container with con_id 12; [con_id=12] focus");
    let r = sm().on_new_window(&t, &focused_one(), &event(WindowChange::New, 11));
    assert_eq!(text(r), "nop event container not in stack");
}

#[test]
fn new_window_third_node_joins_stack() {
    let t = tree_with(vec![node(20, NodeKind::Con, 3), window(10, 4), window(11, 3), window(12, 3)]);
    let r = sm().on_new_window(&t, &focused_one(), &event(WindowChange::New, 12));
    assert_eq!(
        text(r),
        "[con_id=20] mark --add _stack_20; [con_id=12] focus; move container to mark _stack_20; [con_mark=_stack_20] unmark _stack_20; [con_id=11] focus; swap container with con_id 12; [con_id=12] focus"
    );
}

#[test]
fn new_window_third_node_without_main_fails() {
    let t = tree_with(vec![node(20, NodeKind::Con, 3), window(10, 4), node(21, NodeKind::Con, 3), window(12, 3)]);
    let r = sm().on_new_window(&t, &focused_one(), &event(WindowChange::New, 12));
    assert_eq!(r, Err(EngineError::NoMainWindow));
}

#[test]
fn new_window_skips_stale_floating_and_many() {
    let t = tree_with(vec![window(10, 3)]);
    assert_eq!(text(sm().on_new_window(&t, &focused_one(), &event(WindowChange::New, 99))), "");
    let f = NodeInfo { fullscreen: true, ..window(10, 3) };
    let t = tree_with(vec![f]);
    assert_eq!(text(sm().on_new_window(&t, &focused_one(), &event(WindowChange::New, 10))), "");
    let t = tree_with(vec![window(10, 3), window(11, 3), window(12, 3), window(13, 3)]);
    assert_eq!(text(sm().on_new_window(&t, &focused_one(), &event(WindowChange::New, 13))), "");
}

#[test]
fn new_window_without_listed_workspace_fails() {
    let t = tree_with(vec![window(10, 3)]);
    let r = sm().on_new_window(&t, &vec![ws(9, 1, "1", true)], &event(WindowChange::New, 10));
    assert_eq!(r, Err(EngineError::NoWorkspace));
}

#[test]
fn close_leaving_one_window_flattens() {
    let mut w = window(10, 3);
    w.focused = true;
    let t = tree_with(vec![w]);
    let r = sm().on_close_window(&t, &focused_one(), &event(WindowChange::Close, 11));
    assert_eq!(text(r), "[con_id=10] focus; layout splith; move up");
}

#[test]
fn close_leaving_one_hidden_window_flattens() {
    let w = NodeInfo { visible: false, ..window(10, 4) };
    let t = tree_with(vec![node(20, NodeKind::Con, 3), w]);
    let r = sm().on_close_window(&t, &focused_one(), &event(WindowChange::Close, 11));
    assert_eq!(text(r), "[con_id=10] focus; layout splith; move up");
}

#[test]
fn close_leaving_stack_moves_window_to_main() {
    let t = tree_with(vec![node(20, NodeKind::Con, 3), window(10, 4), window(12, 4)]);
    let r = sm().on_close_window(&t, &focused_one(), &event(WindowChange::Close, 11));
    assert_eq!(text(r), "[con_id=10] focus; move right; resize set width 67");
}

#[test]
fn close_errors() {
    let t = tree_with(vec![node(20, NodeKind::Con, 3)]);
    let e = event(WindowChange::Close, 11);
    assert_eq!(sm().on_close_window(&t, &focused_one(), &e), Err(EngineError::NoVisibleWindow));
    assert_eq!(sm().on_close_window(&t, &vec![ws(3, 1, "1", false)], &e), Err(EngineError::NoFocusedWorkspace));
    assert_eq!(sm().on_close_window(&t, &vec![ws(8, 1, "1", true)], &e), Err(EngineError::NoWorkspaceNode));
    let t = tree_with(vec![window(10, 3), window(12, 3)]);
    assert_eq!(text(sm().on_close_window(&t, &focused_one(), &e)), "");
}

#[test]
fn events_route_by_change() {
    let t = tree_with(vec![window(10, 3)]);
    let wss = focused_one();
    let m = sm();
    assert_eq!(m.handle(&t, &wss, &event(WindowChange::New, 10)), Ok(Reaction::New));
    assert_eq!(m.handle(&t, &wss, &event(WindowChange::Close, 10)), Ok(Reaction::Close));
    assert_eq!(m.handle(&t, &wss, &event(WindowChange::Title, 10)), Ok(Reaction::Nothing));
    assert_eq!(m.handle(&t, &wss, &event(WindowChange::Move, 10)), Ok(Reaction::New));
    assert_eq!(m.handle(&t, &wss, &event(WindowChange::Move, 99)), Ok(Reaction::Nothing));
    let floated = WindowEvent { change: WindowChange::Floating, container_id: 10, container_floating: true };
    assert_eq!(m.handle(&t, &wss, &floated), Ok(Reaction::Close));
    let docked = WindowEvent { container_floating: false, ..floated };
    assert_eq!(m.handle(&t, &wss, &docked), Ok(Reaction::New));
    let other = vec![ws(3, 1, "1", false), ws(5, 2, "2", true)];
    assert_eq!(m.handle(&t, &other, &event(WindowChange::Move, 10)), Ok(Reaction::NewThenClose));
    assert_eq!(m.handle(&t, &vec![ws(9, 2, "2", true)], &event(WindowChange::Move, 10)), Ok(Reaction::Close));
    assert_eq!(m.handle(&t, &vec![ws(3, 1, "1", false)], &event(WindowChange::Move, 10)), Err(EngineError::NoFocusedWorkspace));
}

/// Stack container 20 with leaves 30, 31, 32, and main 40.
fn stack_tree(visible: [bool; 3], focused: Option<usize>) -> Tree {
    let mut leaves = Vec::new();
    for (k, v) in visible.iter().enumerate() {
        let mut w = window(30 + k as i64, 4);
        w.visible = *v;
        w.focused = focused == Some(k);
        leaves.push(w);
    }
    let mut rest = vec![node(20, NodeKind::Con, 3)];
    rest.extend(leaves);
    rest.push(window(40, 3));
    tree_with(rest)
}

#[test]
fn focus_next_from_only_visible_leaf() {
    let c = StackCommands::new();
    let t = stack_tree([false, true, false], None);
    assert_eq!(text(c.stack_focus_next(&t, &focused_one())), "[con_id=32] focus");
    let t = stack_tree([false, false, true], None);
    assert_eq!(text(c.stack_focus_next(&t, &focused_one())), "[con_id=30] focus");
}

#[test]
fn focus_prev_and_fallback_anchor() {
    let c = StackCommands::new();
    let t = stack_tree([false, true, false], None);
    assert_eq!(text(c.stack_focus_prev(&t, &focused_one())), "[con_id=30] focus");
    let t = stack_tree([true, true, true], None);
    assert_eq!(text(c.stack_focus_next(&t, &focused_one())), "[con_id=30] focus");
    assert_eq!(text(c.stack_focus_prev(&t, &focused_one())), "[con_id=32] focus");
    let t = stack_tree([true, true, true], Some(0));
    assert_eq!(text(c.stack_focus_next(&t, &focused_one())), "[con_id=31] focus");
}

#[test]
fn swap_main_with_anchor() {
    let c = StackCommands::new();
    let t = stack_tree([false, false, true], None);
    assert_eq!(text(c.stack_swap_main(&t, &focused_one())), "[con_id=40] focus; swap container with con_id 32; [con_id=32] focus");
    let t = stack_tree([true, true, false], None);
    assert_eq!(text(c.stack_swap_main(&t, &focused_one())), "[con_id=40] focus; swap container with con_id 30; [con_id=30] focus");
}

#[test]
fn rotate_scripts() {
    let c = StackCommands::new();
    let t = stack_tree([true, false, false], None);
    assert_eq!(
        text(c.stack_main_rotate_next(&t, &focused_one())),
        "[con_id=30] focus; swap container with con_id 31; [con_id=31] focus; swap container with con_id 32; [con_id=30] focus; [con_id=40] focus"
    );
    assert_eq!(
        text(c.stack_main_rotate_prev(&t, &focused_one())),
        "[con_id=32] focus; swap container with con_id 31; [con_id=31] focus; swap container with con_id 30; [con_id=30] focus; [con_id=40] focus"
    );
    assert_eq!(text(c.stack_main_rotate_finish(&t, &focused_one(), false)), "[con_id=40] focus; swap container with con_id 30; [con_id=30] focus");
    assert_eq!(text(c.stack_main_rotate_finish(&t, &focused_one(), true)), "[con_id=40] focus; swap container with con_id 32; [con_id=32] focus");
}

#[test]
fn stack_commands_on_empty_workspace_do_nothing() {
    let c = StackCommands::new();
    let t = tree_with(vec![]);
    assert_eq!(text(c.stack_focus_next(&t, &focused_one())), "");
    let t = tree_with(vec![window(10, 3)]);
    assert_eq!(text(c.stack_swap_main(&t, &focused_one())), "");
    let t = tree_with(vec![node(20, NodeKind::Con, 3), node(21, NodeKind::Con, 4), window(40, 3)]);
    assert_eq!(c.stack_main_rotate_finish(&t, &focused_one(), false), Err(EngineError::EmptyStack));
}
