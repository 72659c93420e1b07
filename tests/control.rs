use persway::client::parse_reply;
use persway::command::{render, Clause};
use persway::daemon::{get_socket_path, reply_line, Daemon};
use persway::event::{WindowChange, WindowEvent};
use persway::layout::{describe, StackLayout, WorkspaceLayout};
use persway::message_handler::{CommandAction, DaemonArgs, MessageHandler, PerswayCommand, Route};
use persway::relayout::{relayout_site, restore, return_scripts, vacate};
use persway::stack_main::StackMain;
use persway::tree::{NodeInfo, NodeKind, NodeLayout, Tree};
use persway::window_focus::WindowFocus;
use persway::workspace::{
    get_focused_workspace, is_persway_tmp_workspace, is_scratchpad_workspace,
    should_skip_layout_of_workspace, workspace_name, Workspace,
};

fn ws(id: i64, num: i32, name: &str, focused: bool) -> Workspace {
    Workspace { id, num, name: name.to_string(), focused }
}

fn args(default_layout: WorkspaceLayout) -> DaemonArgs {
    DaemonArgs {
        default_layout,
        stack_main_default_size: 60,
        stack_main_default_stack_layout: StackLayout::Stacked,
        workspace_renaming: true,
        on_window_focus: Some("opacity 1".to_string()),
        on_window_focus_leave: Some("opacity 0.8".to_string()),
        on_exit: None,
    }
}

fn daemon(default_layout: WorkspaceLayout) -> Daemon {
    Daemon::new(args(default_layout), "/run/p.sock".to_string())
}

fn focus(id: i64) -> WindowEvent {
    WindowEvent { change: WindowChange::Focus, container_id: id, container_floating: false }
}

#[test]
fn change_to_current_layout_succeeds_without_relayout() {
    let mut d = daemon(WorkspaceLayout::Spiral);
    let cmd = PerswayCommand::ChangeLayout { layout: WorkspaceLayout::Spiral };
    let (reply, action) = d.on_request(Some(cmd), Some(ws(3, 1, "1", true)));
    assert_eq!(reply, "success");
    assert_eq!(action, CommandAction::Nothing);
    assert_eq!(d.message_handler.get_workspace_config(1).layout, WorkspaceLayout::Spiral);
}

#[test]
fn change_to_other_layout_stores_it_and_relayouts() {
    let mut d = daemon(WorkspaceLayout::Manual);
    let layout = WorkspaceLayout::StackMain { size: 67, stack_layout: StackLayout::Tabbed };
    let (reply, action) = d.on_request(Some(PerswayCommand::ChangeLayout { layout }), Some(ws(3, 4, "4", true)));
    assert_eq!(reply, "success");
    assert_eq!(action, CommandAction::Relayout(4));
    assert_eq!(d.message_handler.get_workspace_config(4).layout, layout);
    assert_eq!(d.message_handler.get_workspace_config(5).layout, WorkspaceLayout::Manual);
}

#[test]
fn oversized_stack_main_is_refused() {
    let mut h = MessageHandler::new(WorkspaceLayout::Manual, false, None, None);
    let layout = WorkspaceLayout::StackMain { size: 101, stack_layout: StackLayout::Tiled };
    let r = h.handle_command(&PerswayCommand::ChangeLayout { layout }, &ws(3, 1, "1", true));
    assert_eq!(r, Err("stack-main size must be at most 100, got 101".to_string()));
    assert_eq!(h.get_workspace_config(1).layout, WorkspaceLayout::Manual);
}

#[test]
fn stack_command_under_spiral_names_the_fix() {
    let mut d = daemon(WorkspaceLayout::Spiral);
    let (reply, action) = d.on_request(Some(PerswayCommand::StackFocusNext), Some(ws(3, 2, "2: web", true)));
    assert_eq!(action, CommandAction::Nothing);
    assert_eq!(
        reply,
        "fail: stack-focus-next only works on stack-main workspaces.\nFocused workspace: 2 ('2: web')\nCurrent layout: Spiral\nFix: persway change-layout stack-main"
    );
    for cmd in [
        PerswayCommand::StackFocusPrev,
        PerswayCommand::StackMainRotateNext,
        PerswayCommand::StackMainRotatePrev,
        PerswayCommand::StackSwapMain,
    ] {
        let (reply, _) = d.on_request(Some(cmd), Some(ws(3, 2, "2", true)));
        assert!(reply.starts_with("fail: "));
        assert!(reply.ends_with("change-layout stack-main"));
    }
}

#[test]
fn stack_commands_accepted_under_stack_main() {
    let mut d = daemon(WorkspaceLayout::StackMain { size: 70, stack_layout: StackLayout::Tabbed });
    let w = ws(3, 2, "2", true);
    assert_eq!(d.on_request(Some(PerswayCommand::StackSwapMain), Some(w.clone())).1, CommandAction::StackSwapMain);
    assert_eq!(d.on_request(Some(PerswayCommand::StackFocusPrev), Some(w.clone())).1, CommandAction::StackFocusPrev);
    assert_eq!(d.on_request(Some(PerswayCommand::StackMainRotateNext), Some(w.clone())).1, CommandAction::StackMainRotateNext);
    assert_eq!(d.on_request(Some(PerswayCommand::StackMainRotatePrev), Some(w.clone())).1, CommandAction::StackMainRotatePrev);
    assert_eq!(d.on_request(Some(PerswayCommand::StackFocusNext), Some(w)).0, "success");
}

#[test]
fn invalid_line_fails_and_keeps_store() {
    let mut d = daemon(WorkspaceLayout::Spiral);
    let _ = d.on_request(
        Some(PerswayCommand::ChangeLayout { layout: WorkspaceLayout::Manual }),
        Some(ws(3, 1, "1", true)),
    );
    let (reply, action) = d.on_request(None, Some(ws(3, 1, "1", true)));
    assert_eq!(reply, "fail: invalid command");
    assert_eq!(action, CommandAction::Nothing);
    assert_eq!(d.message_handler.get_workspace_config(1).layout, WorkspaceLayout::Manual);
}

#[test]
fn request_without_focused_workspace_fails() {
    let mut d = daemon(WorkspaceLayout::Spiral);
    let (reply, _) = d.on_request(Some(PerswayCommand::StackSwapMain), None);
    assert_eq!(reply, "fail: no focused workspace");
}

#[test]
fn unnumbered_workspace_and_daemon_command_fail() {
    let mut d = daemon(WorkspaceLayout::Spiral);
    let (reply, _) = d.on_request(Some(PerswayCommand::StackSwapMain), Some(ws(3, -1, "web", true)));
    assert_eq!(
        reply,
        "fail: Focused workspace 'web' has no numeric workspace number, so persway commands that key off ws.num won't apply. Consider naming workspaces with a leading number (e.g. '1: web')."
    );
    let (reply, _) = d.on_request(Some(PerswayCommand::Daemon(args(WorkspaceLayout::Manual))), Some(ws(3, 1, "1", true)));
    assert_eq!(reply, "fail: the daemon command is not accepted by a running daemon");
}

#[test]
fn default_stack_main_takes_its_settings() {
    let mut d = daemon(WorkspaceLayout::StackMain { size: 10, stack_layout: StackLayout::Tiled });
    assert_eq!(
        d.message_handler.get_workspace_config(9).layout,
        WorkspaceLayout::StackMain { size: 60, stack_layout: StackLayout::Stacked }
    );
    assert_eq!(d.socket_path, "/run/p.sock");
}

#[test]
fn events_route_by_policy_read_at_dispatch() {
    let mut h = MessageHandler::new(WorkspaceLayout::Spiral, true, None, None);
    let e = focus(10);
    let d = h.handle_event(&e, 1);
    assert!(d.rename);
    assert_eq!(d.route, Route::Spiral);
    let layout = WorkspaceLayout::StackMain { size: 67, stack_layout: StackLayout::Tabbed };
    let _ = h.handle_command(&PerswayCommand::ChangeLayout { layout }, &ws(3, 1, "1", true));
    assert_eq!(h.handle_event(&e, 1).route, Route::StackMain(StackMain::new(67, StackLayout::Tabbed)));
    let _ = h.handle_command(&PerswayCommand::ChangeLayout { layout: WorkspaceLayout::Manual }, &ws(3, 1, "1", true));
    assert_eq!(h.handle_event(&e, 1).route, Route::Manual);
}

#[test]
fn focus_hooks_leave_then_focus() {
    let mut f = WindowFocus::new(Some("opacity 1".to_string()), Some("opacity 0.8".to_string()));
    assert_eq!(render(&f.handle(&focus(5))), "[con_id=5] opacity 1");
    assert_eq!(render(&f.handle(&focus(6))), "[con_id=5] opacity 0.8; [con_id=6] opacity 1");
    assert_eq!(render(&f.handle(&focus(6))), "[con_id=6] opacity 1");
    let close = WindowEvent { change: WindowChange::Close, container_id: 6, container_floating: false };
    assert!(f.handle(&close).is_empty());
    assert_eq!(f.previously_focused_id, None);
    assert_eq!(render(&f.handle(&focus(7))), "[con_id=7] opacity 1");
}

#[test]
fn focus_hooks_missing_commands_skipped() {
    let mut f = WindowFocus::new(None, None);
    assert!(f.handle(&focus(5)).is_empty());
    assert!(f.handle(&focus(6)).is_empty());
    assert_eq!(f.previously_focused_id, Some(6));
    assert_eq!(WindowFocus::run_cmd(&None, Some(3)), None);
}

#[test]
fn reply_lines() {
    assert_eq!(reply_line(&Ok(CommandAction::Nothing)), "success");
    assert_eq!(reply_line(&Err("boom".to_string())), "fail: boom");
}

#[test]
fn client_reads_replies() {
    assert_eq!(parse_reply("success\n"), Ok(()));
    assert_eq!(parse_reply("fail: invalid command\n"), Err("invalid command".to_string()));
    assert_eq!(parse_reply("fail:x  \r\n"), Err("x".to_string()));
    assert_eq!(parse_reply("hello"), Err("unexpected response: hello".to_string()));
    assert_eq!(parse_reply(""), Err("unexpected response: ".to_string()));
}

#[test]
fn client_trims_unicode_whitespace() {
    assert_eq!(parse_reply("success\u{a0}"), Ok(()));
    assert_eq!(parse_reply("success\u{3000}\u{2028}\n"), Ok(()));
    assert_eq!(parse_reply("fail:\u{2003}no\u{85}"), Err("no".to_string()));
    assert_eq!(parse_reply("success\u{200b}"), Err("unexpected response: success\u{200b}".to_string()));
}

#[test]
fn socket_path_defaults() {
    assert_eq!(get_socket_path(Some("/x".to_string()), None, None), "/x");
    assert_eq!(
        get_socket_path(None, Some("/run/user/1".to_string()), Some("wayland-1".to_string())),
        "/run/user/1/persway-wayland-1.sock"
    );
    assert_eq!(get_socket_path(None, None, None), "/tmp/persway-unknown.sock");
}

#[test]
fn workspace_kinds() {
    assert!(is_scratchpad_workspace(&ws(1, -1, "__i3_scratch", false)));
    assert!(is_persway_tmp_workspace(&ws(1, -1, "◕‿◕", false)));
    assert!(should_skip_layout_of_workspace(&ws(1, -1, "◕‿◕", false)));
    assert!(!should_skip_layout_of_workspace(&ws(1, 1, "1", false)));
    let wss = vec![ws(1, 1, "1", false), ws(2, 2, "2", true), ws(3, 3, "3", true)];
    assert_eq!(get_focused_workspace(&wss), Some(1));
    assert_eq!(get_focused_workspace(&vec![ws(1, 1, "1", false)]), None);
}

#[test]
fn workspace_names() {
    let apps = vec!["kitty".to_string(), "firefox".to_string(), "kitty".to_string()];
    assert_eq!(workspace_name(3, &apps), "3: kitty firefox");
    assert_eq!(workspace_name(3, &vec![]), "3");
}

#[test]
fn layout_descriptions() {
    assert_eq!(describe(WorkspaceLayout::Manual), "Manual");
    assert_eq!(
        describe(WorkspaceLayout::StackMain { size: 70, stack_layout: StackLayout::Tabbed }),
        "StackMain { size: 70, stack_layout: Tabbed }"
    );
}

fn n(id: i64, kind: NodeKind, depth: usize) -> NodeInfo {
    NodeInfo {
        id,
        kind,
        layout: NodeLayout::SplitH,
        width: 10,
        height: 10,
        focused: false,
        visible: true,
        fullscreen: false,
        window: kind == NodeKind::Con,
        num: if kind == NodeKind::Workspace { Some(id as i32) } else { None },
        depth,
    }
}

#[test]
fn relayout_scripts() {
    let mut t = Tree::new();
    for node in [
        n(1, NodeKind::Root, 0),
        n(100, NodeKind::Output, 1),
        n(2, NodeKind::Workspace, 2),
        n(50, NodeKind::Con, 3),
        n(200, NodeKind::Output, 1),
        n(4, NodeKind::Workspace, 2),
        n(60, NodeKind::Con, 3),
        n(61, NodeKind::Con, 3),
    ] {
        assert!(t.push(node));
    }
    let site = relayout_site(&t, 4).expect("site");
    assert_eq!(site.output_id, 200);
    assert_eq!(site.windows, vec![60, 61]);
    assert!(relayout_site(&t, 9).is_none());
    assert_eq!(render(&vacate(200)), "workspace ◕‿◕; move workspace to output 200");
    let back: Vec<String> = return_scripts(&site.windows, 4).iter().map(render).collect();
    assert_eq!(
        back,
        vec![
            "[con_id=61] move to workspace number 4; [con_id=61] focus".to_string(),
            "[con_id=60] move to workspace number 4; [con_id=60] focus".to_string(),
        ]
    );
    let before = ws(2, 2, "2: web", true);
    assert_eq!(
        render(&restore(&before, 7, 200)),
        "workspace number 2; move workspace to output 200; rename workspace to 2: web"
    );
    assert_eq!(render(&restore(&before, 2, 200)), "rename workspace to 2: web");
    assert_eq!(
        render(&vec![Clause::SwitchToWorkspaceNumber(-1), Clause::RenameWorkspace("x".to_string())]),
        "workspace number -1; rename workspace to x"
    );
}
