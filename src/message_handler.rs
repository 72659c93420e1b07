//! The policy store, per-event dispatch and control-command handling.
use vstd::prelude::*;
use std::collections::HashMap;
use crate::command::Clause;
use crate::event::WindowEvent;
use crate::layout::{StackLayout, WorkspaceLayout, describe, layout_text};
use crate::stack_main::StackMain;
use crate::text::{decimal, push_int};
use crate::window_focus::{WindowFocus, hooks_for, tracked_after};
use crate::workspace::Workspace;

verus! {

broadcast use vstd::std_specs::hash::group_hash_axioms;

/// Configuration of one workspace.
#[derive(Clone, Copy, Debug, PartialEq, Eq, Structural)]
pub struct WorkspaceConfig {
    pub layout: WorkspaceLayout,
}

/// Settings of the daemon, as given on its command line.
#[derive(Clone, Debug)]
pub struct DaemonArgs {
    pub default_layout: WorkspaceLayout,
    pub stack_main_default_size: u8,
    pub stack_main_default_stack_layout: StackLayout,
    pub workspace_renaming: bool,
    pub on_window_focus: Option<String>,
    pub on_window_focus_leave: Option<String>,
    pub on_exit: Option<String>,
}

/// A command of the control protocol.
#[derive(Clone, Debug)]
pub enum PerswayCommand {
    /// Start the daemon; never handled by a running one.
    Daemon(DaemonArgs),
    ChangeLayout { layout: WorkspaceLayout },
    StackFocusNext,
    StackFocusPrev,
    StackMainRotateNext,
    StackMainRotatePrev,
    StackSwapMain,
}

/// Which engine an event goes to.
#[derive(Clone, Copy, Debug, PartialEq, Eq, Structural)]
pub enum Route {
    /// The spiral worker's queue.
    Spiral,
    /// A stack-main task with these parameters.
    StackMain(StackMain),
    /// No automation.
    Manual,
}

/// What to do with one window event.
pub struct Dispatch {
    /// Restart the debounce timer of workspace renaming.
    pub rename: bool,
    pub route: Route,
    /// Focus-hook clauses, each to be sent on its own, in order.
    pub hooks: Vec<Clause>,
}

/// The work a control command calls for once accepted.
#[derive(Clone, Copy, Debug, PartialEq, Eq, Structural)]
pub enum CommandAction {
    /// Nothing beyond replying.
    Nothing,
    /// Rebuild the workspace with this number under its new policy.
    Relayout(i32),
    StackFocusNext,
    StackFocusPrev,
    StackMainRotateNext,
    StackMainRotatePrev,
    StackSwapMain,
}

/// Owner of the policy store and of the focus-hook engine.
pub struct MessageHandler {
    /// Policies by workspace number.
    pub workspace_config: HashMap<i32, WorkspaceConfig>,
    /// Policy of a workspace seen for the first time.
    pub default_layout: WorkspaceLayout,
    pub workspace_renaming: bool,
    pub window_focus_handler: WindowFocus,
}

pub open spec fn route_of(l: WorkspaceLayout) -> Route {
    match l {
        WorkspaceLayout::Spiral => Route::Spiral,
        WorkspaceLayout::StackMain { size, stack_layout } => Route::StackMain(
            StackMain { size, stack_layout },
        ),
        WorkspaceLayout::Manual => Route::Manual,
    }
}

/// The store once workspace `n` has been looked up: an entry with the
/// default policy is made for a workspace seen for the first time.
pub open spec fn store_touched(m: Map<i32, WorkspaceConfig>, d: WorkspaceLayout, n: i32) -> Map<i32, WorkspaceConfig> {
    if m.contains_key(n) {
        m
    } else {
        m.insert(n, WorkspaceConfig { layout: d })
    }
}

pub open spec fn not_numbered_text(name: Seq<char>) -> Seq<char> {
    "Focused workspace '"@ + name
        + "' has no numeric workspace number, so persway commands that key off ws.num won't apply. Consider naming workspaces with a leading number (e.g. '1: web')."@
}

/// The remedy named when a stack command meets another policy.
pub open spec fn remedy() -> Seq<char> {
    "change-layout stack-main"@
}

pub open spec fn require_stack_main_text(cmd: Seq<char>, num: i32, name: Seq<char>, l: WorkspaceLayout) -> Seq<char> {
    cmd + " only works on stack-main workspaces.\nFocused workspace: "@ + decimal(num as int) + " ('"@
        + name + "')\nCurrent layout: "@ + layout_text(l) + "\nFix: persway "@ + remedy()
}

pub open spec fn size_text(size: u8) -> Seq<char> {
    "stack-main size must be at most 100, got "@ + decimal(size as int)
}

pub open spec fn daemon_text() -> Seq<char> {
    "the daemon command is not accepted by a running daemon"@
}

/// Name of a stack command in messages.
pub open spec fn command_name(c: PerswayCommand) -> Seq<char> {
    match c {
        PerswayCommand::StackFocusNext => "stack-focus-next"@,
        PerswayCommand::StackFocusPrev => "stack-focus-prev"@,
        PerswayCommand::StackMainRotateNext => "stack-main-rotate-next"@,
        PerswayCommand::StackMainRotatePrev => "stack-main-rotate-prev"@,
        _ => "stack-swap-main"@,
    }
}

pub open spec fn stack_action(c: PerswayCommand) -> CommandAction {
    match c {
        PerswayCommand::StackFocusNext => CommandAction::StackFocusNext,
        PerswayCommand::StackFocusPrev => CommandAction::StackFocusPrev,
        PerswayCommand::StackMainRotateNext => CommandAction::StackMainRotateNext,
        PerswayCommand::StackMainRotatePrev => CommandAction::StackMainRotatePrev,
        _ => CommandAction::StackSwapMain,
    }
}

impl MessageHandler {
    /// The store as a map from workspace number to policy record.
    pub open spec fn store(&self) -> Map<i32, WorkspaceConfig> {
        self.workspace_config@
    }

    /// The policy of workspace `n`: its entry, else the default.
    pub open spec fn policy(&self, n: i32) -> WorkspaceLayout {
        if self.store().contains_key(n) {
            self.store()[n].layout
        } else {
            self.default_layout
        }
    }

    /// Every policy held is well formed.
    pub open spec fn wf(&self) -> bool {
        &&& self.default_layout.wf()
        &&& forall|n: i32| #[trigger] self.store().contains_key(n) ==> self.store()[n].layout.wf()
    }

    /// The outcome of a control command on focused workspace `ws`.
    pub open spec fn command_result(&self, c: PerswayCommand, ws: Workspace) -> Result<CommandAction, Seq<char>> {
        if ws.num < 0 {
            Err(not_numbered_text(ws.name@))
        } else {
            let cur = self.policy(ws.num);
            match c {
                PerswayCommand::Daemon(_) => Err(daemon_text()),
                PerswayCommand::ChangeLayout { layout } => {
                    if cur == layout {
                        Ok(CommandAction::Nothing)
                    } else if !layout.wf() {
                        Err(size_text(layout->size))
                    } else {
                        Ok(CommandAction::Relayout(ws.num))
                    }
                },
                _ => {
                    if cur is StackMain {
                        Ok(stack_action(c))
                    } else {
                        Err(require_stack_main_text(command_name(c), ws.num, ws.name@, cur))
                    }
                },
            }
        }
    }

    /// The store after a control command on focused workspace `ws`.
    pub open spec fn store_after(&self, c: PerswayCommand, ws: Workspace) -> Map<i32, WorkspaceConfig> {
        if ws.num < 0 {
            self.store()
        } else {
            let base = store_touched(self.store(), self.default_layout, ws.num);
            match c {
                PerswayCommand::ChangeLayout { layout } => {
                    if self.command_result(c, ws) == Ok::<CommandAction, Seq<char>>(
                        CommandAction::Relayout(ws.num),
                    ) {
                        base.insert(ws.num, WorkspaceConfig { layout })
                    } else {
                        base
                    }
                },
                _ => base,
            }
        }
    }

    /// A handler with an empty store.
    pub fn new(
        default_layout: WorkspaceLayout,
        workspace_renaming: bool,
        on_window_focus: Option<String>,
        on_window_focus_leave: Option<String>,
    ) -> (r: MessageHandler)
        requires
            default_layout.wf(),
        ensures
            r.wf(),
            r.store() == Map::<i32, WorkspaceConfig>::empty(),
            r.default_layout == default_layout,
            r.workspace_renaming == workspace_renaming,
            r.window_focus_handler.window_focus_cmd == on_window_focus,
            r.window_focus_handler.window_focus_leave_cmd == on_window_focus_leave,
            r.window_focus_handler.previously_focused_id is None,
    {
        MessageHandler {
            workspace_config: HashMap::new(),
            default_layout,
            workspace_renaming,
            window_focus_handler: WindowFocus::new(on_window_focus, on_window_focus_leave),
        }
    }

    /// The configuration of workspace `ws_num`, made with the default policy
    /// when the workspace is seen for the first time.
    pub fn get_workspace_config(&mut self, ws_num: i32) -> (r: WorkspaceConfig)
        requires
            old(self).wf(),
        ensures
            final(self).wf(),
            r.layout == old(self).policy(ws_num),
            final(self).store() == store_touched(old(self).store(), old(self).default_layout, ws_num),
            final(self).default_layout == old(self).default_layout,
            final(self).workspace_renaming == old(self).workspace_renaming,
            final(self).window_focus_handler == old(self).window_focus_handler,
    {
        match self.workspace_config.get(&ws_num) {
            Some(c) => *c,
            None => {
                let c = WorkspaceConfig { layout: self.default_layout };
                self.workspace_config.insert(ws_num, c);
                c
            },
        }
    }

    /// Dispatches one window event, the focused workspace having number
    /// `ws_num`: says whether to restart the renaming timer, routes the
    /// event by the workspace's policy read now, and runs it through the
    /// focus-hook engine.
    pub fn handle_event(&mut self, event: &WindowEvent, ws_num: i32) -> (r: Dispatch)
        requires
            old(self).wf(),
        ensures
            final(self).wf(),
            r.rename == old(self).workspace_renaming,
            r.route == route_of(old(self).policy(ws_num)),
            r.hooks@ == hooks_for(old(self).window_focus_handler, *event),
            final(self).window_focus_handler.previously_focused_id == tracked_after(
                old(self).window_focus_handler.previously_focused_id,
                *event,
            ),
            final(self).window_focus_handler.window_focus_cmd == old(self).window_focus_handler.window_focus_cmd,
            final(self).window_focus_handler.window_focus_leave_cmd == old(self).window_focus_handler.window_focus_leave_cmd,
            final(self).store() == store_touched(old(self).store(), old(self).default_layout, ws_num),
            final(self).default_layout == old(self).default_layout,
            final(self).workspace_renaming == old(self).workspace_renaming,
    {
        let rename = self.workspace_renaming;
        let cfg = self.get_workspace_config(ws_num);
        let route = match cfg.layout {
            WorkspaceLayout::Spiral => Route::Spiral,
            WorkspaceLayout::StackMain { size, stack_layout } => Route::StackMain(StackMain::new(size, stack_layout)),
            WorkspaceLayout::Manual => Route::Manual,
        };
        let hooks = self.window_focus_handler.handle(event);
        Dispatch { rename, route, hooks }
    }

    /// The failure text of a stack command that meets another policy.
    pub fn require_stack_main(ws_num: i32, ws_name: &String, layout: WorkspaceLayout, cmd: &str) -> (r: Result<(), String>)
        ensures
            match r {
                Ok(()) => layout is StackMain,
                Err(m) => !(layout is StackMain) && m@ == require_stack_main_text(cmd@, ws_num, ws_name@, layout),
            },
    {
        match layout {
            WorkspaceLayout::StackMain { .. } => Ok(()),
            _ => {
                let mut m = String::from_str(cmd);
                m.append(" only works on stack-main workspaces.\nFocused workspace: ");
                push_int(&mut m, ws_num as i64);
                m.append(" ('");
                m.append(ws_name.as_str());
                m.append("')\nCurrent layout: ");
                let d = describe(layout);
                m.append(d.as_str());
                m.append("\nFix: persway ");
                m.append("change-layout stack-main");
                assert(m@ =~= require_stack_main_text(cmd@, ws_num, ws_name@, layout));
                Err(m)
            },
        }
    }

    fn stack_command(&mut self, ws: &Workspace, cur: WorkspaceLayout, name: &str, action: CommandAction) -> (r: Result<CommandAction, String>)
        ensures
            match r {
                Ok(a) => cur is StackMain && a == action,
                Err(m) => !(cur is StackMain) && m@ == require_stack_main_text(name@, ws.num, ws.name@, cur),
            },
            *final(self) == *old(self),
    {
        match Self::require_stack_main(ws.num, &ws.name, cur, name) {
            Ok(()) => Ok(action),
            Err(m) => Err(m),
        }
    }

    /// Handles a control command on the focused workspace `ws`: commands
    /// need a numbered workspace; a policy change to the policy already in
    /// force is a success with nothing to do, and any other is stored and
    /// calls for a relayout; stack commands need the stack-main policy.
    pub fn handle_command(&mut self, cmd: &PerswayCommand, ws: &Workspace) -> (r: Result<CommandAction, String>)
        requires
            old(self).wf(),
        ensures
            final(self).wf(),
            match r {
                Ok(a) => old(self).command_result(*cmd, *ws) == Ok::<CommandAction, Seq<char>>(a),
                Err(m) => old(self).command_result(*cmd, *ws) == Err::<CommandAction, Seq<char>>(m@),
            },
            final(self).store() == old(self).store_after(*cmd, *ws),
            final(self).default_layout == old(self).default_layout,
            final(self).workspace_renaming == old(self).workspace_renaming,
            final(self).window_focus_handler == old(self).window_focus_handler,
    {
        if ws.num < 0 {
            let mut m = String::from_str("Focused workspace '");
            m.append(ws.name.as_str());
            m.append(
                "' has no numeric workspace number, so persway commands that key off ws.num won't apply. Consider naming workspaces with a leading number (e.g. '1: web').",
            );
            assert(m@ =~= not_numbered_text(ws.name@));
            return Err(m);
        }
        let cur = self.get_workspace_config(ws.num).layout;
        match cmd {
            PerswayCommand::Daemon(_) => Err(String::from_str("the daemon command is not accepted by a running daemon")),
            PerswayCommand::ChangeLayout { layout } => {
                if cur == *layout {
                    Ok(CommandAction::Nothing)
                } else {
                    match layout {
                        WorkspaceLayout::StackMain { size, .. } => {
                            if *size > 100 {
                                let mut m = String::from_str("stack-main size must be at most 100, got ");
                                push_int(&mut m, *size as i64);
                                assert(m@ =~= size_text(*size));
                                return Err(m);
                            }
                        },
                        _ => {},
                    }
                    self.workspace_config.insert(ws.num, WorkspaceConfig { layout: *layout });
                    Ok(CommandAction::Relayout(ws.num))
                }
            },
            PerswayCommand::StackFocusNext => self.stack_command(ws, cur, "stack-focus-next", CommandAction::StackFocusNext),
            PerswayCommand::StackFocusPrev => self.stack_command(ws, cur, "stack-focus-prev", CommandAction::StackFocusPrev),
            PerswayCommand::StackMainRotateNext => self.stack_command(ws, cur, "stack-main-rotate-next", CommandAction::StackMainRotateNext),
            PerswayCommand::StackMainRotatePrev => self.stack_command(ws, cur, "stack-main-rotate-prev", CommandAction::StackMainRotatePrev),
            PerswayCommand::StackSwapMain => self.stack_command(ws, cur, "stack-swap-main", CommandAction::StackSwapMain),
        }
    }
}

/// The policy of workspace `n` in a store with default `d`.
pub open spec fn policy_in(m: Map<i32, WorkspaceConfig>, d: WorkspaceLayout, n: i32) -> WorkspaceLayout {
    if m.contains_key(n) {
        m[n].layout
    } else {
        d
    }
}

/// Changing a numbered workspace to the policy already in force succeeds,
/// calls for no relayout, and leaves the policy of every workspace as it was.
pub proof fn lemma_change_to_current_layout_is_noop(h: MessageHandler, layout: WorkspaceLayout, ws: Workspace)
    requires
        h.wf(),
        ws.num >= 0,
        layout == h.policy(ws.num),
    ensures
        h.command_result(PerswayCommand::ChangeLayout { layout }, ws) == Ok::<CommandAction, Seq<char>>(
            CommandAction::Nothing,
        ),
        forall|n: i32|
            #[trigger] policy_in(h.store_after(PerswayCommand::ChangeLayout { layout }, ws), h.default_layout, n)
                == h.policy(n),
{
}

/// A stack command on a numbered workspace whose policy is not stack-main
/// fails, with a message that ends by naming the remedy.
pub proof fn lemma_stack_command_requires_stack_main(h: MessageHandler, c: PerswayCommand, ws: Workspace)
    requires
        h.wf(),
        ws.num >= 0,
        !(h.policy(ws.num) is StackMain),
        !(c is Daemon),
        !(c is ChangeLayout),
    ensures
        h.command_result(c, ws) is Err,
        exists|pre: Seq<char>| h.command_result(c, ws) == Err::<CommandAction, Seq<char>>(pre + remedy()),
{
    let cur = h.policy(ws.num);
    let pre = command_name(c) + " only works on stack-main workspaces.\nFocused workspace: "@ + decimal(
        ws.num as int,
    ) + " ('"@ + ws.name@ + "')\nCurrent layout: "@ + layout_text(cur) + "\nFix: persway "@;
    assert(require_stack_main_text(command_name(c), ws.num, ws.name@, cur) == pre + remedy());
}

} // verus!
