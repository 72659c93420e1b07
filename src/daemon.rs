//! The daemon's state and its handling of control requests.
use vstd::prelude::*;
use crate::layout::WorkspaceLayout;
use crate::message_handler::{
    CommandAction, DaemonArgs, MessageHandler, PerswayCommand, lemma_stack_command_requires_stack_main,
    remedy,
};
use crate::workspace::Workspace;

verus! {

/// The daemon: exit hook, control socket path, and the message handler.
pub struct Daemon {
    /// Compositor command run when the daemon is told to stop.
    pub on_exit: Option<String>,
    pub socket_path: String,
    pub message_handler: MessageHandler,
}

/// The default policy the daemon starts with: a stack-main default takes
/// its size and arrangement from their own settings.
pub open spec fn final_layout(args: DaemonArgs) -> WorkspaceLayout {
    match args.default_layout {
        WorkspaceLayout::StackMain { .. } => WorkspaceLayout::StackMain {
            size: args.stack_main_default_size,
            stack_layout: args.stack_main_default_stack_layout,
        },
        _ => args.default_layout,
    }
}

/// The reply line for a command outcome.
pub open spec fn reply_text(r: Result<CommandAction, Seq<char>>) -> Seq<char> {
    match r {
        Ok(_) => "success"@,
        Err(m) => "fail: "@ + m,
    }
}

/// The work an outcome calls for.
pub open spec fn action_of(r: Result<CommandAction, Seq<char>>) -> CommandAction {
    match r {
        Ok(a) => a,
        Err(_) => CommandAction::Nothing,
    }
}

/// The reply line for a command outcome.
pub fn reply_line(r: &Result<CommandAction, String>) -> (s: String)
    ensures
        s@ == reply_text(
            match r {
                Ok(a) => Ok::<CommandAction, Seq<char>>(*a),
                Err(m) => Err::<CommandAction, Seq<char>>(m@),
            },
        ),
{
    match r {
        Ok(_) => String::from_str("success"),
        Err(m) => {
            let mut s = String::from_str("fail: ");
            s.append(m.as_str());
            s
        },
    }
}

impl Daemon {
    pub open spec fn wf(&self) -> bool {
        self.message_handler.wf()
    }

    /// A daemon with the given settings and an empty policy store.
    pub fn new(args: DaemonArgs, socket_path: String) -> (r: Daemon)
        requires
            args.default_layout is StackMain ==> args.stack_main_default_size <= 100,
            args.default_layout.wf(),
        ensures
            r.wf(),
            r.socket_path == socket_path,
            r.on_exit == args.on_exit,
            r.message_handler.default_layout == final_layout(args),
            r.message_handler.store() == Map::<i32, crate::message_handler::WorkspaceConfig>::empty(),
            r.message_handler.workspace_renaming == args.workspace_renaming,
            r.message_handler.window_focus_handler.window_focus_cmd == args.on_window_focus,
            r.message_handler.window_focus_handler.window_focus_leave_cmd == args.on_window_focus_leave,
            r.message_handler.window_focus_handler.previously_focused_id is None,
    {
        let layout = match args.default_layout {
            WorkspaceLayout::StackMain { .. } => WorkspaceLayout::StackMain {
                size: args.stack_main_default_size,
                stack_layout: args.stack_main_default_stack_layout,
            },
            _ => args.default_layout,
        };
        let message_handler = MessageHandler::new(
            layout,
            args.workspace_renaming,
            args.on_window_focus,
            args.on_window_focus_leave,
        );
        Daemon { on_exit: args.on_exit, socket_path, message_handler }
    }

    /// Handles one control request: `parsed` is the command read from the
    /// line (`None` when the line did not parse) and `focused` the focused
    /// workspace, when the compositor reported one. Returns the reply line
    /// and the work to do. A line that did not parse is answered
    /// `fail: invalid command` and changes nothing.
    pub fn on_request(&mut self, parsed: Option<PerswayCommand>, focused: Option<Workspace>) -> (r: (String, CommandAction))
        requires
            old(self).wf(),
        ensures
            final(self).wf(),
            parsed is None ==> r.0@ == "fail: invalid command"@ && r.1 == CommandAction::Nothing
                && *final(self) == *old(self),
            parsed is Some && focused is None ==> r.0@ == "fail: no focused workspace"@ && r.1
                == CommandAction::Nothing && *final(self) == *old(self),
            parsed is Some && focused is Some ==> {
                let res = old(self).message_handler.command_result(parsed->0, focused->0);
                &&& r.0@ == reply_text(res)
                &&& r.1 == action_of(res)
                &&& final(self).message_handler.store() == old(self).message_handler.store_after(parsed->0, focused->0)
                &&& final(self).message_handler.default_layout == old(self).message_handler.default_layout
                &&& final(self).message_handler.window_focus_handler == old(self).message_handler.window_focus_handler
                &&& final(self).on_exit == old(self).on_exit
                &&& final(self).socket_path == old(self).socket_path
            },
    {
        let cmd = match parsed {
            None => return (String::from_str("fail: invalid command"), CommandAction::Nothing),
            Some(c) => c,
        };
        let ws = match focused {
            None => return (String::from_str("fail: no focused workspace"), CommandAction::Nothing),
            Some(w) => w,
        };
        let res = self.message_handler.handle_command(&cmd, &ws);
        let line = reply_line(&res);
        let action = match res {
            Ok(a) => a,
            Err(_) => CommandAction::Nothing,
        };
        (line, action)
    }
}

/// The control socket path: the one given, else
/// `<runtime dir>/persway-<display>.sock`, with `/tmp` and `unknown`
/// standing in for a missing runtime directory or display.
pub open spec fn socket_path_text(given: Option<String>, runtime_dir: Option<String>, display: Option<String>) -> Seq<char> {
    match given {
        Some(p) => p@,
        None => {
            let dir = match runtime_dir {
                Some(d) => d@,
                None => "/tmp"@,
            };
            let disp = match display {
                Some(w) => w@,
                None => "unknown"@,
            };
            dir + "/persway-"@ + disp + ".sock"@
        },
    }
}

/// The control socket path from the path given on the command line and the
/// runtime directory and display name of the session.
pub fn get_socket_path(socket_path: Option<String>, runtime_dir: Option<String>, display: Option<String>) -> (r: String)
    ensures
        r@ == socket_path_text(socket_path, runtime_dir, display),
{
    match socket_path {
        Some(p) => p,
        None => {
            let mut s = match runtime_dir {
                Some(d) => d,
                None => String::from_str("/tmp"),
            };
            s.append("/persway-");
            match display {
                Some(w) => s.append(w.as_str()),
                None => s.append("unknown"),
            }
            s.append(".sock");
            s
        },
    }
}

/// The reply to a stack command on a numbered workspace whose policy is not
/// stack-main is a failure line that ends by naming the remedy.
pub proof fn lemma_stack_command_reply_names_remedy(d: Daemon, c: PerswayCommand, ws: Workspace)
    requires
        d.wf(),
        ws.num >= 0,
        !(d.message_handler.policy(ws.num) is StackMain),
        !(c is Daemon),
        !(c is ChangeLayout),
    ensures
        exists|pre: Seq<char>|
            reply_text(d.message_handler.command_result(c, ws)) == "fail: "@ + pre + remedy(),
{
    lemma_stack_command_requires_stack_main(d.message_handler, c, ws);
    let pre = choose|pre: Seq<char>|
        d.message_handler.command_result(c, ws) == Err::<CommandAction, Seq<char>>(pre + remedy());
    assert(reply_text(d.message_handler.command_result(c, ws)) =~= "fail: "@ + pre + remedy());
}

} // verus!
