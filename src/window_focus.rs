//! The focus-hook engine: runs user commands when a window gains or loses
//! focus.
use vstd::prelude::*;
use crate::command::Clause;
use crate::event::{WindowChange, WindowEvent};

verus! {

/// Configured hooks, and the window that had focus last.
#[derive(Debug)]
pub struct WindowFocus {
    /// Run on a window when it gains focus.
    pub window_focus_cmd: Option<String>,
    /// Run on the previously focused window when focus leaves it.
    pub window_focus_leave_cmd: Option<String>,
    pub previously_focused_id: Option<i64>,
}

/// The hook clause for `cmd`, aimed at `target`; none when no command is configured.
pub open spec fn hook_clause(cmd: Option<String>, target: Option<i64>) -> Option<Clause> {
    match cmd {
        Some(text) => Some(Clause::Hook { target, text }),
        None => None,
    }
}

pub open spec fn opt_seq(c: Option<Clause>) -> Seq<Clause> {
    match c {
        Some(c) => seq![c],
        None => seq![],
    }
}

/// The hook clauses an event calls for: on focus, the leave hook aimed at
/// the previously focused window (when it is another one), then the focus
/// hook aimed at the newly focused window.
pub open spec fn hooks_for(s: WindowFocus, e: WindowEvent) -> Seq<Clause> {
    if e.change == WindowChange::Focus {
        let leave = match s.previously_focused_id {
            Some(p) => if p != e.container_id {
                hook_clause(s.window_focus_leave_cmd, Some(p))
            } else {
                None
            },
            None => None,
        };
        opt_seq(leave) + opt_seq(hook_clause(s.window_focus_cmd, Some(e.container_id)))
    } else {
        seq![]
    }
}

/// The tracked window after an event: the focused one on focus; cleared
/// when the tracked window closes.
pub open spec fn tracked_after(prev: Option<i64>, e: WindowEvent) -> Option<i64> {
    if e.change == WindowChange::Focus {
        Some(e.container_id)
    } else if e.change == WindowChange::Close && prev == Some(e.container_id) {
        None
    } else {
        prev
    }
}

impl WindowFocus {
    /// An engine with the given hooks, tracking no window yet.
    pub fn new(window_focus_cmd: Option<String>, window_focus_leave_cmd: Option<String>) -> (r: WindowFocus)
        ensures
            r.window_focus_cmd == window_focus_cmd,
            r.window_focus_leave_cmd == window_focus_leave_cmd,
            r.previously_focused_id is None,
    {
        WindowFocus { window_focus_cmd, window_focus_leave_cmd, previously_focused_id: None }
    }

    /// The clause that runs `cmd` on `id`, or on the focused window when no
    /// id is given; none when `cmd` is not configured.
    pub fn run_cmd(cmd: &Option<String>, id: Option<i64>) -> (r: Option<Clause>)
        ensures
            r == hook_clause(*cmd, id),
    {
        match cmd {
            Some(text) => Some(Clause::Hook { target: id, text: text.clone() }),
            None => None,
        }
    }

    /// Takes a window event; returns the hook clauses to run, each to be
    /// sent on its own, in order.
    pub fn handle(&mut self, event: &WindowEvent) -> (r: Vec<Clause>)
        ensures
            r@ == hooks_for(*old(self), *event),
            final(self).previously_focused_id == tracked_after(old(self).previously_focused_id, *event),
            final(self).window_focus_cmd == old(self).window_focus_cmd,
            final(self).window_focus_leave_cmd == old(self).window_focus_leave_cmd,
    {
        let mut r: Vec<Clause> = Vec::new();
        if event.change == WindowChange::Focus {
            let leave = match self.previously_focused_id {
                Some(p) => {
                    if p != event.container_id {
                        Self::run_cmd(&self.window_focus_leave_cmd, Some(p))
                    } else {
                        None
                    }
                },
                None => None,
            };
            match leave {
                Some(c) => r.push(c),
                None => {},
            }
            match Self::run_cmd(&self.window_focus_cmd, Some(event.container_id)) {
                Some(c) => r.push(c),
                None => {},
            }
            assert(r@ =~= hooks_for(*old(self), *event));
            self.previously_focused_id = Some(event.container_id);
        } else if event.change == WindowChange::Close {
            if self.previously_focused_id == Some(event.container_id) {
                self.previously_focused_id = None;
            }
            assert(r@ =~= hooks_for(*old(self), *event));
        } else {
            assert(r@ =~= hooks_for(*old(self), *event));
        }
        r
    }
}

} // verus!
