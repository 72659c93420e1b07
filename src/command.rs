//! Compositor command clauses, and their text.
//!
//! A script is a sequence of clauses, sent as one command string with the
//! clauses joined by `"; "`.
use vstd::prelude::*;
use crate::text::{decimal, push_int};

verus! {

/// Name of the temporary workspace used while a workspace is rebuilt.
pub const TMP_WORKSPACE: &'static str = "◕‿◕";

/// Name the compositor gives its scratchpad workspace.
pub const SCRATCHPAD_WORKSPACE: &'static str = "__i3_scratch";

/// A layout word of the compositor's `layout` command.
#[derive(Clone, Copy, Debug, PartialEq, Eq, Structural)]
pub enum LayoutWord {
    Tabbed,
    Stacking,
    SplitH,
}

/// One compositor command clause.
#[derive(Clone, Debug, PartialEq, Eq)]
pub enum Clause {
    /// `[con_id=N] focus`
    Focus(i64),
    /// `[con_id=N] split v` or `[con_id=N] split h`
    SplitCon { con: i64, vertical: bool },
    /// `split v` or `split h`, on the focused container
    Split { vertical: bool },
    /// `layout tabbed`, `layout stacking` or `layout splith`
    Layout(LayoutWord),
    /// `resize set width N`
    ResizeWidth(u8),
    /// `swap container with con_id N`
    SwapWith(i64),
    /// `[con_id=S] mark --add _stack_S`
    MarkStack(i64),
    /// `move container to mark _stack_S`
    MoveToStackMark(i64),
    /// `[con_mark=_stack_S] unmark _stack_S`
    UnmarkStack(i64),
    /// `move up`
    MoveUp,
    /// `move right`
    MoveRight,
    /// `nop event container not in stack`
    NopNotInStack,
    /// `[con_id=W] move to workspace number N`
    MoveToWorkspace { con: i64, num: i32 },
    /// `workspace ◕‿◕`
    SwitchToTmpWorkspace,
    /// `workspace number N`
    SwitchToWorkspaceNumber(i32),
    /// `move workspace to output O`
    MoveWorkspaceToOutput(i64),
    /// `rename workspace to NAME`
    RenameWorkspace(String),
    /// A user-configured command, targeted at a container when one is given.
    Hook { target: Option<i64>, text: String },
}

/// `[con_id=N] `
pub open spec fn con_prefix(id: i64) -> Seq<char> {
    "[con_id="@ + decimal(id as int) + "] "@
}

/// `_stack_S`
pub open spec fn stack_mark(s: i64) -> Seq<char> {
    "_stack_"@ + decimal(s as int)
}

pub open spec fn layout_word_text(w: LayoutWord) -> Seq<char> {
    match w {
        LayoutWord::Tabbed => "tabbed"@,
        LayoutWord::Stacking => "stacking"@,
        LayoutWord::SplitH => "splith"@,
    }
}

/// The text of one clause.
pub open spec fn clause_text(c: Clause) -> Seq<char> {
    match c {
        Clause::Focus(n) => con_prefix(n) + "focus"@,
        Clause::SplitCon { con, vertical } => con_prefix(con) + if vertical {
            "split v"@
        } else {
            "split h"@
        },
        Clause::Split { vertical } => if vertical {
            "split v"@
        } else {
            "split h"@
        },
        Clause::Layout(w) => "layout "@ + layout_word_text(w),
        Clause::ResizeWidth(n) => "resize set width "@ + decimal(n as int),
        Clause::SwapWith(n) => "swap container with con_id "@ + decimal(n as int),
        Clause::MarkStack(s) => con_prefix(s) + "mark --add "@ + stack_mark(s),
        Clause::MoveToStackMark(s) => "move container to mark "@ + stack_mark(s),
        Clause::UnmarkStack(s) => "[con_mark="@ + stack_mark(s) + "] unmark "@ + stack_mark(s),
        Clause::MoveUp => "move up"@,
        Clause::MoveRight => "move right"@,
        Clause::NopNotInStack => "nop event container not in stack"@,
        Clause::MoveToWorkspace { con, num } => con_prefix(con) + "move to workspace number "@
            + decimal(num as int),
        Clause::SwitchToTmpWorkspace => "workspace "@ + TMP_WORKSPACE@,
        Clause::SwitchToWorkspaceNumber(n) => "workspace number "@ + decimal(n as int),
        Clause::MoveWorkspaceToOutput(o) => "move workspace to output "@ + decimal(o as int),
        Clause::RenameWorkspace(name) => "rename workspace to "@ + name@,
        Clause::Hook { target, text } => match target {
            Some(n) => con_prefix(n) + text@,
            None => text@,
        },
    }
}

/// The text of a script: its clauses joined by `"; "`.
pub open spec fn script_text(cs: Seq<Clause>) -> Seq<char>
    decreases cs.len(),
{
    if cs.len() == 0 {
        Seq::empty()
    } else if cs.len() == 1 {
        clause_text(cs[0])
    } else {
        script_text(cs.drop_last()) + "; "@ + clause_text(cs.last())
    }
}

fn push_con_prefix(s: &mut String, id: i64)
    ensures
        final(s)@ == old(s)@ + con_prefix(id),
{
    s.append("[con_id=");
    push_int(s, id);
    s.append("] ");
    assert(s@ =~= old(s)@ + con_prefix(id));
}

fn push_stack_mark(s: &mut String, id: i64)
    ensures
        final(s)@ == old(s)@ + stack_mark(id),
{
    s.append("_stack_");
    push_int(s, id);
    assert(s@ =~= old(s)@ + stack_mark(id));
}

/// Appends the text of one clause.
pub fn push_clause(s: &mut String, c: &Clause)
    ensures
        final(s)@ == old(s)@ + clause_text(*c),
{
    match c {
        Clause::Focus(n) => {
            push_con_prefix(s, *n);
            s.append("focus");
        },
        Clause::SplitCon { con, vertical } => {
            push_con_prefix(s, *con);
            if *vertical {
                s.append("split v");
            } else {
                s.append("split h");
            }
        },
        Clause::Split { vertical } => {
            if *vertical {
                s.append("split v");
            } else {
                s.append("split h");
            }
        },
        Clause::Layout(w) => {
            s.append("layout ");
            match w {
                LayoutWord::Tabbed => s.append("tabbed"),
                LayoutWord::Stacking => s.append("stacking"),
                LayoutWord::SplitH => s.append("splith"),
            }
        },
        Clause::ResizeWidth(n) => {
            s.append("resize set width ");
            push_int(s, *n as i64);
        },
        Clause::SwapWith(n) => {
            s.append("swap container with con_id ");
            push_int(s, *n);
        },
        Clause::MarkStack(m) => {
            push_con_prefix(s, *m);
            s.append("mark --add ");
            push_stack_mark(s, *m);
        },
        Clause::MoveToStackMark(m) => {
            s.append("move container to mark ");
            push_stack_mark(s, *m);
        },
        Clause::UnmarkStack(m) => {
            s.append("[con_mark=");
            push_stack_mark(s, *m);
            s.append("] unmark ");
            push_stack_mark(s, *m);
        },
        Clause::MoveUp => s.append("move up"),
        Clause::MoveRight => s.append("move right"),
        Clause::NopNotInStack => s.append("nop event container not in stack"),
        Clause::MoveToWorkspace { con, num } => {
            push_con_prefix(s, *con);
            s.append("move to workspace number ");
            push_int(s, *num as i64);
        },
        Clause::SwitchToTmpWorkspace => {
            s.append("workspace ");
            s.append(TMP_WORKSPACE);
        },
        Clause::SwitchToWorkspaceNumber(n) => {
            s.append("workspace number ");
            push_int(s, *n as i64);
        },
        Clause::MoveWorkspaceToOutput(o) => {
            s.append("move workspace to output ");
            push_int(s, *o);
        },
        Clause::RenameWorkspace(name) => {
            s.append("rename workspace to ");
            s.append(name.as_str());
        },
        Clause::Hook { target, text } => {
            match target {
                Some(n) => push_con_prefix(s, *n),
                None => {},
            }
            s.append(text.as_str());
        },
    }
    assert(s@ =~= old(s)@ + clause_text(*c));
}

/// The text of a script.
pub fn render(cs: &Vec<Clause>) -> (r: String)
    ensures
        r@ == script_text(cs@),
{
    let mut s = String::new();
    let mut i: usize = 0;
    while i < cs.len()
        invariant
            i <= cs@.len(),
            s@ == script_text(cs@.take(i as int)),
        decreases cs@.len() - i,
    {
        if i > 0 {
            s.append("; ");
        }
        push_clause(&mut s, &cs[i]);
        proof {
            let t = cs@.take(i as int + 1);
            assert(t.drop_last() =~= cs@.take(i as int));
            assert(t.last() == cs@[i as int]);
            assert(s@ =~= script_text(t));
        }
        i = i + 1;
    }
    assert(cs@.take(cs@.len() as int) =~= cs@);
    s
}

} // verus!
