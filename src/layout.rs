//! Per-workspace layout policies.
use vstd::prelude::*;
use crate::command::{Clause, LayoutWord};
use crate::text::{decimal, push_int};

verus! {

/// How the stack region of a stack-main workspace shows its windows.
#[derive(Clone, Copy, Debug, PartialEq, Eq, Structural)]
pub enum StackLayout {
    Tabbed,
    Stacked,
    Tiled,
}

/// The layout policy of a workspace.
#[derive(Clone, Copy, Debug, PartialEq, Eq, Structural)]
pub enum WorkspaceLayout {
    /// Each focused window is split along its longer side.
    Spiral,
    /// One main window taking `size` percent of the width, the rest in a stack.
    StackMain { size: u8, stack_layout: StackLayout },
    /// No automation.
    Manual,
}

impl WorkspaceLayout {
    /// A stack-main size is a percentage.
    pub open spec fn wf(&self) -> bool {
        match *self {
            WorkspaceLayout::StackMain { size, .. } => size <= 100,
            _ => true,
        }
    }

    pub open spec fn is_stack_main(&self) -> bool {
        self is StackMain
    }
}

pub open spec fn stack_layout_text(l: StackLayout) -> Seq<char> {
    match l {
        StackLayout::Tabbed => "Tabbed"@,
        StackLayout::Stacked => "Stacked"@,
        StackLayout::Tiled => "Tiled"@,
    }
}

/// How a policy is written in messages.
pub open spec fn layout_text(l: WorkspaceLayout) -> Seq<char> {
    match l {
        WorkspaceLayout::Spiral => "Spiral"@,
        WorkspaceLayout::StackMain { size, stack_layout } => "StackMain { size: "@ + decimal(
            size as int,
        ) + ", stack_layout: "@ + stack_layout_text(stack_layout) + " }"@,
        WorkspaceLayout::Manual => "Manual"@,
    }
}

/// The clauses that give the focused container the stack arrangement.
pub open spec fn arrangement_clauses(l: StackLayout) -> Seq<Clause> {
    match l {
        StackLayout::Tabbed => seq![
            Clause::Split { vertical: true },
            Clause::Layout(LayoutWord::Tabbed),
        ],
        StackLayout::Stacked => seq![
            Clause::Split { vertical: true },
            Clause::Layout(LayoutWord::Stacking),
        ],
        StackLayout::Tiled => seq![Clause::Split { vertical: true }],
    }
}

/// Appends the clauses of the stack arrangement.
pub fn push_arrangement(v: &mut Vec<Clause>, l: StackLayout)
    ensures
        final(v)@ == old(v)@ + arrangement_clauses(l),
{
    v.push(Clause::Split { vertical: true });
    match l {
        StackLayout::Tabbed => v.push(Clause::Layout(LayoutWord::Tabbed)),
        StackLayout::Stacked => v.push(Clause::Layout(LayoutWord::Stacking)),
        StackLayout::Tiled => {},
    }
    assert(v@ =~= old(v)@ + arrangement_clauses(l));
}

/// The text of a policy, as messages show it.
pub fn describe(l: WorkspaceLayout) -> (r: String)
    ensures
        r@ == layout_text(l),
{
    let mut s = String::new();
    match l {
        WorkspaceLayout::Spiral => s.append("Spiral"),
        WorkspaceLayout::StackMain { size, stack_layout } => {
            s.append("StackMain { size: ");
            push_int(&mut s, size as i64);
            s.append(", stack_layout: ");
            match stack_layout {
                StackLayout::Tabbed => s.append("Tabbed"),
                StackLayout::Stacked => s.append("Stacked"),
                StackLayout::Tiled => s.append("Tiled"),
            }
            s.append(" }");
        },
        WorkspaceLayout::Manual => s.append("Manual"),
    }
    assert(s@ =~= layout_text(l));
    s
}

} // verus!
