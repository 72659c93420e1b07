//! Failures of a single engine operation.
use vstd::prelude::*;

verus! {

/// Why an operation was abandoned. Each aborts only the operation at hand.
#[derive(Clone, Copy, Debug, PartialEq, Eq, Structural)]
pub enum EngineError {
    /// The node's workspace is not in the snapshot or not in the workspace list.
    NoWorkspace,
    /// The compositor reports no focused workspace.
    NoFocusedWorkspace,
    /// The focused workspace is missing from the snapshot.
    NoWorkspaceNode,
    /// No main window could be found beside the stack.
    NoMainWindow,
    /// The stack holds no focused and no visible window.
    NoVisibleWindow,
    /// The stack holds no window.
    EmptyStack,
}

} // verus!
