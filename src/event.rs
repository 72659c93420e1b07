//! Window events as the compositor reports them.
use vstd::prelude::*;

verus! {

/// What happened to a window.
#[derive(Clone, Copy, Debug, PartialEq, Eq, Structural)]
pub enum WindowChange {
    New,
    Close,
    Focus,
    Title,
    FullscreenMode,
    Move,
    Floating,
    Urgent,
    Mark,
    Other,
}

/// A window event: the change and the container it concerns.
#[derive(Clone, Copy, Debug, PartialEq, Eq, Structural)]
pub struct WindowEvent {
    pub change: WindowChange,
    /// Id of the container the event is about.
    pub container_id: i64,
    /// The container was floating when the event was sent.
    pub container_floating: bool,
}

} // verus!
