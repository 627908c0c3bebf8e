//! Whether the frame still shows the current view.

use vstd::prelude::*;

verus! {

/// The render gate: `Dirty` until a full recompute has filled the frame for
/// the current view, `Clean` after it, and `Dirty` again once the view
/// changes.
#[derive(Clone, Copy, Debug, PartialEq, Eq, Structural)]
pub enum RenderGate {
    Clean,
    Dirty,
}

impl RenderGate {
    /// A new session's gate: dirty, so that the first frame is computed.
    pub fn new() -> (gate: RenderGate)
        ensures
            gate == RenderGate::Dirty,
    {
        RenderGate::Dirty
    }

    /// Whether a frame must be computed before it is shown.
    pub fn needs_recompute(&self) -> (stale: bool)
        ensures
            stale == (*self == RenderGate::Dirty),
    {
        match self {
            RenderGate::Clean => false,
            RenderGate::Dirty => true,
        }
    }

    /// Records that the view changed.
    pub fn mark_dirty(&mut self)
        ensures
            *final(self) == RenderGate::Dirty,
    {
        *self = RenderGate::Dirty;
    }

    /// Records that the frame now shows the current view.
    pub fn mark_clean(&mut self)
        ensures
            *final(self) == RenderGate::Clean,
    {
        *self = RenderGate::Clean;
    }
}

} // verus!
