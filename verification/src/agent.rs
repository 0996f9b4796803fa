//! What the detector reports about a pane, and how panes are named.

use vstd::prelude::*;

verus! {

/// The state the detector last saw an agent in.
#[derive(Debug, Clone, Copy, PartialEq, Eq, Hash, Structural)]
pub enum AgentState {
    /// The agent finished its turn, or has not started one.
    Idle,
    /// The agent is producing output.
    Working,
    /// The agent is waiting on a person.
    Blocked,
    /// No agent is recognised; a plain shell.
    Unknown,
}

/// Identifies a pane. Allocated from a single counter, so no two panes share one.
#[derive(Debug, Clone, Copy, PartialEq, Eq, Hash, Structural)]
pub struct PaneId {
    raw: u32,
}

impl View for PaneId {
    type V = u32;

    closed spec fn view(&self) -> u32 {
        self.raw
    }
}

impl PaneId {
    pub fn from_raw(raw: u32) -> (id: PaneId)
        ensures
            id@ == raw,
    {
        PaneId { raw }
    }

    pub fn raw(&self) -> (raw: u32)
        ensures
            raw == self@,
    {
        self.raw
    }
}

} // verus!
