//! What the parts of the bar tell each other.

use crate::desktop_environment::{WorkspaceId, WorkspaceInfo};
use vstd::prelude::*;

verus! {

/// A message of the bar, as far as workspaces are concerned.
#[derive(Debug)]
pub enum Message {
    /// The compositor reported this list of workspaces.
    WorkspacesChanged(Vec<WorkspaceInfo>),
    /// The user asked for the workspace of this identifier.
    FocusWorkspace(WorkspaceId),
    /// The user asked for the next workspace, or for the one before.
    CycleWorkspace { forward: bool },
    /// One animation tick has passed.
    AnimationTick,
}

} // verus!
