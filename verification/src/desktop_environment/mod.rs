//! What a compositor reports, brought into one form: a list of workspaces.

use crate::message::Message;
use hyprland_desktop::{Dispatch, HyprlandDesktop};
use niri_desktop::{Action, NiriDesktop};
use vstd::prelude::*;

pub mod hyprland_desktop;
pub mod niri_desktop;

verus! {

/// The identity of a workspace, stable for as long as the compositor keeps it.
pub type WorkspaceId = i64;

/// One workspace as the bar shows it.
#[derive(Debug, PartialEq, Eq)]
pub struct WorkspaceInfo {
    /// Name of the output that shows the workspace, where it is known.
    pub output: Option<String>,
    pub id: WorkspaceId,
    /// Place in the order of display.
    pub idx: i32,
    pub is_active: bool,
    pub has_windows: bool,
    /// The bar above this workspace should not paint a background: nothing
    /// tiled lies under it.
    pub transparent_bar: bool,
}

/// The mathematical model of a [`WorkspaceInfo`].
pub struct WorkspaceInfoView {
    pub output: Option<Seq<char>>,
    pub id: int,
    pub idx: int,
    pub is_active: bool,
    pub has_windows: bool,
    pub transparent_bar: bool,
}

/// The model of an optional name.
pub open spec fn name_view(name: Option<String>) -> Option<Seq<char>> {
    match name {
        Some(text) => Some(text@),
        None => None,
    }
}

impl View for WorkspaceInfo {
    type V = WorkspaceInfoView;

    open spec fn view(&self) -> WorkspaceInfoView {
        WorkspaceInfoView {
            output: name_view(self.output),
            id: self.id as int,
            idx: self.idx as int,
            is_active: self.is_active,
            has_windows: self.has_windows,
            transparent_bar: self.transparent_bar,
        }
    }
}

impl DeepView for WorkspaceInfo {
    type V = WorkspaceInfoView;

    open spec fn deep_view(&self) -> WorkspaceInfoView {
        self@
    }
}

impl Clone for WorkspaceInfo {
    fn clone(&self) -> (copy: Self)
        ensures
            copy@ == self@,
    {
        WorkspaceInfo {
            output: clone_name(&self.output),
            id: self.id,
            idx: self.idx,
            is_active: self.is_active,
            has_windows: self.has_windows,
            transparent_bar: self.transparent_bar,
        }
    }
}

/// Copies an optional name.
pub fn clone_name(name: &Option<String>) -> (copy: Option<String>)
    ensures
        name_view(copy) == name_view(*name),
{
    match name {
        Some(text) => Some(text.clone()),
        None => None,
    }
}

/// The compositor that the bar is bound to. It is chosen once, at start.
#[derive(Debug, Clone, Copy, PartialEq, Eq, Structural)]
pub enum Desktop {
    Hyprland(HyprlandDesktop),
    Niri(NiriDesktop),
}

/// What is to be sent to the compositor, in the form that the bound backend
/// sends.
#[derive(Debug, Clone, Copy, PartialEq, Eq, Structural)]
pub enum DesktopCommand {
    Hyprland(Dispatch),
    Niri(Action),
}

impl Desktop {
    /// The backend that two probes select: Hyprland where it answers, else
    /// niri where its socket can be reached, else none.
    pub open spec fn selected(hyprland_answers: bool, niri_connects: bool) -> Option<Desktop> {
        if hyprland_answers {
            Some(Desktop::Hyprland(HyprlandDesktop))
        } else if niri_connects {
            Some(Desktop::Niri(NiriDesktop))
        } else {
            None
        }
    }

    /// What `focus_workspace` hands out for the workspace `id`.
    pub open spec fn focus_command(self, id: WorkspaceId) -> DesktopCommand {
        match self {
            Desktop::Hyprland(_) => DesktopCommand::Hyprland(Dispatch::WorkspaceId(id as i32)),
            Desktop::Niri(_) => DesktopCommand::Niri(Action::FocusWorkspace { id: id as u64 }),
        }
    }

    /// What `cycle_workspace` hands out for the direction `forward`.
    pub open spec fn cycle_command(self, forward: bool) -> DesktopCommand {
        match self {
            Desktop::Hyprland(_) => DesktopCommand::Hyprland(
                Dispatch::WorkspaceRelativeMonitor(if forward { 1i32 } else { -1i32 }),
            ),
            Desktop::Niri(_) => DesktopCommand::Niri(
                if forward { Action::FocusWorkspaceUp } else { Action::FocusWorkspaceDown },
            ),
        }
    }

    /// What a message of the bar asks of the compositor, if anything.
    pub open spec fn command_for(self, message: Message) -> Option<DesktopCommand> {
        match message {
            Message::FocusWorkspace(id) => Some(self.focus_command(id)),
            Message::CycleWorkspace { forward } => Some(self.cycle_command(forward)),
            _ => None,
        }
    }

    /// Binds the bar to a compositor, given what the two probes found: whether
    /// Hyprland answered a query for its version, and whether the socket of
    /// niri could be reached. Hyprland goes first: where it answers, the
    /// second probe does not count. `None` where neither is there; the bar
    /// cannot run without a compositor.
    pub fn new(hyprland_answers: bool, niri_connects: bool) -> (desktop: Option<Self>)
        ensures
            desktop == Self::selected(hyprland_answers, niri_connects),
    {
        if hyprland_answers {
            return Some(Desktop::Hyprland(HyprlandDesktop::new()));
        }
        if niri_connects {
            return Some(Desktop::Niri(NiriDesktop::new()));
        }
        None
    }

    /// The command that brings the workspace `id` to the front.
    pub fn focus_workspace(&mut self, id: WorkspaceId) -> (command: DesktopCommand)
        ensures
            command == old(self).focus_command(id),
            *final(self) == *old(self),
    {
        match self {
            Desktop::Hyprland(hyprland_desktop) => DesktopCommand::Hyprland(
                hyprland_desktop.focus_workspace(id),
            ),
            Desktop::Niri(niri_desktop) => DesktopCommand::Niri(niri_desktop.focus_workspace(id)),
        }
    }

    /// Takes a message of the bar: a click on a workspace asks for that
    /// workspace, a turn of the wheel over the strip for the next one or the
    /// one before, and no other message asks anything of the compositor.
    pub fn handle(&mut self, message: &Message) -> (command: Option<DesktopCommand>)
        ensures
            command == old(self).command_for(*message),
            *final(self) == *old(self),
    {
        match message {
            Message::FocusWorkspace(id) => Some(self.focus_workspace(*id)),
            Message::CycleWorkspace { forward } => Some(self.cycle_workspace(*forward)),
            _ => None,
        }
    }

    /// The command that goes one workspace on, or one back.
    pub fn cycle_workspace(&mut self, forward: bool) -> (command: DesktopCommand)
        ensures
            command == old(self).cycle_command(forward),
            *final(self) == *old(self),
    {
        match self {
            Desktop::Hyprland(hyprland_desktop) => DesktopCommand::Hyprland(
                hyprland_desktop.cycle_workspace(forward),
            ),
            Desktop::Niri(niri_desktop) => DesktopCommand::Niri(
                niri_desktop.cycle_workspace(forward),
            ),
        }
    }
}

/// The models of a list of workspaces, in order.
pub open spec fn info_views(infos: Seq<WorkspaceInfo>) -> Seq<WorkspaceInfoView> {
    infos.map_values(|info: WorkspaceInfo| info@)
}

} // verus!
