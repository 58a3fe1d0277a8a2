use limbo::desktop_environment::hyprland_desktop::{Dispatch, HyprlandDesktop};
use limbo::desktop_environment::niri_desktop::{Action, NiriDesktop};
use limbo::desktop_environment::{Desktop, DesktopCommand, WorkspaceInfo};
use limbo::message::Message;

#[test]
fn hyprland_is_bound_where_it_answers() {
    assert_eq!(Desktop::new(true, false), Some(Desktop::Hyprland(HyprlandDesktop)));
    assert_eq!(Desktop::new(true, true), Some(Desktop::Hyprland(HyprlandDesktop)));
}

#[test]
fn niri_is_bound_where_only_its_socket_is_reached() {
    assert_eq!(Desktop::new(false, true), Some(Desktop::Niri(NiriDesktop)));
}

#[test]
fn nothing_is_bound_without_a_compositor() {
    assert_eq!(Desktop::new(false, false), None);
}

#[test]
fn focus_goes_to_the_bound_backend() {
    let mut desktop = Desktop::Hyprland(HyprlandDesktop::new());
    assert_eq!(
        desktop.focus_workspace(7),
        DesktopCommand::Hyprland(Dispatch::WorkspaceId(7))
    );
    assert_eq!(desktop, Desktop::Hyprland(HyprlandDesktop));
    let mut desktop = Desktop::Niri(NiriDesktop::new());
    assert_eq!(
        desktop.focus_workspace(7),
        DesktopCommand::Niri(Action::FocusWorkspace { id: 7 })
    );
    assert_eq!(
        desktop.focus_workspace(-1),
        DesktopCommand::Niri(Action::FocusWorkspace { id: u64::MAX })
    );
    assert_eq!(desktop, Desktop::Niri(NiriDesktop));
}

#[test]
fn cycling_goes_to_the_bound_backend() {
    let mut desktop = Desktop::Hyprland(HyprlandDesktop::new());
    assert_eq!(
        desktop.cycle_workspace(true),
        DesktopCommand::Hyprland(Dispatch::WorkspaceRelativeMonitor(1))
    );
    assert_eq!(
        desktop.cycle_workspace(false),
        DesktopCommand::Hyprland(Dispatch::WorkspaceRelativeMonitor(-1))
    );
    let mut desktop = Desktop::Niri(NiriDesktop::new());
    assert_eq!(desktop.cycle_workspace(true), DesktopCommand::Niri(Action::FocusWorkspaceUp));
    assert_eq!(desktop.cycle_workspace(false), DesktopCommand::Niri(Action::FocusWorkspaceDown));
}

#[test]
fn niri_commands() {
    let mut desktop = NiriDesktop::new();
    assert_eq!(desktop.focus_workspace(12), Action::FocusWorkspace { id: 12 });
    assert_eq!(
        desktop.focus_workspace(i64::MIN),
        Action::FocusWorkspace { id: 9223372036854775808 }
    );
    assert_eq!(desktop.cycle_workspace(true), Action::FocusWorkspaceUp);
    assert_eq!(desktop.cycle_workspace(false), Action::FocusWorkspaceDown);
}

#[test]
fn click_and_scroll_become_commands_and_nothing_else_does() {
    let mut desktop = Desktop::Niri(NiriDesktop::new());
    assert_eq!(
        desktop.handle(&Message::FocusWorkspace(3)),
        Some(DesktopCommand::Niri(Action::FocusWorkspace { id: 3 }))
    );
    assert_eq!(
        desktop.handle(&Message::CycleWorkspace { forward: false }),
        Some(DesktopCommand::Niri(Action::FocusWorkspaceDown))
    );
    assert_eq!(desktop.handle(&Message::AnimationTick), None);
    let info = WorkspaceInfo {
        output: None,
        id: 1,
        idx: 1,
        is_active: true,
        has_windows: false,
        transparent_bar: true,
    };
    assert_eq!(desktop.handle(&Message::WorkspacesChanged(vec![info])), None);
    let mut desktop = Desktop::Hyprland(HyprlandDesktop::new());
    assert_eq!(
        desktop.handle(&Message::CycleWorkspace { forward: true }),
        Some(DesktopCommand::Hyprland(Dispatch::WorkspaceRelativeMonitor(1)))
    );
}
