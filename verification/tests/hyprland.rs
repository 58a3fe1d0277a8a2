use limbo::desktop_environment::hyprland_desktop::{
    make_workspace_infos, process_event, Client, Dispatch, HyprEvent, HyprlandDesktop, Monitor,
    Workspace, WorkspaceRule,
};
use limbo::desktop_environment::WorkspaceInfo;

fn rule(workspace: &str, monitor: Option<&str>) -> WorkspaceRule {
    WorkspaceRule {
        workspace_string: workspace.to_string(),
        monitor: monitor.map(|name| name.to_string()),
    }
}

fn open(id: i32, monitor: &str, windows: u16) -> Workspace {
    Workspace { id, monitor: monitor.to_string(), windows }
}

fn closed(id: i64, idx: i32, output: Option<&str>) -> WorkspaceInfo {
    WorkspaceInfo {
        output: output.map(|name| name.to_string()),
        id,
        idx,
        is_active: false,
        has_windows: false,
        transparent_bar: true,
    }
}

#[test]
fn no_rules_give_no_workspaces() {
    let infos = make_workspace_infos(
        &vec![Monitor { active_workspace_id: 1 }],
        &vec![Client { workspace_id: 1, floating: false }],
        &vec![],
        &vec![open(1, "DP-1", 1)],
    );
    assert!(infos.is_empty());
}

#[test]
fn open_workspace_is_described_from_what_the_compositor_says() {
    let infos = make_workspace_infos(
        &vec![Monitor { active_workspace_id: 2 }],
        &vec![
            Client { workspace_id: 2, floating: false },
            Client { workspace_id: 2, floating: true },
        ],
        &vec![rule("2", Some("HDMI-A-1"))],
        &vec![open(2, "DP-1", 2)],
    );
    assert_eq!(
        infos,
        vec![WorkspaceInfo {
            // The monitor that shows the workspace, not the one of the rule.
            output: Some("DP-1".to_string()),
            id: 2,
            idx: 2,
            is_active: true,
            has_windows: true,
            transparent_bar: false,
        }]
    );
}

#[test]
fn workspace_that_is_configured_and_not_open_is_empty_and_lies_where_its_rule_says() {
    let infos = make_workspace_infos(
        &vec![Monitor { active_workspace_id: 1 }],
        &vec![],
        &vec![rule("3", Some("DP-2")), rule("4", None)],
        &vec![open(1, "DP-1", 0)],
    );
    assert_eq!(infos, vec![closed(3, 3, Some("DP-2")), closed(4, 4, None)]);
}

#[test]
fn rules_that_name_no_plain_number_are_passed_over() {
    let rules = vec![
        rule("special:scratch", None),
        rule("name:web", None),
        rule("", None),
        rule(" 1", None),
        rule("1 ", None),
        rule("1_0", None),
        rule("+", None),
        rule("-", None),
        rule("0x10", None),
        rule("١", None),
        rule("9223372036854775808", None),
        rule("-9223372036854775809", None),
        rule("r[1-5]", None),
        rule("5", Some("DP-1")),
    ];
    let infos = make_workspace_infos(&vec![], &vec![], &rules, &vec![]);
    assert_eq!(infos, vec![closed(5, 5, Some("DP-1"))]);
}

#[test]
fn numbers_are_read_with_sign_and_leading_zeros() {
    let rules = vec![rule("+7", None), rule("007", None), rule("-3", None), rule("-0", None)];
    let infos = make_workspace_infos(&vec![], &vec![], &rules, &vec![]);
    assert_eq!(
        infos,
        vec![closed(-3, -3, None), closed(0, 0, None), closed(7, 7, None), closed(7, 7, None)]
    );
}

#[test]
fn largest_and_smallest_identifiers_are_read_and_cut_to_32_bits_for_the_order() {
    let rules = vec![rule("9223372036854775807", None), rule("-9223372036854775808", None)];
    let infos = make_workspace_infos(&vec![], &vec![], &rules, &vec![]);
    assert_eq!(infos, vec![closed(i64::MAX, -1, None), closed(i64::MIN, 0, None)]);
    let rules = vec![rule("4294967298", None), rule("1", None)];
    let infos = make_workspace_infos(&vec![], &vec![], &rules, &vec![]);
    assert_eq!(infos, vec![closed(1, 1, None), closed(4294967298, 2, None)]);
}

#[test]
fn workspaces_come_in_the_order_of_display() {
    let rules = vec![rule("3", None), rule("1", None), rule("2", None)];
    let workspaces = vec![open(2, "DP-1", 1), open(3, "DP-1", 0), open(1, "DP-1", 4)];
    let infos = make_workspace_infos(
        &vec![Monitor { active_workspace_id: 3 }],
        &vec![],
        &rules,
        &workspaces,
    );
    let order: Vec<i64> = infos.iter().map(|info| info.id).collect();
    assert_eq!(order, vec![1, 2, 3]);
    assert_eq!(infos[2].is_active, true);
    assert_eq!(infos[0].is_active, false);
    assert_eq!(infos[0].has_windows, true);
    assert_eq!(infos[2].has_windows, false);
}

#[test]
fn workspaces_that_share_a_place_keep_the_order_of_their_rules() {
    let rules = vec![
        rule("2", Some("second")),
        rule("1", Some("a")),
        rule("2", Some("third")),
        rule("1", Some("b")),
        rule("2", Some("fourth")),
    ];
    let infos = make_workspace_infos(&vec![], &vec![], &rules, &vec![]);
    let outputs: Vec<Option<String>> = infos.iter().map(|info| info.output.clone()).collect();
    assert_eq!(
        outputs,
        vec![
            Some("a".to_string()),
            Some("b".to_string()),
            Some("second".to_string()),
            Some("third".to_string()),
            Some("fourth".to_string()),
        ]
    );
}

#[test]
fn first_open_workspace_of_an_identifier_counts() {
    let infos = make_workspace_infos(
        &vec![],
        &vec![],
        &vec![rule("1", None)],
        &vec![open(1, "first", 0), open(1, "second", 3)],
    );
    assert_eq!(infos.len(), 1);
    assert_eq!(infos[0].output, Some("first".to_string()));
    assert_eq!(infos[0].has_windows, false);
}

#[test]
fn bar_is_transparent_over_an_empty_workspace() {
    let infos = make_workspace_infos(
        &vec![Monitor { active_workspace_id: 1 }],
        &vec![Client { workspace_id: 2, floating: false }],
        &vec![rule("1", None)],
        &vec![open(1, "DP-1", 0)],
    );
    assert_eq!(infos[0].has_windows, false);
    assert_eq!(infos[0].transparent_bar, true);
}

#[test]
fn bar_is_transparent_where_every_window_floats() {
    let clients = vec![
        Client { workspace_id: 1, floating: true },
        Client { workspace_id: 2, floating: false },
        Client { workspace_id: 1, floating: true },
    ];
    let infos = make_workspace_infos(
        &vec![Monitor { active_workspace_id: 1 }],
        &clients,
        &vec![rule("1", None), rule("2", None)],
        &vec![open(1, "DP-1", 2), open(2, "DP-1", 1)],
    );
    assert_eq!(infos[0].has_windows, true);
    assert_eq!(infos[0].transparent_bar, true);
    assert_eq!(infos[1].has_windows, true);
    assert_eq!(infos[1].transparent_bar, false);
}

#[test]
fn bar_is_opaque_where_one_window_is_tiled() {
    let clients = vec![
        Client { workspace_id: 1, floating: true },
        Client { workspace_id: 1, floating: false },
    ];
    let infos = make_workspace_infos(
        &vec![],
        &clients,
        &vec![rule("1", None)],
        &vec![open(1, "DP-1", 2)],
    );
    assert_eq!(infos[0].transparent_bar, false);
}

#[test]
fn workspace_is_active_where_some_monitor_shows_it() {
    let monitors = vec![Monitor { active_workspace_id: 4 }, Monitor { active_workspace_id: 2 }];
    let infos = make_workspace_infos(
        &monitors,
        &vec![],
        &vec![rule("1", None), rule("2", None), rule("4", None)],
        &vec![open(1, "DP-1", 0), open(2, "DP-2", 0), open(4, "DP-1", 0)],
    );
    let active: Vec<bool> = infos.iter().map(|info| info.is_active).collect();
    assert_eq!(active, vec![false, true, true]);
}

#[test]
fn events_that_touch_the_workspaces_ask_for_a_new_list() {
    let relevant = [
        HyprEvent::MonitorAdded,
        HyprEvent::MonitorRemoved,
        HyprEvent::WorkspaceChanged,
        HyprEvent::WorkspaceDeleted,
        HyprEvent::WorkspaceAdded,
        HyprEvent::WorkspaceMoved,
        HyprEvent::WindowOpened,
        HyprEvent::WindowClosed,
        HyprEvent::WindowMoved,
        HyprEvent::FloatStateChanged,
    ];
    for event in relevant {
        assert!(process_event(Some(event)));
    }
}

#[test]
fn other_events_ask_for_nothing() {
    let others = [
        HyprEvent::Unknown,
        HyprEvent::WorkspaceRenamed,
        HyprEvent::ActiveWindowChangedV1,
        HyprEvent::ActiveWindowChangedV2,
        HyprEvent::ActiveWindowChanged,
        HyprEvent::ActiveMonitorChanged,
        HyprEvent::FullscreenStateChanged,
        HyprEvent::SpecialRemoved,
        HyprEvent::ChangedSpecial,
        HyprEvent::LayoutChanged,
        HyprEvent::SubMapChanged,
        HyprEvent::LayerOpened,
        HyprEvent::LayerClosed,
        HyprEvent::UrgentStateChanged,
        HyprEvent::WindowTitleChanged,
        HyprEvent::Screencast,
        HyprEvent::ConfigReloaded,
        HyprEvent::IgnoreGroupLockStateChanged,
        HyprEvent::LockGroupsStateChanged,
        HyprEvent::WindowPinned,
        HyprEvent::GroupToggled,
        HyprEvent::WindowMovedIntoGroup,
        HyprEvent::WindowMovedOutOfGroup,
    ];
    for event in others {
        assert!(!process_event(Some(event)));
    }
}

#[test]
fn item_that_could_not_be_read_asks_for_nothing() {
    assert!(!process_event(None));
}

#[test]
fn hyprland_commands() {
    let mut desktop = HyprlandDesktop::new();
    assert_eq!(desktop.focus_workspace(3), Dispatch::WorkspaceId(3));
    assert_eq!(desktop.focus_workspace(-98), Dispatch::WorkspaceId(-98));
    assert_eq!(desktop.focus_workspace(4294967297), Dispatch::WorkspaceId(1));
    assert_eq!(desktop.focus_workspace(2147483648), Dispatch::WorkspaceId(i32::MIN));
    assert_eq!(desktop.cycle_workspace(true), Dispatch::WorkspaceRelativeMonitor(1));
    assert_eq!(desktop.cycle_workspace(false), Dispatch::WorkspaceRelativeMonitor(-1));
}
