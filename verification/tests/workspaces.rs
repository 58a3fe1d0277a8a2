use limbo::animation::Lerpable;
use limbo::bar::is_transparent;
use limbo::desktop_environment::niri_desktop::on_line;
use limbo::desktop_environment::WorkspaceInfo;
use limbo::message::Message;
use limbo::sections::workspaces::state::{
    color_target_idx, width_target_idx, TRANSITION_MS, TRANSITION_TICKS, WIDTH_ACTIVE,
    WIDTH_INACTIVE,
};
use limbo::sections::workspaces::{update_states, ColorTargets, WorkspaceState};
use limbo::sections::Workspaces;
use niri_ipc::state::EventStreamState;

/// A colour of three whole channels, blended channel by channel.
#[derive(Clone, Copy, Debug, PartialEq)]
struct Paint {
    r: i32,
    g: i32,
    b: i32,
}

impl Lerpable for Paint {
    fn lerp(start: &Self, end: &Self, factor: u32) -> Self {
        Paint {
            r: <i32 as Lerpable>::lerp(&start.r, &end.r, factor),
            g: <i32 as Lerpable>::lerp(&start.g, &end.g, factor),
            b: <i32 as Lerpable>::lerp(&start.b, &end.b, factor),
        }
    }
}

const NORMAL: Paint = Paint { r: 88, g: 91, b: 112 };
const HAS_WINDOWS: Paint = Paint { r: 100, g: 100, b: 200 };
const ACTIVE: Paint = Paint { r: 137, g: 180, b: 250 };

fn colors() -> ColorTargets<Paint> {
    ColorTargets { normal: NORMAL, has_windows: HAS_WINDOWS, active: ACTIVE }
}

fn info(id: i64, output: &str, is_active: bool, has_windows: bool) -> WorkspaceInfo {
    WorkspaceInfo {
        output: Some(output.to_string()),
        id,
        idx: id as i32,
        is_active,
        has_windows,
        transparent_bar: !has_windows,
    }
}

#[test]
fn constants_of_the_pill() {
    assert_eq!(WIDTH_INACTIVE, 5_000);
    assert_eq!(WIDTH_ACTIVE, 11_000);
    assert_eq!(TRANSITION_MS, 100);
    assert_eq!(TRANSITION_TICKS, 7);
}

#[test]
fn width_aims_by_activity() {
    assert_eq!(width_target_idx(&info(1, "DP-1", true, false)), 1);
    assert_eq!(width_target_idx(&info(1, "DP-1", true, true)), 1);
    assert_eq!(width_target_idx(&info(1, "DP-1", false, false)), 0);
    assert_eq!(width_target_idx(&info(1, "DP-1", false, true)), 0);
}

#[test]
fn colour_aims_by_activity_then_by_windows() {
    assert_eq!(color_target_idx(&info(1, "DP-1", true, false)), 2);
    assert_eq!(color_target_idx(&info(1, "DP-1", true, true)), 2);
    assert_eq!(color_target_idx(&info(1, "DP-1", false, true)), 1);
    assert_eq!(color_target_idx(&info(1, "DP-1", false, false)), 0);
}

#[test]
fn new_workspace_appears_at_rest() {
    let old: Vec<WorkspaceState<Paint>> = vec![
        WorkspaceState::from_existing(&[], info(7, "DP-1", true, true), &colors()),
    ];
    let state = WorkspaceState::from_existing(&old, info(12, "DP-1", false, true), &colors());
    assert!(!state.animation_running());
    assert_eq!(state.width(), WIDTH_INACTIVE);
    assert_eq!(state.color(), HAS_WINDOWS);
    assert_eq!(state.info().id, 12);
    let state = WorkspaceState::from_existing(&old, info(13, "DP-1", true, false), &colors());
    assert!(!state.animation_running());
    assert_eq!(state.width(), WIDTH_ACTIVE);
    assert_eq!(state.color(), ACTIVE);
    let state = WorkspaceState::from_existing(&old, info(14, "DP-1", false, false), &colors());
    assert!(!state.animation_running());
    assert_eq!(state.color(), NORMAL);
}

#[test]
fn reconciliation_in_mid_transition_keeps_what_is_on_display_and_aims_anew() {
    // Workspace 7 is active, then loses activity, and is reported active again
    // partway through the transition.
    let first = WorkspaceState::from_existing(&[], info(7, "DP-1", true, true), &colors());
    let mut states = vec![WorkspaceState::from_existing(
        &[first],
        info(7, "DP-1", false, true),
        &colors(),
    )];
    assert!(states[0].animation_running());
    states[0].update();
    states[0].update();
    states[0].update();
    let width = states[0].width();
    let color = states[0].color();
    // Three ticks of 16/100 along the way from 11000 down to 5000.
    assert_eq!(width, 11_000 - 2_880);
    assert!(states[0].animation_running());

    let merged = WorkspaceState::from_existing(&states, info(7, "DP-1", true, true), &colors());
    assert_eq!(merged.info().is_active, true);
    assert!(merged.animation_running());
    assert_eq!(merged.width(), width);
    assert_eq!(merged.color(), color);

    let mut merged = merged;
    merged.update();
    // 16/100 of the way back up from where the pill stood.
    assert_eq!(merged.width(), width + 460);
    for _ in 0..6 {
        merged.update();
    }
    assert!(!merged.animation_running());
    assert_eq!(merged.width(), WIDTH_ACTIVE);
    assert_eq!(merged.color(), ACTIVE);
}

#[test]
fn first_state_of_an_identifier_is_carried_over() {
    let a = WorkspaceState::from_existing(&[], info(7, "DP-1", true, false), &colors());
    let b = WorkspaceState::from_existing(&[], info(7, "DP-1", false, false), &colors());
    let merged = WorkspaceState::from_existing(&[a, b], info(7, "DP-1", true, false), &colors());
    // The first state was active already: nothing moves.
    assert!(!merged.animation_running());
    assert_eq!(merged.width(), WIDTH_ACTIVE);
}

#[test]
fn carried_state_keeps_its_own_colours() {
    let old = vec![WorkspaceState::from_existing(&[], info(7, "DP-1", false, false), &colors())];
    let other = ColorTargets {
        normal: Paint { r: 1, g: 1, b: 1 },
        has_windows: Paint { r: 2, g: 2, b: 2 },
        active: Paint { r: 3, g: 3, b: 3 },
    };
    let mut merged = WorkspaceState::from_existing(&old, info(7, "DP-1", true, false), &other);
    for _ in 0..TRANSITION_TICKS {
        merged.update();
    }
    assert_eq!(merged.color(), ACTIVE);
}

#[test]
fn strip_shows_the_workspaces_of_its_output_in_the_order_of_the_report() {
    let infos = vec![
        info(3, "DP-1", false, true),
        info(1, "DP-2", true, false),
        info(2, "DP-1", true, true),
        WorkspaceInfo {
            output: None,
            id: 9,
            idx: 9,
            is_active: false,
            has_windows: false,
            transparent_bar: true,
        },
    ];
    let states: Vec<WorkspaceState<Paint>> =
        update_states(&"DP-1".to_string(), &infos, &[], &colors());
    let ids: Vec<i64> = states.iter().map(|state| state.info().id).collect();
    assert_eq!(ids, vec![3, 2]);
    assert_eq!(*states[0].info(), infos[0]);
    assert_eq!(*states[1].info(), infos[2]);
    let none: Vec<WorkspaceState<Paint>> =
        update_states(&"HDMI-A-1".to_string(), &infos, &[], &colors());
    assert!(none.is_empty());
}

#[test]
fn one_empty_active_workspace_from_the_compositor_to_the_strip() {
    let mut mirror = EventStreamState::default();
    let line = "{\"WorkspacesChanged\":{\"workspaces\":[{\"id\":1,\"idx\":0,\"name\":null,\
                \"output\":\"DP-1\",\"is_urgent\":false,\"is_active\":true,\"is_focused\":true,\
                \"active_window_id\":null}]}}";
    let infos = on_line(&mut mirror, line).unwrap();
    assert_eq!(infos.len(), 1);
    assert_eq!(infos[0].transparent_bar, true);
    assert!(is_transparent(&"DP-1".to_string(), &infos));

    let mut strip: Workspaces<Paint> = Workspaces::new("DP-1".to_string(), &[], colors());
    assert!(strip.states().is_empty());
    strip.update(&Message::WorkspacesChanged(infos));
    assert_eq!(strip.states().len(), 1);
    let state = &strip.states()[0];
    assert_eq!(state.info().id, 1);
    assert_eq!(state.info().idx, 0);
    assert_eq!(state.info().transparent_bar, true);
    assert_eq!(state.width(), WIDTH_ACTIVE);
    assert_eq!(state.color(), ACTIVE);
    assert!(!state.animation_running());
    assert!(!strip.animation_running());
}

#[test]
fn windows_on_the_active_workspace_move_nothing() {
    let mut strip: Workspaces<Paint> =
        Workspaces::new("DP-1".to_string(), &[info(1, "DP-1", true, false)], colors());
    let now = info(1, "DP-1", true, true);
    assert_eq!(now.transparent_bar, false);
    assert!(!is_transparent(&"DP-1".to_string(), &[info(1, "DP-1", true, true)]));
    strip.update(&Message::WorkspacesChanged(vec![now]));
    let state = &strip.states()[0];
    assert!(!state.animation_running());
    assert_eq!(state.width(), WIDTH_ACTIVE);
    assert_eq!(state.color(), ACTIVE);
    assert_eq!(state.info().has_windows, true);
    assert_eq!(state.info().transparent_bar, false);
    assert!(!strip.animation_running());
}

#[test]
fn workspace_that_loses_activity_shrinks_for_seven_ticks() {
    let mut strip: Workspaces<Paint> =
        Workspaces::new("DP-1".to_string(), &[info(1, "DP-1", true, true)], colors());
    strip.update(&Message::WorkspacesChanged(vec![info(1, "DP-1", false, true)]));
    assert!(strip.animation_running());
    assert!(strip.states()[0].animation_running());
    assert_eq!(strip.states()[0].width(), WIDTH_ACTIVE);
    assert_eq!(strip.states()[0].color(), ACTIVE);
    let widths = [10_040, 9_080, 8_120, 7_160, 6_200, 5_240];
    for width in widths {
        strip.update(&Message::AnimationTick);
        assert!(strip.animation_running());
        assert_eq!(strip.states()[0].width(), width);
    }
    strip.update(&Message::AnimationTick);
    assert!(!strip.animation_running());
    assert_eq!(strip.states()[0].width(), WIDTH_INACTIVE);
    assert_eq!(strip.states()[0].color(), HAS_WINDOWS);
    strip.update(&Message::AnimationTick);
    assert!(!strip.animation_running());
    assert_eq!(strip.states()[0].width(), WIDTH_INACTIVE);
}

#[test]
fn other_messages_leave_the_strip_alone() {
    let mut strip: Workspaces<Paint> =
        Workspaces::new("DP-1".to_string(), &[info(1, "DP-1", true, true)], colors());
    strip.update(&Message::WorkspacesChanged(vec![info(1, "DP-1", false, true)]));
    strip.update(&Message::AnimationTick);
    let width = strip.states()[0].width();
    strip.update(&Message::FocusWorkspace(1));
    strip.update(&Message::CycleWorkspace { forward: true });
    assert_eq!(strip.states().len(), 1);
    assert_eq!(strip.states()[0].width(), width);
    assert!(strip.animation_running());
}

#[test]
fn workspace_that_leaves_the_report_leaves_the_strip() {
    let mut strip: Workspaces<Paint> = Workspaces::new(
        "DP-1".to_string(),
        &[info(1, "DP-1", true, true), info(2, "DP-1", false, false)],
        colors(),
    );
    assert_eq!(strip.states().len(), 2);
    strip.update(&Message::WorkspacesChanged(vec![info(2, "DP-1", true, false)]));
    assert_eq!(strip.states().len(), 1);
    assert_eq!(strip.states()[0].info().id, 2);
    assert!(strip.animation_running());
    assert_eq!(strip.states()[0].width(), WIDTH_INACTIVE);
}

#[test]
fn strip_runs_while_any_of_its_workspaces_runs() {
    let mut strip: Workspaces<Paint> = Workspaces::new(
        "DP-1".to_string(),
        &[info(1, "DP-1", true, false), info(2, "DP-1", false, false)],
        colors(),
    );
    assert!(!strip.animation_running());
    strip.update(&Message::WorkspacesChanged(vec![
        info(1, "DP-1", true, false),
        info(2, "DP-1", false, true),
    ]));
    // Only the colour of the second workspace moves.
    assert!(!strip.states()[0].animation_running());
    assert!(strip.states()[1].animation_running());
    assert!(strip.animation_running());
    assert_eq!(strip.states()[1].width(), WIDTH_INACTIVE);
}

#[test]
fn bar_is_transparent_by_the_first_active_workspace_of_its_output() {
    let name = "DP-1".to_string();
    assert!(!is_transparent(&name, &[]));
    let mut infos = vec![
        info(1, "DP-2", true, false),
        info(2, "DP-1", false, false),
        info(3, "DP-1", true, true),
        info(4, "DP-1", true, false),
    ];
    assert!(!is_transparent(&name, &infos));
    infos[2].transparent_bar = true;
    assert!(is_transparent(&name, &infos));
    assert!(is_transparent(&"DP-2".to_string(), &infos));
    assert!(!is_transparent(&"DP-3".to_string(), &infos));
    // No active workspace on the output: an opaque bar.
    assert!(!is_transparent(&name, &[info(2, "DP-1", false, false)]));
}

#[test]
fn copy_of_a_state_moves_on_its_own() {
    let old = vec![WorkspaceState::from_existing(&[], info(7, "DP-1", true, false), &colors())];
    let state = WorkspaceState::from_existing(&old, info(7, "DP-1", false, false), &colors());
    let mut copy = state.clone();
    copy.update();
    assert_eq!(state.width(), WIDTH_ACTIVE);
    assert_eq!(copy.width(), 10_040);
    assert_eq!(*copy.info(), *state.info());
}
