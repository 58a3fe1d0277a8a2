//! One workspace of the strip: what the compositor says of it, and the two
//! animated values that draw its pill.

use crate::animation::{
    lemma_updated_by_progress, speed_spec, Eased, EasedView, Easing, Lerpable, UNIT,
};
use crate::config::types::{Color, Theme, WorkspaceColors};
use crate::desktop_environment::{WorkspaceInfo, WorkspaceInfoView};
use vstd::prelude::*;

verus! {

/// Half the width of the pill of a workspace that is not active, in
/// thousandths of the unit of padding.
pub const WIDTH_INACTIVE: i32 = 5_000;

/// Half the width of the pill of the active workspace, in thousandths of the
/// unit of padding.
pub const WIDTH_ACTIVE: i32 = 11_000;

/// How long a pill takes to change its width or its colour, in milliseconds.
pub const TRANSITION_MS: u32 = 100;

/// The colours of a pill, one for each state of a workspace.
#[derive(Debug)]
pub struct ColorTargets<C> {
    /// An empty workspace that is not active.
    pub normal: C,
    /// A workspace with windows that is not active.
    pub has_windows: C,
    /// The active workspace.
    pub active: C,
}

/// The colour of a pill that is not active where the theme has none for it.
pub open spec fn fallback_inactive() -> Color {
    Color { r: 88, g: 91, b: 112, a: 0xff }
}

/// The colour of the active pill where the theme has none for it.
pub open spec fn fallback_active() -> Color {
    Color { r: 137, g: 180, b: 250, a: 0xff }
}

/// `color` where there is one, else `fallback`.
pub open spec fn or_fallback(color: Option<Color>, fallback: Color) -> Color {
    match color {
        Some(color) => color,
        None => fallback,
    }
}

/// The colours of the pills under a theme: each of the three as the theme
/// resolves it, and a fixed colour where the theme does not know its name.
pub open spec fn resolved_targets(theme: Theme, colors: WorkspaceColors) -> ColorTargets<Color> {
    ColorTargets {
        normal: or_fallback(theme.resolved(colors.normal), fallback_inactive()),
        has_windows: or_fallback(theme.resolved(colors.has_windows), fallback_inactive()),
        active: or_fallback(theme.resolved(colors.active), fallback_active()),
    }
}

/// Resolves the colours of the pills under a theme.
pub fn resolve_color_targets(theme: &Theme, colors: &WorkspaceColors) -> (targets: ColorTargets<
    Color,
>)
    ensures
        targets == resolved_targets(*theme, *colors),
{
    ColorTargets {
        normal: match theme.resolve_color(&colors.normal) {
            Some(color) => color,
            None => Color::from_rgb8(88, 91, 112),
        },
        has_windows: match theme.resolve_color(&colors.has_windows) {
            Some(color) => color,
            None => Color::from_rgb8(88, 91, 112),
        },
        active: match theme.resolve_color(&colors.active) {
            Some(color) => color,
            None => Color::from_rgb8(137, 180, 250),
        },
    }
}

/// The widths that a pill moves between.
pub open spec fn width_targets() -> Seq<i32> {
    seq![WIDTH_INACTIVE, WIDTH_ACTIVE]
}

/// The colours that a pill moves between.
pub open spec fn color_targets<C>(colors: ColorTargets<C>) -> Seq<C> {
    seq![colors.normal, colors.has_windows, colors.active]
}

/// The width that a workspace aims at: the second where it is active, else
/// the first.
pub open spec fn width_target(info: WorkspaceInfoView) -> int {
    if info.is_active {
        1
    } else {
        0
    }
}

/// The colour that a workspace aims at: the third where it is active, else the
/// second where it has windows, else the first.
pub open spec fn color_target(info: WorkspaceInfoView) -> int {
    if info.is_active {
        2
    } else if info.has_windows {
        1
    } else {
        0
    }
}

/// The mathematical model of a [`WorkspaceState`].
pub struct WorkspaceStateView<C> {
    pub info: WorkspaceInfoView,
    pub width: EasedView<i32>,
    pub color: EasedView<C>,
}

impl<C: Lerpable> WorkspaceStateView<C> {
    /// The invariant of every workspace of the strip: both values move as
    /// they were set up to, and aim where the workspace's state says.
    pub open spec fn wf(self) -> bool {
        &&& self.width.wf()
        &&& self.width.easing == Easing::Linear
        &&& self.width.speed == speed_spec(TRANSITION_MS as int)
        &&& self.width.targets == width_targets()
        &&& self.width.target_idx == width_target(self.info)
        &&& self.color.wf()
        &&& self.color.easing == Easing::Smoothstep
        &&& self.color.speed == speed_spec(TRANSITION_MS as int)
        &&& self.color.targets.len() == 3
        &&& self.color.target_idx == color_target(self.info)
    }

    /// A workspace that has just appeared: both values rest where its state
    /// says.
    pub open spec fn fresh(info: WorkspaceInfoView, colors: ColorTargets<C>) -> Self {
        WorkspaceStateView {
            info,
            width: EasedView::settled_at(
                width_target(info),
                Easing::Linear,
                TRANSITION_MS as int,
                width_targets(),
            ),
            color: EasedView::settled_at(
                color_target(info),
                Easing::Smoothstep,
                TRANSITION_MS as int,
                color_targets(colors),
            ),
        }
    }

    /// `after` is this workspace with what the compositor says of it now:
    /// both values are kept and aimed where the new state says.
    pub open spec fn carries_to(self, info: WorkspaceInfoView, after: Self) -> bool {
        &&& after.info == info
        &&& self.width.retargets_to(width_target(info), after.width)
        &&& self.color.retargets_to(color_target(info), after.color)
    }

    /// A transition of the width or of the colour is under way.
    pub open spec fn running(self) -> bool {
        !self.width.settled() || !self.color.settled()
    }

    /// The state one tick later.
    pub open spec fn updated(self) -> Self {
        WorkspaceStateView {
            info: self.info,
            width: self.width.updated(),
            color: self.color.updated(),
        }
    }

    /// The state after `ticks` ticks.
    pub open spec fn updated_by(self, ticks: nat) -> Self {
        WorkspaceStateView {
            info: self.info,
            width: self.width.updated_by(ticks),
            color: self.color.updated_by(ticks),
        }
    }
}

/// The models of a list of workspace states, in order.
pub open spec fn state_views<C: Lerpable>(states: Seq<WorkspaceState<C>>) -> Seq<
    WorkspaceStateView<C>,
> {
    states.map_values(|state: WorkspaceState<C>| state@)
}

/// The place of the first state at or after `from` that belongs to the
/// workspace `id`, or the length of the list where there is none.
pub open spec fn first_state_of<C>(states: Seq<WorkspaceStateView<C>>, id: int, from: int) -> int
    decreases states.len() - from,
{
    if from < 0 || from >= states.len() {
        states.len() as int
    } else if states[from].info.id == id {
        from
    } else {
        first_state_of(states, id, from + 1)
    }
}

/// `after` is the state of the workspace `info`, given the states of the
/// generation before: the first state of the same identifier is carried over,
/// and a workspace that was not there starts at rest.
pub open spec fn reconciles<C: Lerpable>(
    states: Seq<WorkspaceStateView<C>>,
    info: WorkspaceInfoView,
    colors: ColorTargets<C>,
    after: WorkspaceStateView<C>,
) -> bool {
    let at = first_state_of(states, info.id, 0);
    if at < states.len() {
        states[at].carries_to(info, after)
    } else {
        after == WorkspaceStateView::fresh(info, colors)
    }
}

/// A workspace of the strip.
#[derive(Debug)]
pub struct WorkspaceState<C: Lerpable> {
    info: WorkspaceInfo,
    width: Eased<i32>,
    color: Eased<C>,
}

impl<C: Lerpable> View for WorkspaceState<C> {
    type V = WorkspaceStateView<C>;

    closed spec fn view(&self) -> WorkspaceStateView<C> {
        WorkspaceStateView { info: self.info@, width: self.width@, color: self.color@ }
    }
}

impl<C: Lerpable> Clone for WorkspaceState<C> {
    fn clone(&self) -> (copy: Self)
        ensures
            copy@ == self@,
            copy@.wf(),
    {
        proof {
            use_type_invariant(self);
        }
        WorkspaceState {
            info: self.info.clone(),
            width: self.width.clone(),
            color: self.color.clone(),
        }
    }
}

impl<C: Lerpable> WorkspaceState<C> {
    #[verifier::type_invariant]
    spec fn inv(self) -> bool {
        self@.wf()
    }

    /// The state of a workspace that has just appeared: nothing moves.
    fn new(info: WorkspaceInfo, colors: &ColorTargets<C>) -> (state: Self)
        ensures
            state@ == WorkspaceStateView::fresh(info@, *colors),
            state@.wf(),
    {
        let width = Eased::new(
            width_target_idx(&info),
            Easing::Linear,
            TRANSITION_MS,
            &[WIDTH_INACTIVE, WIDTH_ACTIVE],
        );
        let color = Eased::new(
            color_target_idx(&info),
            Easing::Smoothstep,
            TRANSITION_MS,
            &[colors.normal, colors.has_windows, colors.active],
        );
        Self { width, color, info }
    }

    /// The state of the workspace `info`, given the states of the generation
    /// before: where one of them belongs to the same workspace, its two values
    /// are carried over and aimed where `info` says; else the workspace has
    /// just appeared, and nothing moves.
    pub fn from_existing(
        states: &[WorkspaceState<C>],
        info: WorkspaceInfo,
        colors: &ColorTargets<C>,
    ) -> (state: Self)
        ensures
            reconciles(state_views(states@), info@, *colors, state@),
            state@.wf(),
    {
        let mut at: usize = 0;
        while at < states.len()
            invariant
                at <= states@.len(),
                first_state_of(state_views(states@), info.id as int, 0) == first_state_of(
                    state_views(states@),
                    info.id as int,
                    at as int,
                ),
            decreases states@.len() - at,
        {
            let state = &states[at];
            if state.info.id == info.id {
                proof {
                    use_type_invariant(state);
                }
                return Self {
                    width: state.width.clone().with_target_idx(width_target_idx(&info)),
                    color: state.color.clone().with_target_idx(color_target_idx(&info)),
                    info,
                };
            }
            at += 1;
        }
        Self::new(info, colors)
    }

    /// What the compositor says of the workspace.
    pub fn info(&self) -> (info: &WorkspaceInfo)
        ensures
            info@ == self@.info,
            self@.wf(),
    {
        proof {
            use_type_invariant(self);
        }
        &self.info
    }

    /// Whether the width or the colour is in transition.
    pub fn animation_running(&self) -> (running: bool)
        ensures
            running == self@.running(),
            self@.wf(),
    {
        proof {
            use_type_invariant(self);
        }
        self.width.is_running() || self.color.is_running()
    }

    /// Advances both values by one tick.
    pub fn update(&mut self)
        ensures
            final(self)@ == old(self)@.updated(),
            final(self)@.wf(),
    {
        proof {
            use_type_invariant(&*self);
        }
        self.width.update();
        self.color.update();
    }

    /// Half the width of the pill, in thousandths of the unit of padding.
    pub fn width(&self) -> (width: i32)
        ensures
            self@.width.shows(width),
            self@.wf(),
    {
        proof {
            use_type_invariant(self);
        }
        self.width.get()
    }

    /// The colour of the pill.
    pub fn color(&self) -> (color: C)
        ensures
            self@.color.shows(color),
            self@.wf(),
    {
        proof {
            use_type_invariant(self);
        }
        self.color.get()
    }
}

/// The index of the width that a workspace aims at.
pub fn width_target_idx(info: &WorkspaceInfo) -> (idx: usize)
    ensures
        idx == width_target(info@),
{
    if info.is_active {
        1
    } else {
        0
    }
}

/// The index of the colour that a workspace aims at.
pub fn color_target_idx(info: &WorkspaceInfo) -> (idx: usize)
    ensures
        idx == color_target(info@),
{
    if info.is_active {
        2
    } else if info.has_windows {
        1
    } else {
        0
    }
}

/// The number of ticks that a pill needs at most to come to rest.
pub const TRANSITION_TICKS: u32 = 7;

/// Where `first_state_of` points: at a state of the workspace `id`, past every
/// state before it that belongs to another workspace.
pub proof fn lemma_first_state_of<C>(states: Seq<WorkspaceStateView<C>>, id: int, from: int)
    requires
        0 <= from <= states.len(),
    ensures
        from <= first_state_of(states, id, from) <= states.len(),
        first_state_of(states, id, from) < states.len() ==> states[first_state_of(
            states,
            id,
            from,
        )].info.id == id,
        forall|j: int| from <= j < first_state_of(states, id, from) ==> states[j].info.id != id,
    decreases states.len() - from,
{
    if from < states.len() && states[from].info.id != id {
        lemma_first_state_of(states, id, from + 1);
    }
}

/// Reconciliation keeps what is on display. A workspace that was there before
/// shows, right after the compositor's report, a width and a colour that it
/// showed before, whatever its progress was; it aims where its new state says;
/// and where that aim is new, a transition begins at what was on display.
pub proof fn lemma_reconcile_keeps_display<C: Lerpable>(
    states: Seq<WorkspaceStateView<C>>,
    info: WorkspaceInfoView,
    colors: ColorTargets<C>,
    after: WorkspaceStateView<C>,
    width: i32,
    color: C,
)
    requires
        forall|i: int| 0 <= i < states.len() ==> (#[trigger] states[i]).wf(),
        first_state_of(states, info.id, 0) < states.len(),
        reconciles(states, info, colors, after),
    ensures
        ({
            let before = states[first_state_of(states, info.id, 0)];
            &&& before.info.id == info.id
            &&& after.wf()
            &&& after.info == info
            &&& after.width.shows(width) ==> before.width.shows(width)
            &&& after.color.shows(color) ==> before.color.shows(color)
            &&& after.width.end() == width_targets()[width_target(info)]
            &&& after.color.end() == before.color.targets[color_target(info)]
            &&& width_target(info) != width_target(before.info) ==> {
                &&& after.width.progress == 0
                &&& before.width.shows(after.width.start)
            }
            &&& color_target(info) != color_target(before.info) ==> {
                &&& after.color.progress == 0
                &&& before.color.shows(after.color.start)
            }
        }),
{
    lemma_first_state_of(states, info.id, 0);
}

/// A workspace that was not there before does not animate in: it is at rest
/// from the first report on, and shows the width and the colour of its state.
pub proof fn lemma_reconcile_new_is_settled<C: Lerpable>(
    states: Seq<WorkspaceStateView<C>>,
    info: WorkspaceInfoView,
    colors: ColorTargets<C>,
    after: WorkspaceStateView<C>,
    width: i32,
    color: C,
)
    requires
        forall|i: int| 0 <= i < states.len() ==> (#[trigger] states[i]).info.id != info.id,
        reconciles(states, info, colors, after),
    ensures
        after == WorkspaceStateView::fresh(info, colors),
        after.wf(),
        !after.running(),
        after.width.shows(width) <==> width == width_targets()[width_target(info)],
        after.color.shows(color) <==> color == color_targets(colors)[color_target(info)],
{
    lemma_first_state_of(states, info.id, 0);
}

/// A report that leaves the aim of a workspace at rest as it was starts
/// nothing: both values stay as they are, whatever else the report changes.
pub proof fn lemma_reconcile_same_aim_is_still<C: Lerpable>(
    states: Seq<WorkspaceStateView<C>>,
    info: WorkspaceInfoView,
    colors: ColorTargets<C>,
    after: WorkspaceStateView<C>,
)
    requires
        forall|i: int| 0 <= i < states.len() ==> (#[trigger] states[i]).wf(),
        first_state_of(states, info.id, 0) < states.len(),
        !states[first_state_of(states, info.id, 0)].running(),
        width_target(info) == width_target(states[first_state_of(states, info.id, 0)].info),
        color_target(info) == color_target(states[first_state_of(states, info.id, 0)].info),
        reconciles(states, info, colors, after),
    ensures
        after.width == states[first_state_of(states, info.id, 0)].width,
        after.color == states[first_state_of(states, info.id, 0)].color,
        after.info == info,
        !after.running(),
{
    lemma_first_state_of(states, info.id, 0);
}

/// A report that changes the aim of a workspace sets it in motion at once.
pub proof fn lemma_reconcile_new_aim_runs<C: Lerpable>(
    states: Seq<WorkspaceStateView<C>>,
    info: WorkspaceInfoView,
    colors: ColorTargets<C>,
    after: WorkspaceStateView<C>,
)
    requires
        forall|i: int| 0 <= i < states.len() ==> (#[trigger] states[i]).wf(),
        first_state_of(states, info.id, 0) < states.len(),
        width_target(info) != width_target(states[first_state_of(states, info.id, 0)].info)
            || color_target(info) != color_target(
            states[first_state_of(states, info.id, 0)].info,
        ),
        reconciles(states, info, colors, after),
    ensures
        after.running(),
{
    lemma_first_state_of(states, info.id, 0);
}

/// A pill comes to rest within `TRANSITION_TICKS` ticks and shows the width and
/// the colour that it aims at from then on; a transition that has just begun
/// is still under way one tick earlier.
pub proof fn lemma_transition_takes_seven_ticks<C: Lerpable>(state: WorkspaceStateView<C>)
    requires
        state.wf(),
    ensures
        state.updated_by(TRANSITION_TICKS as nat).wf(),
        !state.updated_by(TRANSITION_TICKS as nat).running(),
        state.updated_by(TRANSITION_TICKS as nat).width.shows(state.width.end()),
        state.updated_by(TRANSITION_TICKS as nat).color.shows(state.color.end()),
        state.width.progress == 0 ==> state.updated_by((TRANSITION_TICKS - 1) as nat).running(),
        state.color.progress == 0 ==> state.updated_by((TRANSITION_TICKS - 1) as nat).running(),
{
    let speed = speed_spec(TRANSITION_MS as int);
    assert(speed == 160_000) by {
        assert((16 * 1_000_000int) / 100 == 160_000);
    }
    assert(7 * speed == 1_120_000 && 6 * speed == 960_000);
    lemma_updated_by_progress(state.width, 7);
    lemma_updated_by_progress(state.color, 7);
    lemma_updated_by_progress(state.width, 6);
    lemma_updated_by_progress(state.color, 6);
}

} // verus!
