//! The strip of workspaces of one output.

pub mod state;

pub use state::{ColorTargets, WorkspaceState};

use crate::animation::Lerpable;
use crate::desktop_environment::{info_views, WorkspaceInfo, WorkspaceInfoView};
use crate::message::Message;
use state::{reconciles, state_views, WorkspaceStateView};
use vstd::prelude::*;

verus! {

/// The workspace lies on the output `output_name`.
pub open spec fn on_output(info: WorkspaceInfoView, output_name: Seq<char>) -> bool {
    info.output == Some(output_name)
}

/// The workspaces of a report that lie on the output `output_name`, in the
/// order of the report.
pub open spec fn infos_on(infos: Seq<WorkspaceInfoView>, output_name: Seq<char>) -> Seq<
    WorkspaceInfoView,
> {
    infos.filter(|info: WorkspaceInfoView| on_output(info, output_name))
}

/// `states` are the states of the workspaces of one output after the
/// compositor reported `infos`: one state for each workspace on that output,
/// in the order of the report, each reconciled with the states `old` of the
/// generation before.
pub open spec fn updates_to<C: Lerpable>(
    output_name: Seq<char>,
    infos: Seq<WorkspaceInfoView>,
    old: Seq<WorkspaceStateView<C>>,
    colors: ColorTargets<C>,
    states: Seq<WorkspaceStateView<C>>,
) -> bool {
    let shown = infos_on(infos, output_name);
    &&& states.len() == shown.len()
    &&& forall|i: int|
        0 <= i < states.len() ==> (#[trigger] states[i]).wf() && reconciles(
            old,
            shown[i],
            colors,
            states[i],
        )
}

/// Every state of the list, one tick later.
pub open spec fn ticked_states<C: Lerpable>(states: Seq<WorkspaceStateView<C>>) -> Seq<
    WorkspaceStateView<C>,
> {
    states.map_values(|state: WorkspaceStateView<C>| state.updated())
}

/// Some state of the list is in transition.
pub open spec fn any_running<C: Lerpable>(states: Seq<WorkspaceStateView<C>>) -> bool {
    exists|i: int| 0 <= i < states.len() && (#[trigger] states[i]).running()
}

/// The mathematical model of a [`Workspaces`] strip.
pub struct WorkspacesView<C> {
    pub states: Seq<WorkspaceStateView<C>>,
    pub output_name: Seq<char>,
    pub colors: ColorTargets<C>,
}

impl<C: Lerpable> WorkspacesView<C> {
    /// `after` is the strip after it has taken `message`: a tick advances
    /// every state, a report of the compositor replaces the states by the
    /// reconciled ones, and any other message leaves the strip as it is.
    pub open spec fn steps_to(self, message: Message, after: Self) -> bool {
        &&& after.output_name == self.output_name
        &&& after.colors == self.colors
        &&& match message {
            Message::AnimationTick => after.states == ticked_states(self.states),
            Message::WorkspacesChanged(infos) => updates_to(
                self.output_name,
                info_views(infos@),
                self.states,
                self.colors,
                after.states,
            ),
            _ => after.states == self.states,
        }
    }
}

/// The strip of workspaces that the bar of one output shows.
#[derive(Debug)]
pub struct Workspaces<C: Lerpable> {
    states: Vec<WorkspaceState<C>>,
    output_name: String,
    colors: ColorTargets<C>,
}

impl<C: Lerpable> View for Workspaces<C> {
    type V = WorkspacesView<C>;

    closed spec fn view(&self) -> WorkspacesView<C> {
        WorkspacesView {
            states: state_views(self.states@),
            output_name: self.output_name@,
            colors: self.colors,
        }
    }
}

impl<C: Lerpable> Workspaces<C> {
    /// The strip of the output `output_name`, given the last report of the
    /// compositor: every workspace on that output is there, at rest.
    pub fn new(
        output_name: String,
        workspace_infos: &[WorkspaceInfo],
        colors: ColorTargets<C>,
    ) -> (strip: Self)
        ensures
            strip@.output_name == output_name@,
            strip@.colors == colors,
            updates_to(
                output_name@,
                info_views(workspace_infos@),
                Seq::<WorkspaceStateView<C>>::empty(),
                colors,
                strip@.states,
            ),
    {
        let none: Vec<WorkspaceState<C>> = Vec::new();
        assert(state_views(none@) == Seq::<WorkspaceStateView<C>>::empty());
        Self {
            states: update_states(&output_name, workspace_infos, none.as_slice(), &colors),
            output_name,
            colors,
        }
    }

    /// Takes a message of the bar.
    pub fn update(&mut self, message: &Message)
        ensures
            old(self)@.steps_to(*message, final(self)@),
    {
        match message {
            Message::AnimationTick => {
                let mut i: usize = 0;
                while i < self.states.len()
                    invariant
                        i <= self.states@.len(),
                        self.states@.len() == old(self).states@.len(),
                        self.output_name == old(self).output_name,
                        self.colors == old(self).colors,
                        forall|j: int|
                            0 <= j < i ==> (#[trigger] self.states@[j])@ == old(
                                self,
                            ).states@[j]@.updated(),
                        forall|j: int|
                            i <= j < self.states@.len() ==> (#[trigger] self.states@[j])
                                == old(self).states@[j],
                    decreases self.states@.len() - i,
                {
                    self.states[i].update();
                    i += 1;
                }
                assert(state_views(self.states@) == ticked_states(state_views(old(self).states@)));
            },
            Message::WorkspacesChanged(workspace_infos) => {
                self.states = update_states(
                    &self.output_name,
                    workspace_infos.as_slice(),
                    self.states.as_slice(),
                    &self.colors,
                );
            },
            _ => {},
        }
    }

    /// Whether some workspace of the strip is in transition: ticks are
    /// needed for as long as this holds.
    pub fn animation_running(&self) -> (running: bool)
        ensures
            running == any_running(self@.states),
    {
        let mut i: usize = 0;
        while i < self.states.len()
            invariant
                i <= self.states@.len(),
                forall|j: int| 0 <= j < i ==> !(#[trigger] self.states@[j])@.running(),
            decreases self.states@.len() - i,
        {
            if self.states[i].animation_running() {
                assert(state_views(self.states@)[i as int].running());
                return true;
            }
            i += 1;
        }
        assert forall|j: int| 0 <= j < state_views(self.states@).len() implies !(
        #[trigger] state_views(self.states@)[j]).running() by {
            assert(!self.states@[j]@.running());
        }
        false
    }

    /// The workspaces of the strip, in the order of display.
    pub fn states(&self) -> (states: &[WorkspaceState<C>])
        ensures
            state_views(states@) == self@.states,
    {
        self.states.as_slice()
    }
}

/// Tells whether the workspace lies on the output `output_name`.
fn is_on_output(info: &WorkspaceInfo, output_name: &String) -> (on: bool)
    ensures
        on == on_output(info@, output_name@),
{
    match &info.output {
        Some(output) => *output == *output_name,
        None => false,
    }
}

/// Computes the states of the workspaces of one output from a report of the
/// compositor and the states of the generation before.
pub fn update_states<C: Lerpable>(
    output_name: &String,
    workspace_infos: &[WorkspaceInfo],
    old_states: &[WorkspaceState<C>],
    colors: &ColorTargets<C>,
) -> (states: Vec<WorkspaceState<C>>)
    ensures
        updates_to(
            output_name@,
            info_views(workspace_infos@),
            state_views(old_states@),
            *colors,
            state_views(states@),
        ),
{
    let mut states: Vec<WorkspaceState<C>> = Vec::new();
    let mut i: usize = 0;
    let ghost keep = |info: WorkspaceInfoView| on_output(info, output_name@);
    proof {
        assert(info_views(workspace_infos@).take(0) == Seq::<WorkspaceInfoView>::empty());
        reveal(Seq::filter);
    }
    while i < workspace_infos.len()
        invariant
            i <= workspace_infos@.len(),
            keep == |info: WorkspaceInfoView| on_output(info, output_name@),
            updates_to(
                output_name@,
                info_views(workspace_infos@).take(i as int),
                state_views(old_states@),
                *colors,
                state_views(states@),
            ),
        decreases workspace_infos@.len() - i,
    {
        let info = &workspace_infos[i];
        let ghost seen = info_views(workspace_infos@).take(i as int);
        let ghost before = state_views(states@);
        proof {
            assert(info_views(workspace_infos@).take(i + 1) == seen.push(info@));
            assert(seen.push(info@).drop_last() == seen);
            reveal(Seq::filter);
            assert(seen.push(info@).filter(keep) == if on_output(info@, output_name@) {
                seen.filter(keep).push(info@)
            } else {
                seen.filter(keep)
            });
        }
        if is_on_output(info, output_name) {
            let state = WorkspaceState::from_existing(old_states, info.clone(), colors);
            states.push(state);
            assert(state_views(states@) == before.push(state@));
        }
        i += 1;
    }
    assert(info_views(workspace_infos@).take(workspace_infos@.len() as int) == info_views(
        workspace_infos@,
    ));
    states
}

} // verus!
