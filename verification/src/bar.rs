//! The bar of one output, as far as it depends on the workspaces.

use crate::desktop_environment::{info_views, WorkspaceInfo, WorkspaceInfoView};
use crate::sections::workspaces::on_output;
use vstd::prelude::*;

verus! {

/// The place of the first workspace at or after `from` that lies on the output
/// `output_name` and is active, or the length of the list where there is none.
pub open spec fn first_active_on(
    infos: Seq<WorkspaceInfoView>,
    output_name: Seq<char>,
    from: int,
) -> int
    decreases infos.len() - from,
{
    if from < 0 || from >= infos.len() {
        infos.len() as int
    } else if on_output(infos[from], output_name) && infos[from].is_active {
        from
    } else {
        first_active_on(infos, output_name, from + 1)
    }
}

/// The bar of the output `output_name` paints no background: the output has
/// an active workspace, and the first such workspace asks for it.
pub open spec fn transparent_on(infos: Seq<WorkspaceInfoView>, output_name: Seq<char>) -> bool {
    let at = first_active_on(infos, output_name, 0);
    at < infos.len() && infos[at].transparent_bar
}

/// Tells whether the bar of the output `output_name` is to be transparent.
pub fn is_transparent(output_name: &String, workspace_infos: &[WorkspaceInfo]) -> (transparent:
    bool)
    ensures
        transparent == transparent_on(info_views(workspace_infos@), output_name@),
{
    let mut at: usize = 0;
    while at < workspace_infos.len()
        invariant
            at <= workspace_infos@.len(),
            first_active_on(info_views(workspace_infos@), output_name@, 0) == first_active_on(
                info_views(workspace_infos@),
                output_name@,
                at as int,
            ),
        decreases workspace_infos@.len() - at,
    {
        let w = &workspace_infos[at];
        assert(info_views(workspace_infos@)[at as int] == w@);
        let here = match &w.output {
            Some(output) => *output == *output_name,
            None => false,
        };
        if here && w.is_active {
            return w.transparent_bar;
        }
        at += 1;
    }
    false
}

} // verus!
