//! The Hyprland backend: the list of workspaces is computed afresh from four
//! answers of the compositor whenever an event may have changed it.

use super::{info_views, name_view, WorkspaceId, WorkspaceInfo, WorkspaceInfoView};
use vstd::prelude::*;
use vstd::seq_lib::{to_multiset_build, to_multiset_insert};

verus! {

/// The Hyprland backend. It keeps no state of its own: the compositor is
/// asked anew each time.
#[derive(Debug, Clone, Copy, PartialEq, Eq, Structural)]
pub struct HyprlandDesktop;

/// A command for the compositor's dispatcher.
#[derive(Debug, Clone, Copy, PartialEq, Eq, Structural)]
pub enum Dispatch {
    /// Show the workspace of this identifier.
    WorkspaceId(i32),
    /// Show the workspace that lies this many places further on the monitor
    /// that has the focus.
    WorkspaceRelativeMonitor(i32),
}

/// The kinds of event that the compositor sends.
#[derive(Debug, Clone, Copy, PartialEq, Eq, Structural)]
pub enum HyprEvent {
    Unknown,
    WorkspaceChanged,
    WorkspaceDeleted,
    WorkspaceAdded,
    WorkspaceMoved,
    WorkspaceRenamed,
    ActiveWindowChangedV1,
    ActiveWindowChangedV2,
    ActiveWindowChanged,
    ActiveMonitorChanged,
    FullscreenStateChanged,
    MonitorAdded,
    MonitorRemoved,
    WindowOpened,
    WindowClosed,
    WindowMoved,
    SpecialRemoved,
    ChangedSpecial,
    LayoutChanged,
    SubMapChanged,
    LayerOpened,
    LayerClosed,
    FloatStateChanged,
    UrgentStateChanged,
    WindowTitleChanged,
    Screencast,
    ConfigReloaded,
    IgnoreGroupLockStateChanged,
    LockGroupsStateChanged,
    WindowPinned,
    GroupToggled,
    WindowMovedIntoGroup,
    WindowMovedOutOfGroup,
}

/// An event of this kind may change the list of workspaces: a monitor came or
/// went, a workspace was shown, made, removed or moved, a window was opened,
/// closed or moved, or a window began or ceased to float.
pub open spec fn changes_workspaces(event: HyprEvent) -> bool {
    match event {
        HyprEvent::MonitorAdded => true,
        HyprEvent::MonitorRemoved => true,
        HyprEvent::WorkspaceChanged => true,
        HyprEvent::WorkspaceDeleted => true,
        HyprEvent::WorkspaceAdded => true,
        HyprEvent::WorkspaceMoved => true,
        HyprEvent::WindowOpened => true,
        HyprEvent::WindowClosed => true,
        HyprEvent::WindowMoved => true,
        HyprEvent::FloatStateChanged => true,
        _ => false,
    }
}

impl HyprlandDesktop {
    pub fn new() -> (desktop: Self)
        ensures
            desktop == HyprlandDesktop,
    {
        HyprlandDesktop
    }

    /// The command that shows the workspace `id`. The compositor counts its
    /// workspaces in 32 bits: the identifier is cut to them.
    pub fn focus_workspace(&mut self, id: WorkspaceId) -> (command: Dispatch)
        ensures
            command == Dispatch::WorkspaceId(id as i32),
            *final(self) == *old(self),
    {
        Dispatch::WorkspaceId(#[verifier::truncate] (id as i32))
    }

    /// The command that shows the next workspace of the focused monitor, or
    /// the one before it.
    pub fn cycle_workspace(&mut self, forward: bool) -> (command: Dispatch)
        ensures
            command == Dispatch::WorkspaceRelativeMonitor(if forward { 1i32 } else { -1i32 }),
            *final(self) == *old(self),
    {
        Dispatch::WorkspaceRelativeMonitor(
            match forward {
                true => 1,
                false => -1,
            },
        )
    }
}

/// Decides what one item of the event feed asks for: `true` where the
/// compositor is to be asked again and the list of workspaces computed afresh.
/// An item that could not be read, `None`, asks for nothing, and so does an
/// event of any kind that leaves the workspaces as they are.
pub fn process_event(event: Option<HyprEvent>) -> (recompute: bool)
    ensures
        recompute == match event {
            Some(event) => changes_workspaces(event),
            None => false,
        },
{
    let Some(event) = event else {
        return false;
    };
    match event {
        HyprEvent::MonitorAdded
        | HyprEvent::MonitorRemoved
        | HyprEvent::WorkspaceChanged
        | HyprEvent::WorkspaceDeleted
        | HyprEvent::WorkspaceAdded
        | HyprEvent::WorkspaceMoved
        | HyprEvent::WindowOpened
        | HyprEvent::WindowClosed
        | HyprEvent::WindowMoved
        | HyprEvent::FloatStateChanged => true,
        _ => false,
    }
}

/// A monitor, as far as the list of workspaces depends on it.
#[derive(Debug, PartialEq, Eq)]
pub struct Monitor {
    /// The workspace that the monitor shows.
    pub active_workspace_id: i32,
}

/// A window, as far as the list of workspaces depends on it.
#[derive(Debug, PartialEq, Eq)]
pub struct Client {
    /// The workspace that holds the window.
    pub workspace_id: i32,
    pub floating: bool,
}

/// A workspace that the configuration names, whether it is open or not.
#[derive(Debug, PartialEq, Eq)]
pub struct WorkspaceRule {
    /// The selector of the rule; only a plain number names a workspace here.
    pub workspace_string: String,
    /// The monitor that the rule binds the workspace to.
    pub monitor: Option<String>,
}

/// A workspace that is open.
#[derive(Debug, PartialEq, Eq)]
pub struct Workspace {
    pub id: i32,
    /// Name of the monitor that shows the workspace.
    pub monitor: String,
    /// Number of windows on the workspace.
    pub windows: u16,
}

/// The value of a decimal digit.
pub open spec fn digit_value(c: char) -> Option<int> {
    if 48 <= c as int <= 57 {
        Some(c as int - 48)
    } else {
        None
    }
}

/// The number that a non-empty run of decimal digits writes.
pub open spec fn decimal_value(digits: Seq<char>) -> Option<int>
    decreases digits.len(),
{
    if digits.len() == 0 {
        None
    } else {
        match digit_value(digits.last()) {
            None => None,
            Some(unit) => if digits.len() == 1 {
                Some(unit)
            } else {
                match decimal_value(digits.drop_last()) {
                    None => None,
                    Some(tens) => Some(10 * tens + unit),
                }
            },
        }
    }
}

/// The number that `text` writes in decimal: an optional sign, then digits
/// only, and a value that a 64-bit signed integer holds.
pub open spec fn decimal_i64(text: Seq<char>) -> Option<i64> {
    let negative = text.len() > 0 && text[0] == '-';
    let signed = text.len() > 0 && (text[0] == '-' || text[0] == '+');
    let digits = if signed { text.skip(1) } else { text };
    match decimal_value(digits) {
        None => None,
        Some(magnitude) => {
            let value = if negative { -magnitude } else { magnitude };
            if i64::MIN <= value <= i64::MAX {
                Some(value as i64)
            } else {
                None
            }
        },
    }
}

/// Reads a workspace identifier with `str::parse::<i64>`, which accepts an
/// optional sign followed by decimal digits and nothing else, and refuses a
/// number that does not fit.
#[verifier::external_body]
fn parse_workspace_id(text: &str) -> (id: Option<WorkspaceId>)
    ensures
        id == decimal_i64(text@),
{
    text.parse::<i64>().ok()
}

/// The place of the first workspace at or after `from` whose identifier is
/// `id`, or the length of the list where there is none.
pub open spec fn first_with_id(workspaces: Seq<Workspace>, id: int, from: int) -> int
    decreases workspaces.len() - from,
{
    if from < 0 || from >= workspaces.len() {
        workspaces.len() as int
    } else if workspaces[from].id == id {
        from
    } else {
        first_with_id(workspaces, id, from + 1)
    }
}

/// Some monitor shows the workspace `id`.
pub open spec fn shown_on_a_monitor(monitors: Seq<Monitor>, id: int) -> bool {
    exists|i: int| 0 <= i < monitors.len() && #[trigger] monitors[i].active_workspace_id == id
}

/// Every window on the workspace `id` floats.
pub open spec fn all_floating(clients: Seq<Client>, id: int) -> bool {
    forall|i: int|
        0 <= i < clients.len() && #[trigger] clients[i].workspace_id == id ==> clients[i].floating
}

/// What the bar shows of an open workspace.
pub open spec fn open_workspace_info(
    workspace: Workspace,
    monitors: Seq<Monitor>,
    clients: Seq<Client>,
) -> WorkspaceInfoView {
    WorkspaceInfoView {
        output: Some(workspace.monitor@),
        id: workspace.id as int,
        idx: workspace.id as int,
        is_active: shown_on_a_monitor(monitors, workspace.id as int),
        has_windows: workspace.windows > 0,
        transparent_bar: workspace.windows == 0 || all_floating(clients, workspace.id as int),
    }
}

/// What the bar shows of a workspace that is configured and not open: it is
/// empty, and lies on the output that its rule names.
pub open spec fn closed_workspace_info(id: i64, output: Option<Seq<char>>) -> WorkspaceInfoView {
    WorkspaceInfoView {
        output,
        id: id as int,
        idx: (id as i32) as int,
        is_active: false,
        has_windows: false,
        transparent_bar: true,
    }
}

/// What the bar shows of the workspace that a rule names `id`.
pub open spec fn rule_info(
    id: i64,
    output: Option<Seq<char>>,
    monitors: Seq<Monitor>,
    clients: Seq<Client>,
    workspaces: Seq<Workspace>,
) -> WorkspaceInfoView {
    let at = first_with_id(workspaces, id as int, 0);
    if at < workspaces.len() {
        open_workspace_info(workspaces[at], monitors, clients)
    } else {
        closed_workspace_info(id, output)
    }
}

/// The workspaces that the rules name by number, in the order of the rules.
pub open spec fn listed_infos(
    rules: Seq<WorkspaceRule>,
    monitors: Seq<Monitor>,
    clients: Seq<Client>,
    workspaces: Seq<Workspace>,
) -> Seq<WorkspaceInfoView>
    decreases rules.len(),
{
    if rules.len() == 0 {
        Seq::empty()
    } else {
        let before = listed_infos(rules.drop_last(), monitors, clients, workspaces);
        let rule = rules.last();
        match decimal_i64(rule.workspace_string@) {
            Some(id) => before.push(
                rule_info(id, name_view(rule.monitor), monitors, clients, workspaces),
            ),
            None => before,
        }
    }
}

/// The entries of `infos` whose place in the order of display is `idx`.
pub open spec fn with_idx(infos: Seq<WorkspaceInfoView>, idx: int) -> Seq<WorkspaceInfoView> {
    infos.filter(|info: WorkspaceInfoView| info.idx == idx)
}

/// The places in the order of display never fall along `infos`.
pub open spec fn sorted_by_idx(infos: Seq<WorkspaceInfoView>) -> bool {
    forall|i: int, j: int| 0 <= i <= j < infos.len() ==> infos[i].idx <= infos[j].idx
}

/// `sorted` holds the entries of `infos` in the order of display, and entries
/// that share a place stand as they stood in `infos`.
pub open spec fn is_stable_sort_by_idx(
    sorted: Seq<WorkspaceInfoView>,
    infos: Seq<WorkspaceInfoView>,
) -> bool {
    &&& sorted.len() == infos.len()
    &&& sorted.to_multiset() == infos.to_multiset()
    &&& sorted_by_idx(sorted)
    &&& forall|idx: int| #[trigger] with_idx(sorted, idx) == with_idx(infos, idx)
}

/// Finds the first workspace whose identifier is `id`.
fn find_workspace(workspaces: &Vec<Workspace>, id: WorkspaceId) -> (at: usize)
    ensures
        at == first_with_id(workspaces@, id as int, 0),
        at <= workspaces@.len(),
{
    let mut at: usize = 0;
    while at < workspaces.len()
        invariant
            at <= workspaces@.len(),
            first_with_id(workspaces@, id as int, 0) == first_with_id(
                workspaces@,
                id as int,
                at as int,
            ),
        decreases workspaces@.len() - at,
    {
        if workspaces[at].id as i64 == id {
            return at;
        }
        at += 1;
    }
    at
}

/// Tells whether some monitor shows the workspace `id`.
fn is_shown(monitors: &Vec<Monitor>, id: i32) -> (shown: bool)
    ensures
        shown == shown_on_a_monitor(monitors@, id as int),
{
    let mut i: usize = 0;
    while i < monitors.len()
        invariant
            i <= monitors@.len(),
            forall|j: int| 0 <= j < i ==> monitors@[j].active_workspace_id != id,
        decreases monitors@.len() - i,
    {
        if monitors[i].active_workspace_id == id {
            return true;
        }
        i += 1;
    }
    false
}

/// Tells whether every window on the workspace `id` floats.
fn floats_only(clients: &Vec<Client>, id: i32) -> (all: bool)
    ensures
        all == all_floating(clients@, id as int),
{
    let mut i: usize = 0;
    while i < clients.len()
        invariant
            i <= clients@.len(),
            forall|j: int|
                0 <= j < i && #[trigger] clients@[j].workspace_id == id ==> clients@[j].floating,
        decreases clients@.len() - i,
    {
        if clients[i].workspace_id == id && !clients[i].floating {
            return false;
        }
        i += 1;
    }
    true
}

/// Describes the workspace that a rule names `id` and binds to `output`.
fn workspace_info(
    id: WorkspaceId,
    output: Option<String>,
    monitors: &Vec<Monitor>,
    clients: &Vec<Client>,
    workspaces: &Vec<Workspace>,
) -> (info: WorkspaceInfo)
    ensures
        info@ == rule_info(id, name_view(output), monitors@, clients@, workspaces@),
{
    let at = find_workspace(workspaces, id);
    if at < workspaces.len() {
        let w = &workspaces[at];
        WorkspaceInfo {
            output: Some(w.monitor.clone()),
            id: w.id as WorkspaceId,
            idx: w.id,
            is_active: is_shown(monitors, w.id),
            has_windows: w.windows > 0,
            transparent_bar: w.windows == 0 || floats_only(clients, w.id),
        }
    } else {
        WorkspaceInfo {
            output,
            id,
            idx: #[verifier::truncate]
            (id as i32),
            is_active: false,
            has_windows: false,
            transparent_bar: true,
        }
    }
}

/// Lists the workspaces that the rules name by number, in the order of the
/// rules.
fn list_workspace_infos(
    monitors: &Vec<Monitor>,
    clients: &Vec<Client>,
    rules: &Vec<WorkspaceRule>,
    workspaces: &Vec<Workspace>,
) -> (infos: Vec<WorkspaceInfo>)
    ensures
        info_views(infos@) == listed_infos(rules@, monitors@, clients@, workspaces@),
{
    let mut infos: Vec<WorkspaceInfo> = Vec::new();
    let mut i: usize = 0;
    while i < rules.len()
        invariant
            i <= rules@.len(),
            info_views(infos@) == listed_infos(
                rules@.take(i as int),
                monitors@,
                clients@,
                workspaces@,
            ),
        decreases rules@.len() - i,
    {
        let rule = &rules[i];
        proof {
            assert(rules@.take(i + 1).drop_last() == rules@.take(i as int));
            assert(rules@.take(i + 1).last() == rules@[i as int]);
        }
        let ghost before = infos@;
        match parse_workspace_id(rule.workspace_string.as_str()) {
            Some(id) => {
                let info = workspace_info(
                    id,
                    super::clone_name(&rule.monitor),
                    monitors,
                    clients,
                    workspaces,
                );
                infos.push(info);
                assert(info_views(infos@) == info_views(before).push(info@));
            },
            None => {},
        }
        i += 1;
    }
    assert(rules@.take(rules@.len() as int) == rules@);
    infos
}

/// The first place in `infos` that holds an entry which is displayed after
/// `idx`, or the length of the list where there is none.
fn place_after(infos: &Vec<WorkspaceInfo>, idx: i32) -> (at: usize)
    requires
        sorted_by_idx(info_views(infos@)),
    ensures
        at <= infos@.len(),
        forall|j: int| 0 <= j < at ==> infos@[j].idx <= idx,
        forall|j: int| at <= j < infos@.len() ==> infos@[j].idx > idx,
{
    let mut at: usize = 0;
    while at < infos.len()
        invariant
            at <= infos@.len(),
            forall|j: int| 0 <= j < at ==> infos@[j].idx <= idx,
            sorted_by_idx(info_views(infos@)),
        decreases infos@.len() - at,
    {
        if infos[at].idx > idx {
            assert forall|j: int| at <= j < infos@.len() implies infos@[j].idx > idx by {
                assert(info_views(infos@)[at as int].idx <= info_views(infos@)[j].idx);
            }
            return at;
        }
        at += 1;
    }
    at
}

/// A list without an entry at the place `idx` contributes nothing there.
proof fn lemma_with_idx_none(infos: Seq<WorkspaceInfoView>, idx: int)
    requires
        forall|j: int| 0 <= j < infos.len() ==> infos[j].idx != idx,
    ensures
        with_idx(infos, idx) == Seq::<WorkspaceInfoView>::empty(),
    decreases infos.len(),
{
    reveal(Seq::filter);
    if infos.len() > 0 {
        lemma_with_idx_none(infos.drop_last(), idx);
    }
}

/// Putting `info` into a sorted list behind the last entry that is not
/// displayed after it keeps the list sorted, and is the same to every place in
/// the order of display as appending `info` at the end.
proof fn lemma_insert_keeps_order(infos: Seq<WorkspaceInfoView>, at: int, info: WorkspaceInfoView)
    requires
        sorted_by_idx(infos),
        0 <= at <= infos.len(),
        forall|j: int| 0 <= j < at ==> infos[j].idx <= info.idx,
        forall|j: int| at <= j < infos.len() ==> infos[j].idx > info.idx,
    ensures
        sorted_by_idx(infos.insert(at, info)),
        forall|idx: int| #[trigger]
            with_idx(infos.insert(at, info), idx) == with_idx(infos.push(info), idx),
{
    let inserted = infos.insert(at, info);
    let head = infos.take(at);
    let tail = infos.skip(at);
    let one = seq![info];
    assert(inserted == head + one + tail);
    assert(infos.push(info) == head + tail + one);
    assert forall|idx: int| #[trigger]
        with_idx(inserted, idx) == with_idx(infos.push(info), idx) by {
        let keep = |v: WorkspaceInfoView| v.idx == idx;
        Seq::filter_distributes_over_add(head + one, tail, keep);
        Seq::filter_distributes_over_add(head, one, keep);
        Seq::filter_distributes_over_add(head + tail, one, keep);
        Seq::filter_distributes_over_add(head, tail, keep);
        if idx == info.idx {
            lemma_with_idx_none(tail, idx);
        } else {
            lemma_with_idx_none(one, idx);
        }
    }
}

/// The last entry of a list is the last of the entries at its place.
proof fn lemma_last_at_its_place(infos: Seq<WorkspaceInfoView>)
    requires
        infos.len() > 0,
    ensures
        with_idx(infos, infos.last().idx).len() > 0,
        with_idx(infos, infos.last().idx).last() == infos.last(),
        forall|idx: int|
            with_idx(infos.drop_last(), idx) == (if idx == infos.last().idx {
                (#[trigger] with_idx(infos, idx)).drop_last()
            } else {
                with_idx(infos, idx)
            }),
{
    reveal(Seq::filter);
    assert forall|idx: int|
        with_idx(infos.drop_last(), idx) == (if idx == infos.last().idx {
            (#[trigger] with_idx(infos, idx)).drop_last()
        } else {
            with_idx(infos, idx)
        }) by {
        let before = with_idx(infos.drop_last(), idx);
        if idx == infos.last().idx {
            assert(with_idx(infos, idx) == before.push(infos.last()));
            assert(before.push(infos.last()).drop_last() == before);
        }
    }
}

/// Two sorted lists that hold the same entries in the same order at every
/// place are one list.
proof fn lemma_same_places_same_list(a: Seq<WorkspaceInfoView>, b: Seq<WorkspaceInfoView>)
    requires
        a.len() == b.len(),
        sorted_by_idx(a),
        sorted_by_idx(b),
        forall|idx: int| #[trigger] with_idx(a, idx) == with_idx(b, idx),
    ensures
        a == b,
    decreases a.len(),
{
    if a.len() > 0 {
        lemma_last_at_its_place(a);
        lemma_last_at_its_place(b);
        let keep_a = |v: WorkspaceInfoView| v.idx == a.last().idx;
        let keep_b = |v: WorkspaceInfoView| v.idx == b.last().idx;
        // The last entry of each list is found in the other, so neither is
        // displayed after the other's.
        assert(with_idx(b, a.last().idx) == with_idx(a, a.last().idx));
        assert(with_idx(b, a.last().idx).contains(a.last())) by {
            assert(with_idx(a, a.last().idx)[with_idx(a, a.last().idx).len() - 1] == a.last());
        }
        b.lemma_filter_contains_rev(keep_a, a.last());
        let j = choose|j: int| 0 <= j < b.len() && b[j] == a.last();
        assert(b[j].idx <= b[b.len() - 1].idx);
        assert(with_idx(a, b.last().idx) == with_idx(b, b.last().idx));
        assert(with_idx(a, b.last().idx).contains(b.last())) by {
            assert(with_idx(b, b.last().idx)[with_idx(b, b.last().idx).len() - 1] == b.last());
        }
        a.lemma_filter_contains_rev(keep_b, b.last());
        let k = choose|k: int| 0 <= k < a.len() && a[k] == b.last();
        assert(a[k].idx <= a[a.len() - 1].idx);
        assert(a.last().idx == b.last().idx);
        assert(a.last() == b.last());
        assert forall|i: int, j: int| 0 <= i <= j < a.drop_last().len() implies a.drop_last()[i].idx
            <= a.drop_last()[j].idx by {
            assert(a[i].idx <= a[j].idx);
        }
        assert forall|i: int, j: int| 0 <= i <= j < b.drop_last().len() implies b.drop_last()[i].idx
            <= b.drop_last()[j].idx by {
            assert(b[i].idx <= b[j].idx);
        }
        assert forall|idx: int| #[trigger]
            with_idx(a.drop_last(), idx) == with_idx(b.drop_last(), idx) by {
            assert(with_idx(a, idx) == with_idx(b, idx));
        }
        lemma_same_places_same_list(a.drop_last(), b.drop_last());
        assert(a == a.drop_last().push(a.last()));
        assert(b == b.drop_last().push(b.last()));
    }
}

/// The order of display leaves nothing open: a list has one stable sort, and
/// no other.
pub proof fn lemma_stable_sort_is_unique(
    first: Seq<WorkspaceInfoView>,
    second: Seq<WorkspaceInfoView>,
    infos: Seq<WorkspaceInfoView>,
)
    requires
        is_stable_sort_by_idx(first, infos),
        is_stable_sort_by_idx(second, infos),
    ensures
        first == second,
{
    assert forall|idx: int| #[trigger] with_idx(first, idx) == with_idx(second, idx) by {
        assert(with_idx(first, idx) == with_idx(infos, idx));
        assert(with_idx(second, idx) == with_idx(infos, idx));
    }
    lemma_same_places_same_list(first, second);
}

/// Sorts workspaces by their place in the order of display; workspaces that
/// share a place keep their order.
fn sort_by_idx(infos: Vec<WorkspaceInfo>) -> (sorted: Vec<WorkspaceInfo>)
    ensures
        is_stable_sort_by_idx(info_views(sorted@), info_views(infos@)),
{
    let mut sorted: Vec<WorkspaceInfo> = Vec::new();
    let mut i: usize = 0;
    assert(info_views(infos@).take(0) == info_views(sorted@));
    while i < infos.len()
        invariant
            i <= infos@.len(),
            is_stable_sort_by_idx(info_views(sorted@), info_views(infos@).take(i as int)),
        decreases infos@.len() - i,
    {
        let info = infos[i].clone();
        let at = place_after(&sorted, info.idx);
        let ghost before = info_views(sorted@);
        let ghost seen = info_views(infos@).take(i as int);
        proof {
            lemma_insert_keeps_order(before, at as int, info@);
            assert(info_views(infos@).take(i + 1) == seen.push(info@));
            assert forall|idx: int| #[trigger]
                with_idx(before.push(info@), idx) == with_idx(seen.push(info@), idx) by {
                let keep = |v: WorkspaceInfoView| v.idx == idx;
                Seq::filter_distributes_over_add(before, seq![info@], keep);
                Seq::filter_distributes_over_add(seen, seq![info@], keep);
                assert(before.push(info@) == before + seq![info@]);
                assert(seen.push(info@) == seen + seq![info@]);
                assert(with_idx(before, idx) == with_idx(seen, idx));
            }
        }
        sorted.insert(at, info);
        proof {
            assert(info_views(sorted@) == before.insert(at as int, info@));
            to_multiset_insert(before, at as int, info@);
            to_multiset_build(seen, info@);
        }
        i += 1;
    }
    assert(info_views(infos@).take(infos@.len() as int) == info_views(infos@));
    sorted
}

/// Computes the list of workspaces from what the compositor answered: every
/// workspace that a rule names by number, described from the open workspace of
/// that number where there is one, in the order of display.
pub fn make_workspace_infos(
    monitors: &Vec<Monitor>,
    clients: &Vec<Client>,
    rules: &Vec<WorkspaceRule>,
    workspaces: &Vec<Workspace>,
) -> (infos: Vec<WorkspaceInfo>)
    ensures
        is_stable_sort_by_idx(
            info_views(infos@),
            listed_infos(rules@, monitors@, clients@, workspaces@),
        ),
{
    let listed = list_workspace_infos(monitors, clients, rules, workspaces);
    sort_by_idx(listed)
}

} // verus!
