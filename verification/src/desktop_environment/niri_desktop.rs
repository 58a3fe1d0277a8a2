//! The niri backend: the compositor sends one event per line, each event is
//! applied to a mirror of the compositor's state, and the list of workspaces is
//! computed afresh from the mirror whenever an event may have changed it.

use super::{clone_name, info_views, name_view, WorkspaceId, WorkspaceInfo, WorkspaceInfoView};
use niri_ipc::state::EventStreamState;
use niri_ipc::Event;
use vstd::prelude::*;

verus! {

/// An event of the compositor, `niri_ipc::Event`; nothing is known of what a
/// value holds but through the functions below.
#[verifier::external_type_specification]
#[verifier::external_body]
pub struct ExEvent(niri_ipc::Event);

/// The mirror of the compositor's state, `niri_ipc::state::EventStreamState`;
/// nothing is known of what a value holds but through the functions below.
#[verifier::external_type_specification]
#[verifier::external_body]
pub struct ExEventStreamState(niri_ipc::state::EventStreamState);

/// The niri backend. The connection that carries its commands is not held
/// here: this type decides what is sent.
#[derive(Debug, Clone, Copy, PartialEq, Eq, Structural)]
pub struct NiriDesktop;

/// An action that the compositor is asked to perform.
#[derive(Debug, Clone, Copy, PartialEq, Eq, Structural)]
pub enum Action {
    /// Focus the workspace of this identifier.
    FocusWorkspace { id: u64 },
    FocusWorkspaceUp,
    FocusWorkspaceDown,
}

impl NiriDesktop {
    pub fn new() -> (desktop: Self)
        ensures
            desktop == NiriDesktop,
    {
        NiriDesktop
    }

    /// The action that focuses the workspace `id`. The compositor names its
    /// workspaces by unsigned numbers: the identifier is read as one.
    pub fn focus_workspace(&mut self, id: WorkspaceId) -> (action: Action)
        ensures
            action == (Action::FocusWorkspace { id: id as u64 }),
            *final(self) == *old(self),
    {
        Action::FocusWorkspace { id: #[verifier::truncate] (id as u64) }
    }

    /// The action that focuses the workspace above, going forward, or the one
    /// below.
    pub fn cycle_workspace(&mut self, forward: bool) -> (action: Action)
        ensures
            action == if forward { Action::FocusWorkspaceUp } else { Action::FocusWorkspaceDown },
            *final(self) == *old(self),
    {
        if forward {
            Action::FocusWorkspaceUp
        } else {
            Action::FocusWorkspaceDown
        }
    }
}

/// A workspace of the mirror, as far as the list of workspaces depends on it.
#[derive(Debug, PartialEq, Eq)]
pub struct Workspace {
    pub id: u64,
    /// Place of the workspace on its output.
    pub idx: u8,
    /// Name of the output that shows the workspace, if any is connected.
    pub output: Option<String>,
    pub is_active: bool,
}

/// What a `Workspace` holds, the name of its output as a sequence of
/// characters.
pub struct WorkspaceView {
    pub id: u64,
    pub idx: u8,
    pub output: Option<Seq<char>>,
    pub is_active: bool,
}

impl View for Workspace {
    type V = WorkspaceView;

    open spec fn view(&self) -> WorkspaceView {
        WorkspaceView {
            id: self.id,
            idx: self.idx,
            output: name_view(self.output),
            is_active: self.is_active,
        }
    }
}

/// A window of the mirror, as far as the list of workspaces depends on it.
#[derive(Debug, Clone, Copy, PartialEq, Eq)]
pub struct Window {
    /// The workspace that holds the window, if any.
    pub workspace_id: Option<u64>,
    pub is_floating: bool,
}

/// An event, as far as the backend looks into it: what it names that the
/// mirror must hold for the event to be applied, and what it brings that the
/// list of workspaces depends on.
#[derive(Debug, PartialEq, Eq)]
pub enum NiriEvent {
    /// These are the workspaces from now on.
    WorkspacesChanged(Vec<Workspace>),
    /// The workspace of this identifier was activated.
    WorkspaceActivated(u64),
    /// The active window changed on the workspace of this identifier.
    WorkspaceActiveWindowChanged(u64),
    /// These are the windows from now on, each with its identifier.
    WindowsChanged(Vec<(u64, Window)>),
    /// The window of this identifier was opened, or is now as given.
    WindowOpenedOrChanged(u64, Window),
    /// The window of this identifier was closed.
    WindowClosed(u64),
    WindowFocusChanged,
    /// The layouts of the windows of these identifiers changed.
    WindowLayoutsChanged(Vec<u64>),
    KeyboardLayoutsChanged,
    KeyboardLayoutSwitched,
    /// The overview is now open, or closed.
    OverviewOpenedOrClosed(bool),
    /// These are the stream identifiers of the screencasts from now on.
    CastsChanged(Vec<u64>),
    /// The screencast of this stream identifier started, or changed.
    CastStartedOrChanged(u64),
    /// The screencast of this stream identifier stopped.
    CastStopped(u64),
    /// Any other event: it names nothing that could be missing, and changes
    /// nothing that the list of workspaces depends on.
    Other,
}

/// What a `NiriEvent` holds, its lists as sequences.
pub enum NiriEventView {
    WorkspacesChanged(Seq<WorkspaceView>),
    WorkspaceActivated(u64),
    WorkspaceActiveWindowChanged(u64),
    WindowsChanged(Seq<(u64, Window)>),
    WindowOpenedOrChanged(u64, Window),
    WindowClosed(u64),
    WindowFocusChanged,
    WindowLayoutsChanged(Seq<u64>),
    KeyboardLayoutsChanged,
    KeyboardLayoutSwitched,
    OverviewOpenedOrClosed(bool),
    CastsChanged(Seq<u64>),
    CastStartedOrChanged(u64),
    CastStopped(u64),
    Other,
}

/// The workspaces of a list, each as what it holds.
pub open spec fn workspace_views(rows: Seq<Workspace>) -> Seq<WorkspaceView> {
    rows.map_values(|row: Workspace| row@)
}

impl View for NiriEvent {
    type V = NiriEventView;

    open spec fn view(&self) -> NiriEventView {
        match *self {
            NiriEvent::WorkspacesChanged(rows) => NiriEventView::WorkspacesChanged(
                workspace_views(rows@),
            ),
            NiriEvent::WorkspaceActivated(id) => NiriEventView::WorkspaceActivated(id),
            NiriEvent::WorkspaceActiveWindowChanged(id) => NiriEventView::WorkspaceActiveWindowChanged(id),
            NiriEvent::WindowsChanged(windows) => NiriEventView::WindowsChanged(windows@),
            NiriEvent::WindowOpenedOrChanged(id, window) => NiriEventView::WindowOpenedOrChanged(
                id,
                window,
            ),
            NiriEvent::WindowClosed(id) => NiriEventView::WindowClosed(id),
            NiriEvent::WindowFocusChanged => NiriEventView::WindowFocusChanged,
            NiriEvent::WindowLayoutsChanged(ids) => NiriEventView::WindowLayoutsChanged(ids@),
            NiriEvent::KeyboardLayoutsChanged => NiriEventView::KeyboardLayoutsChanged,
            NiriEvent::KeyboardLayoutSwitched => NiriEventView::KeyboardLayoutSwitched,
            NiriEvent::OverviewOpenedOrClosed(is_open) => NiriEventView::OverviewOpenedOrClosed(
                is_open,
            ),
            NiriEvent::CastsChanged(ids) => NiriEventView::CastsChanged(ids@),
            NiriEvent::CastStartedOrChanged(id) => NiriEventView::CastStartedOrChanged(id),
            NiriEvent::CastStopped(id) => NiriEventView::CastStopped(id),
            NiriEvent::Other => NiriEventView::Other,
        }
    }
}

/// What a reading of an event holds, where there is one.
pub open spec fn reading_view(reading: Option<NiriEvent>) -> Option<NiriEventView> {
    match reading {
        Some(event) => Some(event@),
        None => None,
    }
}

/// The answer of the compositor to the request for its events.
#[derive(Debug, Clone, Copy, PartialEq, Eq, Structural)]
pub enum HandshakeReply {
    /// The request was handled: events follow.
    Handled,
    /// The compositor answered with something that answers another request.
    Unexpected,
    /// The compositor reported an error.
    Refused,
    /// The line is no reply at all.
    Malformed,
}

/// What `event` is where it is one of those that the mirror's workspaces take:
/// a new list of workspaces, an activation, a change of the active window.
pub uninterp spec fn workspaces_event(event: Event) -> Option<NiriEventView>;

/// What `event` is where it is one of those that the mirror's windows take
/// and that this backend looks into: a new list of windows, a window opened,
/// changed or closed, a change of focus or of layouts.
pub uninterp spec fn windows_event(event: Event) -> Option<NiriEventView>;

/// What `event` is where it speaks of the keyboard layouts, the overview or
/// the screencasts.
pub uninterp spec fn settings_event(event: Event) -> Option<NiriEventView>;

/// What the line `line` is to this backend, where it holds an event.
pub uninterp spec fn decoded_summary(line: Seq<char>) -> Option<NiriEventView>;

/// What the line `line` is as an answer to the request for events.
pub uninterp spec fn decoded_reply(line: Seq<char>) -> HandshakeReply;

/// The workspaces that the mirror holds, each under its key.
pub uninterp spec fn mirrored_workspaces(state: EventStreamState) -> Map<u64, WorkspaceView>;

/// The windows that the mirror holds, each under its key.
pub uninterp spec fn mirrored_windows(state: EventStreamState) -> Map<u64, Window>;

/// The stream identifiers under which the mirror holds its screencasts.
pub uninterp spec fn mirrored_cast_ids(state: EventStreamState) -> Set<u64>;

/// Whether the mirror has been told the keyboard layouts.
pub uninterp spec fn knows_keyboard_layouts(state: EventStreamState) -> bool;

/// Whether the mirror holds the overview to be open.
pub uninterp spec fn overview_is_open(state: EventStreamState) -> bool;

/// What `event` is to this backend: the first of its three readings that
/// there is, and `Other` where there is none.
pub open spec fn event_summary(event: Event) -> NiriEventView {
    match workspaces_event(event) {
        Some(summary) => summary,
        None => match windows_event(event) {
            Some(summary) => summary,
            None => match settings_event(event) {
                Some(summary) => summary,
                None => NiriEventView::Other,
            },
        },
    }
}

/// Reads one line as an event with `serde_json::from_str`. A line that does
/// not hold an event gives `None`.
#[verifier::external_body]
fn decode_event(line: &str) -> (event: Option<Event>)
    ensures
        match event {
            Some(event) => decoded_summary(line@) == Some(event_summary(event)),
            None => decoded_summary(line@) is None,
        },
{
    serde_json::from_str::<Event>(line).ok()
}

/// Tells apart the variants of `niri_ipc::Event` that the mirror's workspaces
/// take, and takes out what this backend reads of each. A change of urgency
/// is none of them here: it touches nothing that a `Workspace` holds.
#[verifier::external_body]
fn workspaces_reading(event: &Event) -> (reading: Option<NiriEvent>)
    ensures
        reading_view(reading) == workspaces_event(*event),
{
    match event {
        Event::WorkspacesChanged { workspaces } => Some(NiriEvent::WorkspacesChanged(
            workspaces.iter().map(|w| (Workspace { id: w.id, idx: w.idx, output: w.output.clone(), is_active: w.is_active })).collect(),
        )),
        Event::WorkspaceActivated { id, .. } => Some(NiriEvent::WorkspaceActivated(*id)),
        Event::WorkspaceActiveWindowChanged { workspace_id, .. } => Some(NiriEvent::WorkspaceActiveWindowChanged(*workspace_id)),
        _ => None,
    }
}

/// Tells apart the variants of `niri_ipc::Event` that the mirror's windows
/// take, and takes out what this backend reads of each. A change of a focus
/// timestamp or of urgency is none of them here: it touches nothing that a
/// `Window` holds.
#[verifier::external_body]
fn windows_reading(event: &Event) -> (reading: Option<NiriEvent>)
    ensures
        reading_view(reading) == windows_event(*event),
{
    match event {
        Event::WindowsChanged { windows } => Some(NiriEvent::WindowsChanged(
            windows.iter().map(|w| (w.id, Window { workspace_id: w.workspace_id, is_floating: w.is_floating })).collect(),
        )),
        Event::WindowOpenedOrChanged { window: w } => Some(NiriEvent::WindowOpenedOrChanged(w.id, Window { workspace_id: w.workspace_id, is_floating: w.is_floating })),
        Event::WindowClosed { id } => Some(NiriEvent::WindowClosed(*id)),
        Event::WindowFocusChanged { .. } => Some(NiriEvent::WindowFocusChanged),
        Event::WindowLayoutsChanged { changes } => Some(NiriEvent::WindowLayoutsChanged(changes.iter().map(|c| c.0).collect())),
        _ => None,
    }
}

/// Tells apart the variants of `niri_ipc::Event` that speak of the keyboard
/// layouts, the overview or the screencasts, and takes out the identifiers
/// and the flag that they bring.
#[verifier::external_body]
fn settings_reading(event: &Event) -> (reading: Option<NiriEvent>)
    ensures
        reading_view(reading) == settings_event(*event),
{
    match event {
        Event::KeyboardLayoutsChanged { .. } => Some(NiriEvent::KeyboardLayoutsChanged),
        Event::KeyboardLayoutSwitched { .. } => Some(NiriEvent::KeyboardLayoutSwitched),
        Event::OverviewOpenedOrClosed { is_open } => Some(NiriEvent::OverviewOpenedOrClosed(*is_open)),
        Event::CastsChanged { casts } => Some(NiriEvent::CastsChanged(casts.iter().map(|c| c.stream_id).collect())),
        Event::CastStartedOrChanged { cast } => Some(NiriEvent::CastStartedOrChanged(cast.stream_id)),
        Event::CastStopped { stream_id } => Some(NiriEvent::CastStopped(*stream_id)),
        _ => None,
    }
}

/// The mirror holds a window under each of the identifiers.
pub open spec fn holds_windows(state: EventStreamState, ids: Seq<u64>) -> bool {
    forall|i: int| 0 <= i < ids.len() ==> mirrored_windows(state).contains_key(#[trigger] ids[i])
}

/// The mirror holds everything that `event` names. `EventStreamState::apply`
/// looks each of these up and panics where one is missing.
pub open spec fn applies_cleanly(state: EventStreamState, event: NiriEventView) -> bool {
    match event {
        NiriEventView::WorkspaceActivated(id) => mirrored_workspaces(state).contains_key(id),
        NiriEventView::WorkspaceActiveWindowChanged(id) => mirrored_workspaces(state).contains_key(
            id,
        ),
        NiriEventView::WindowClosed(id) => mirrored_windows(state).contains_key(id),
        NiriEventView::WindowLayoutsChanged(ids) => holds_windows(state, ids),
        NiriEventView::KeyboardLayoutSwitched => knows_keyboard_layouts(state),
        NiriEventView::CastStopped(id) => mirrored_cast_ids(state).contains(id),
        _ => true,
    }
}

/// `map` was gathered from `entries`: it holds something under each key of
/// the list and under no other, and what it holds under a key is one of the
/// values that the list has for that key. Where no key occurs twice in the
/// list, this says what the map is.
pub open spec fn gathered_from<V>(map: Map<u64, V>, entries: Seq<(u64, V)>) -> bool {
    &&& forall|i: int| 0 <= i < entries.len() ==> map.contains_key((#[trigger] entries[i]).0)
    &&& forall|key: u64| #[trigger]
        map.contains_key(key) ==> exists|i: int|
            0 <= i < entries.len() && #[trigger] entries[i] == (key, map[key])
}

/// The workspaces of a list, each with its own identifier as its key.
pub open spec fn keyed_by_id(rows: Seq<WorkspaceView>) -> Seq<(u64, WorkspaceView)> {
    rows.map_values(|row: WorkspaceView| (row.id, row))
}

/// The workspaces after the one held under `id` was activated: on the output
/// of that workspace, a workspace is active where `id` is its identifier, and
/// no other is. The workspaces of other outputs stay as they are.
pub open spec fn activated(before: Map<u64, WorkspaceView>, id: u64) -> Map<u64, WorkspaceView> {
    Map::new(
        |key: u64| before.contains_key(key),
        |key: u64|
            if before[key].output == before[id].output {
                WorkspaceView { is_active: before[key].id == id, ..before[key] }
            } else {
                before[key]
            },
    )
}

/// What the mirror holds of the workspaces once `event` is applied.
pub open spec fn workspaces_follow(
    before: Map<u64, WorkspaceView>,
    event: NiriEventView,
    after: Map<u64, WorkspaceView>,
) -> bool {
    match event {
        NiriEventView::WorkspacesChanged(rows) => gathered_from(after, keyed_by_id(rows)),
        NiriEventView::WorkspaceActivated(id) => after == activated(before, id),
        _ => after == before,
    }
}

/// What the mirror holds of the windows once `event` is applied.
pub open spec fn windows_follow(
    before: Map<u64, Window>,
    event: NiriEventView,
    after: Map<u64, Window>,
) -> bool {
    match event {
        NiriEventView::WindowsChanged(entries) => gathered_from(after, entries),
        NiriEventView::WindowOpenedOrChanged(id, window) => after == before.insert(id, window),
        NiriEventView::WindowClosed(id) => after == before.remove(id),
        _ => after == before,
    }
}

/// The stream identifiers that the mirror holds once `event` is applied.
pub open spec fn casts_after(before: Set<u64>, event: NiriEventView) -> Set<u64> {
    match event {
        NiriEventView::CastsChanged(ids) => ids.to_set(),
        NiriEventView::CastStartedOrChanged(id) => before.insert(id),
        NiriEventView::CastStopped(id) => before.remove(id),
        _ => before,
    }
}

/// Whether the overview is open once `event` is applied.
pub open spec fn overview_after(before: bool, event: NiriEventView) -> bool {
    match event {
        NiriEventView::OverviewOpenedOrClosed(is_open) => is_open,
        _ => before,
    }
}

/// The mirror `after` is the mirror `before` with `event` applied, as far as
/// this backend reads the mirror.
pub open spec fn applied(
    before: EventStreamState,
    after: EventStreamState,
    event: NiriEventView,
) -> bool {
    &&& workspaces_follow(mirrored_workspaces(before), event, mirrored_workspaces(after))
    &&& windows_follow(mirrored_windows(before), event, mirrored_windows(after))
    &&& mirrored_cast_ids(after) == casts_after(mirrored_cast_ids(before), event)
    &&& overview_is_open(after) == overview_after(overview_is_open(before), event)
    &&& knows_keyboard_layouts(after) == (event is KeyboardLayoutsChanged
        || knows_keyboard_layouts(before))
}

/// Applies `event` to the mirror with `EventStreamState::apply`, which
/// returns for every event that names only what the mirror holds. Each part
/// of the mirror takes the events that are its own and leaves the others: a
/// full list replaces what was held, each item under its identifier; an
/// opened window is put under its identifier and a closed one taken out; an
/// activation moves the active mark on the output of the activated
/// workspace; the overview is as the event says.
#[verifier::external_body]
fn apply(state: &mut EventStreamState, event: Event)
    requires
        applies_cleanly(*old(state), event_summary(event)),
    ensures
        applied(*old(state), *final(state), event_summary(event)),
{
    let _ = niri_ipc::state::EventStreamStatePart::apply(state, event);
}

/// Looks a workspace up in the mirror by the key that it is held under.
#[verifier::external_body]
fn has_workspace(state: &EventStreamState, id: u64) -> (held: bool)
    ensures
        held == mirrored_workspaces(*state).contains_key(id),
{
    state.workspaces.workspaces.contains_key(&id)
}

/// Looks a window up in the mirror by the key that it is held under.
#[verifier::external_body]
fn has_window(state: &EventStreamState, id: u64) -> (held: bool)
    ensures
        held == mirrored_windows(*state).contains_key(id),
{
    state.windows.windows.contains_key(&id)
}

/// Looks a screencast up in the mirror by its stream identifier.
#[verifier::external_body]
fn has_cast(state: &EventStreamState, stream_id: u64) -> (held: bool)
    ensures
        held == mirrored_cast_ids(*state).contains(stream_id),
{
    state.casts.casts.contains_key(&stream_id)
}

/// Reads from the mirror whether the keyboard layouts are known.
#[verifier::external_body]
fn keyboard_layouts_known(state: &EventStreamState) -> (known: bool)
    ensures
        known == knows_keyboard_layouts(*state),
{
    state.keyboard_layouts.keyboard_layouts.is_some()
}

/// Reads from the mirror whether the overview is open.
#[verifier::external_body]
fn overview_open(state: &EventStreamState) -> (open: bool)
    ensures
        open == overview_is_open(*state),
{
    state.overview.is_open
}

/// No key comes twice in `entries`.
pub open spec fn keys_differ<V>(entries: Seq<(u64, V)>) -> bool {
    forall|i: int, j: int|
        0 <= i < j < entries.len() ==> (#[trigger] entries[i]).0 != (#[trigger] entries[j]).0
}

/// `entries` walks `map`: each entry is held by the map, no key comes twice,
/// and every key of the map comes.
pub open spec fn walks<V>(entries: Seq<(u64, V)>, map: Map<u64, V>) -> bool {
    &&& forall|i: int|
        0 <= i < entries.len() ==> map.contains_pair((#[trigger] entries[i]).0, entries[i].1)
    &&& keys_differ(entries)
    &&& forall|key: u64| #[trigger]
        map.contains_key(key) ==> exists|i: int|
            0 <= i < entries.len() && (#[trigger] entries[i]).0 == key
}

/// The entries of a list, each workspace as what it holds.
pub open spec fn entry_views(entries: Seq<(u64, Workspace)>) -> Seq<(u64, WorkspaceView)> {
    entries.map_values(|entry: (u64, Workspace)| (entry.0, entry.1@))
}

/// The values of a list of entries, without their keys.
pub open spec fn values_of<V>(entries: Seq<(u64, V)>) -> Seq<V> {
    entries.map_values(|entry: (u64, V)| entry.1)
}

/// Hands out the workspaces of the mirror with their keys, each once, in the
/// order in which the mirror's map is walked.
#[verifier::external_body]
fn workspaces_of(state: &EventStreamState) -> (entries: Vec<(u64, Workspace)>)
    ensures
        walks(entry_views(entries@), mirrored_workspaces(*state)),
{
    state.workspaces.workspaces.iter().map(|(key, w)| (*key, Workspace {
        id: w.id,
        idx: w.idx,
        output: w.output.clone(),
        is_active: w.is_active,
    })).collect()
}

/// Hands out the windows of the mirror with their keys, each once, in the
/// order in which the mirror's map is walked.
#[verifier::external_body]
fn windows_of(state: &EventStreamState) -> (entries: Vec<(u64, Window)>)
    ensures
        walks(entries@, mirrored_windows(*state)),
{
    state.windows.windows.iter().map(|(key, w)| (*key, Window {
        workspace_id: w.workspace_id,
        is_floating: w.is_floating,
    })).collect()
}

/// Writes the request for the compositor's events with
/// `serde_json::to_string`. The request is a variant without fields, which the
/// encoder writes as its name between double quotes; it writes into memory,
/// which takes every byte, so that there is always a text.
#[verifier::external_body]
fn encode_event_stream_request() -> (text: Option<String>)
    ensures
        text matches Some(text) && text@ == "\"EventStream\""@,
{
    serde_json::to_string(&niri_ipc::Request::EventStream).ok()
}

/// Reads one line as the answer to a request with `serde_json::from_str`, and
/// tells apart what came.
#[verifier::external_body]
fn decode_reply(line: &str) -> (reply: HandshakeReply)
    ensures
        reply == decoded_reply(line@),
{
    match serde_json::from_str::<niri_ipc::Reply>(line) {
        Ok(Ok(niri_ipc::Response::Handled)) => HandshakeReply::Handled,
        Ok(Ok(_)) => HandshakeReply::Unexpected,
        Ok(Err(_)) => HandshakeReply::Refused,
        Err(_) => HandshakeReply::Malformed,
    }
}

/// Some window lies on the workspace `id`.
pub open spec fn has_window_on(windows: Seq<Window>, id: u64) -> bool {
    exists|i: int| 0 <= i < windows.len() && #[trigger] windows[i].workspace_id == Some(id)
}

/// Every window on the workspace `id` floats.
pub open spec fn floats_only_on(windows: Seq<Window>, id: u64) -> bool {
    forall|i: int|
        0 <= i < windows.len() && #[trigger] windows[i].workspace_id == Some(id)
            ==> windows[i].is_floating
}

/// What the bar shows of one workspace of the mirror.
pub open spec fn workspace_info(
    workspace: WorkspaceView,
    windows: Seq<Window>,
    overview_open: bool,
) -> WorkspaceInfoView {
    let has_windows = has_window_on(windows, workspace.id);
    WorkspaceInfoView {
        output: workspace.output,
        id: (workspace.id as i64) as int,
        idx: workspace.idx as int,
        is_active: workspace.is_active,
        has_windows,
        transparent_bar: !has_windows || overview_open || floats_only_on(windows, workspace.id),
    }
}

/// `info` shows the workspace as it is: its output, its identifier, its
/// place and whether it is active.
pub open spec fn shows_workspace(info: WorkspaceInfoView, workspace: WorkspaceView) -> bool {
    &&& info.output == workspace.output
    &&& info.id == (workspace.id as i64) as int
    &&& info.idx == workspace.idx as int
    &&& info.is_active == workspace.is_active
}

/// Some item of `infos` shows the workspace as it is.
pub open spec fn shown_in(infos: Seq<WorkspaceInfoView>, workspace: WorkspaceView) -> bool {
    exists|j: int| 0 <= j < infos.len() && shows_workspace(#[trigger] infos[j], workspace)
}

/// `infos` describes the workspaces one by one, in their order.
pub open spec fn describes_workspaces(
    infos: Seq<WorkspaceInfoView>,
    workspaces: Seq<WorkspaceView>,
    windows: Seq<Window>,
    overview_open: bool,
) -> bool {
    &&& infos.len() == workspaces.len()
    &&& forall|i: int|
        0 <= i < infos.len() ==> #[trigger] infos[i] == workspace_info(
            workspaces[i],
            windows,
            overview_open,
        )
}

/// `infos` describes the workspaces of the mirror, each once, in some order.
pub open spec fn describes_mirror(infos: Seq<WorkspaceInfoView>, state: EventStreamState) -> bool {
    exists|workspaces: Seq<(u64, WorkspaceView)>, windows: Seq<(u64, Window)>|
        {
            &&& walks(workspaces, mirrored_workspaces(state))
            &&& walks(windows, mirrored_windows(state))
            &&& #[trigger] describes_workspaces(
                infos,
                values_of(workspaces),
                values_of(windows),
                overview_is_open(state),
            )
        }
}

/// The list of workspaces is computed again after an event of this kind.
pub open spec fn changes_workspaces(event: NiriEventView) -> bool {
    match event {
        NiriEventView::WorkspacesChanged(_) => true,
        NiriEventView::WorkspaceActivated(_) => true,
        NiriEventView::WorkspaceActiveWindowChanged(_) => true,
        NiriEventView::WindowOpenedOrChanged(_, _) => true,
        NiriEventView::WindowFocusChanged => true,
        NiriEventView::WindowClosed(_) => true,
        NiriEventView::OverviewOpenedOrClosed(_) => true,
        _ => false,
    }
}

/// Tells what `event` is to this backend.
pub fn summarize(event: &Event) -> (summary: NiriEvent)
    ensures
        summary@ == event_summary(*event),
{
    match workspaces_reading(event) {
        Some(summary) => summary,
        None => match windows_reading(event) {
            Some(summary) => summary,
            None => match settings_reading(event) {
                Some(summary) => summary,
                None => NiriEvent::Other,
            },
        },
    }
}

/// Tells whether some window lies on the workspace `id`.
fn any_window_on(windows: &Vec<Window>, id: u64) -> (any: bool)
    ensures
        any == has_window_on(windows@, id),
{
    let mut i: usize = 0;
    while i < windows.len()
        invariant
            i <= windows@.len(),
            forall|j: int| 0 <= j < i ==> windows@[j].workspace_id != Some(id),
        decreases windows@.len() - i,
    {
        match windows[i].workspace_id {
            Some(on) => {
                if on == id {
                    return true;
                }
            },
            None => {},
        }
        i += 1;
    }
    false
}

/// Tells whether every window on the workspace `id` floats.
fn only_floating_on(windows: &Vec<Window>, id: u64) -> (all: bool)
    ensures
        all == floats_only_on(windows@, id),
{
    let mut i: usize = 0;
    while i < windows.len()
        invariant
            i <= windows@.len(),
            forall|j: int|
                0 <= j < i && #[trigger] windows@[j].workspace_id == Some(id)
                    ==> windows@[j].is_floating,
        decreases windows@.len() - i,
    {
        match windows[i].workspace_id {
            Some(on) => {
                if on == id && !windows[i].is_floating {
                    return false;
                }
            },
            None => {},
        }
        i += 1;
    }
    true
}

/// Describes the workspaces one by one: a workspace has windows where some
/// window lies on it, and the bar above it is transparent where it has none,
/// where the overview is open, or where all its windows float.
pub fn workspace_infos(
    workspaces: &Vec<Workspace>,
    windows: &Vec<Window>,
    overview_open: bool,
) -> (infos: Vec<WorkspaceInfo>)
    ensures
        describes_workspaces(
            info_views(infos@),
            workspace_views(workspaces@),
            windows@,
            overview_open,
        ),
{
    let mut infos: Vec<WorkspaceInfo> = Vec::new();
    let mut i: usize = 0;
    while i < workspaces.len()
        invariant
            i <= workspaces@.len(),
            describes_workspaces(
                info_views(infos@),
                workspace_views(workspaces@).take(i as int),
                windows@,
                overview_open,
            ),
        decreases workspaces@.len() - i,
    {
        let w = &workspaces[i];
        let has_windows = any_window_on(windows, w.id);
        let info = WorkspaceInfo {
            output: clone_name(&w.output),
            id: #[verifier::truncate]
            (w.id as WorkspaceId),
            idx: w.idx as i32,
            is_active: w.is_active,
            has_windows,
            transparent_bar: !has_windows || overview_open || only_floating_on(windows, w.id),
        };
        let ghost before = info_views(infos@);
        infos.push(info);
        assert(info_views(infos@) == before.push(info@));
        i += 1;
    }
    assert(workspace_views(workspaces@).take(workspaces@.len() as int) == workspace_views(
        workspaces@,
    ));
    infos
}

/// The workspaces of a list of entries, without their keys.
fn workspace_rows(entries: &Vec<(u64, Workspace)>) -> (rows: Vec<Workspace>)
    ensures
        workspace_views(rows@) == values_of(entry_views(entries@)),
{
    let mut rows: Vec<Workspace> = Vec::new();
    let mut i: usize = 0;
    while i < entries.len()
        invariant
            i <= entries@.len(),
            rows@.len() == i,
            forall|j: int| 0 <= j < i ==> (#[trigger] rows@[j])@ == entries@[j].1@,
        decreases entries@.len() - i,
    {
        let w = &entries[i].1;
        rows.push(
            Workspace {
                id: w.id,
                idx: w.idx,
                output: clone_name(&w.output),
                is_active: w.is_active,
            },
        );
        i += 1;
    }
    assert(workspace_views(rows@) =~= values_of(entry_views(entries@)));
    rows
}

/// The windows of a list of entries, without their keys.
fn window_rows(entries: &Vec<(u64, Window)>) -> (rows: Vec<Window>)
    ensures
        rows@ == values_of(entries@),
{
    let mut rows: Vec<Window> = Vec::new();
    let mut i: usize = 0;
    while i < entries.len()
        invariant
            i <= entries@.len(),
            rows@.len() == i,
            forall|j: int| 0 <= j < i ==> #[trigger] rows@[j] == entries@[j].1,
        decreases entries@.len() - i,
    {
        rows.push(entries[i].1);
        i += 1;
    }
    assert(rows@ =~= values_of(entries@));
    rows
}

/// Computes the list of workspaces from the mirror. The workspaces come in
/// the order in which the mirror hands them out.
pub fn make_workspace_infos(state: &EventStreamState) -> (infos: Vec<WorkspaceInfo>)
    ensures
        describes_mirror(info_views(infos@), *state),
{
    let workspaces = workspaces_of(state);
    let windows = windows_of(state);
    let infos = workspace_infos(
        &workspace_rows(&workspaces),
        &window_rows(&windows),
        overview_open(state),
    );
    assert(describes_workspaces(
        info_views(infos@),
        values_of(entry_views(workspaces@)),
        values_of(windows@),
        overview_is_open(*state),
    ));
    infos
}

/// Tells whether the list of workspaces is to be computed again after `event`.
pub fn is_relevant(event: &NiriEvent) -> (relevant: bool)
    ensures
        relevant == changes_workspaces(event@),
{
    match event {
        NiriEvent::WorkspacesChanged(_) => true,
        NiriEvent::WorkspaceActivated(_) => true,
        NiriEvent::WorkspaceActiveWindowChanged(_) => true,
        NiriEvent::WindowOpenedOrChanged(_, _) => true,
        NiriEvent::WindowFocusChanged => true,
        NiriEvent::WindowClosed(_) => true,
        NiriEvent::OverviewOpenedOrClosed(_) => true,
        _ => false,
    }
}

/// Tells whether the mirror holds a window under each of the identifiers.
fn has_windows(state: &EventStreamState, ids: &Vec<u64>) -> (all: bool)
    ensures
        all == holds_windows(*state, ids@),
{
    let mut i: usize = 0;
    while i < ids.len()
        invariant
            i <= ids@.len(),
            forall|j: int|
                0 <= j < i ==> mirrored_windows(*state).contains_key(#[trigger] ids@[j]),
        decreases ids@.len() - i,
    {
        if !has_window(state, ids[i]) {
            return false;
        }
        i += 1;
    }
    true
}

/// Tells whether the mirror holds everything that `event` names.
fn can_apply(state: &EventStreamState, event: &NiriEvent) -> (ok: bool)
    ensures
        ok == applies_cleanly(*state, event@),
{
    match event {
        NiriEvent::WorkspaceActivated(id) => has_workspace(state, *id),
        NiriEvent::WorkspaceActiveWindowChanged(id) => has_workspace(state, *id),
        NiriEvent::WindowClosed(id) => has_window(state, *id),
        NiriEvent::WindowLayoutsChanged(ids) => has_windows(state, ids),
        NiriEvent::KeyboardLayoutSwitched => keyboard_layouts_known(state),
        NiriEvent::CastStopped(id) => has_cast(state, *id),
        _ => true,
    }
}

/// What `on_event` owes for an event that is `summary` to this backend: where
/// the mirror holds what the event names, the mirror afterwards is the mirror
/// with the event applied, and there is a list exactly after the kinds that
/// may change it, which describes the mirror as it then is. Otherwise the
/// mirror stays as it was and there is no list.
pub open spec fn event_outcome(
    before: EventStreamState,
    after: EventStreamState,
    summary: NiriEventView,
    infos: Option<Vec<WorkspaceInfo>>,
) -> bool {
    if applies_cleanly(before, summary) {
        &&& applied(before, after, summary)
        &&& match infos {
            Some(list) => changes_workspaces(summary) && describes_mirror(info_views(list@), after),
            None => !changes_workspaces(summary),
        }
    } else {
        infos is None && after == before
    }
}

/// A map gathered from a list in which no key comes twice holds the entries
/// of the list and nothing else: the list walks it.
pub proof fn lemma_gathered_without_repeats<V>(map: Map<u64, V>, entries: Seq<(u64, V)>)
    requires
        gathered_from(map, entries),
        keys_differ(entries),
    ensures
        walks(entries, map),
{
    assert forall|i: int| 0 <= i < entries.len() implies map.contains_pair(
        (#[trigger] entries[i]).0,
        entries[i].1,
    ) by {
        let key = entries[i].0;
        assert(map.contains_key(key));
        let j = choose|j: int| 0 <= j < entries.len() && #[trigger] entries[j] == (key, map[key]);
        if i < j {
            assert(entries[i].0 != entries[j].0);
        }
        if j < i {
            assert(entries[j].0 != entries[i].0);
        }
    }
    assert forall|key: u64| #[trigger] map.contains_key(key) implies exists|i: int|
        0 <= i < entries.len() && (#[trigger] entries[i]).0 == key by {
        let j = choose|j: int| 0 <= j < entries.len() && #[trigger] entries[j] == (key, map[key]);
        assert(entries[j].0 == key);
    }
}

/// Two lists that walk one map have one length, and each entry of the one is
/// an entry of the other.
pub proof fn lemma_walks_agree<V>(first: Seq<(u64, V)>, second: Seq<(u64, V)>, map: Map<u64, V>)
    requires
        walks(first, map),
        walks(second, map),
    ensures
        first.len() == second.len(),
        forall|i: int| 0 <= i < first.len() ==> second.contains(#[trigger] first[i]),
{
    assert forall|i: int| 0 <= i < first.len() implies second.contains(#[trigger] first[i]) by {
        let key = first[i].0;
        assert(map.contains_pair(key, first[i].1));
        let j = choose|j: int| 0 <= j < second.len() && (#[trigger] second[j]).0 == key;
        assert(map.contains_pair(second[j].0, second[j].1));
        assert(second[j] == first[i]);
    }
    lemma_walk_holds_each_once(first, map);
    lemma_walk_holds_each_once(second, map);
    first.unique_seq_to_set();
    second.unique_seq_to_set();
}

/// A list that walks a map holds no entry twice, and holds the pairs of the
/// map.
proof fn lemma_walk_holds_each_once<V>(entries: Seq<(u64, V)>, map: Map<u64, V>)
    requires
        walks(entries, map),
    ensures
        entries.no_duplicates(),
        entries.to_set() == map.kv_pairs(),
{
    assert forall|i: int, j: int|
        0 <= i < entries.len() && 0 <= j < entries.len() && i != j implies entries[i]
        != entries[j] by {
        if i < j {
            assert(entries[i].0 != entries[j].0);
        } else {
            assert(entries[j].0 != entries[i].0);
        }
    }
    assert forall|pair: (u64, V)| entries.to_set().contains(pair) <==> map.kv_pairs().contains(
        pair,
    ) by {
        if entries.to_set().contains(pair) {
            let i = choose|i: int| 0 <= i < entries.len() && entries[i] == pair;
            assert(map.contains_pair(entries[i].0, entries[i].1));
        }
        if map.kv_pairs().contains(pair) {
            assert(map.contains_key(pair.0));
            let i = choose|i: int| 0 <= i < entries.len() && (#[trigger] entries[i]).0 == pair.0;
            assert(map.contains_pair(entries[i].0, entries[i].1));
            assert(entries[i] == pair);
        }
    }
    assert(entries.to_set() =~= map.kv_pairs());
}

/// Two lists of windows that hold the same windows agree on whether a
/// workspace has windows, and on whether all its windows float.
proof fn lemma_same_windows(first: Seq<(u64, Window)>, second: Seq<(u64, Window)>, id: u64)
    requires
        forall|i: int| 0 <= i < first.len() ==> second.contains(#[trigger] first[i]),
        forall|i: int| 0 <= i < second.len() ==> first.contains(#[trigger] second[i]),
    ensures
        has_window_on(values_of(first), id) == has_window_on(values_of(second), id),
        floats_only_on(values_of(first), id) == floats_only_on(values_of(second), id),
{
    lemma_held_windows(first, second, id);
    lemma_held_windows(second, first, id);
}

/// What one list of windows shows of a workspace, a list that holds the same
/// windows shows too.
proof fn lemma_held_windows(first: Seq<(u64, Window)>, second: Seq<(u64, Window)>, id: u64)
    requires
        forall|i: int| 0 <= i < first.len() ==> second.contains(#[trigger] first[i]),
    ensures
        has_window_on(values_of(first), id) ==> has_window_on(values_of(second), id),
        floats_only_on(values_of(second), id) ==> floats_only_on(values_of(first), id),
{
    if has_window_on(values_of(first), id) {
        let i = choose|i: int|
            0 <= i < values_of(first).len() && #[trigger] values_of(first)[i].workspace_id == Some(
                id,
            );
        assert(second.contains(first[i]));
        let j = choose|j: int| 0 <= j < second.len() && second[j] == first[i];
        assert(values_of(second)[j].workspace_id == Some(id));
    }
    if floats_only_on(values_of(second), id) {
        assert forall|i: int|
            0 <= i < values_of(first).len() && #[trigger] values_of(first)[i].workspace_id == Some(
                id,
            ) implies values_of(first)[i].is_floating by {
            assert(second.contains(first[i]));
            let j = choose|j: int| 0 <= j < second.len() && second[j] == first[i];
            assert(values_of(second)[j].workspace_id == Some(id));
        }
    }
}

/// The mirror fixes its list of workspaces but for the order: two lists that
/// describe one mirror have one length, and each item of the one is an item
/// of the other.
pub proof fn lemma_descriptions_agree(
    first: Seq<WorkspaceInfoView>,
    second: Seq<WorkspaceInfoView>,
    state: EventStreamState,
)
    requires
        describes_mirror(first, state),
        describes_mirror(second, state),
    ensures
        first.len() == second.len(),
        forall|i: int| 0 <= i < first.len() ==> second.contains(#[trigger] first[i]),
{
    let open = overview_is_open(state);
    let (rows, windows): (Seq<(u64, WorkspaceView)>, Seq<(u64, Window)>) = choose|
        rows: Seq<(u64, WorkspaceView)>,
        windows: Seq<(u64, Window)>,
    |
        {
            &&& walks(rows, mirrored_workspaces(state))
            &&& walks(windows, mirrored_windows(state))
            &&& #[trigger] describes_workspaces(first, values_of(rows), values_of(windows), open)
        };
    let (other_rows, other_windows): (Seq<(u64, WorkspaceView)>, Seq<(u64, Window)>) = choose|
        rows: Seq<(u64, WorkspaceView)>,
        windows: Seq<(u64, Window)>,
    |
        {
            &&& walks(rows, mirrored_workspaces(state))
            &&& walks(windows, mirrored_windows(state))
            &&& #[trigger] describes_workspaces(second, values_of(rows), values_of(windows), open)
        };
    lemma_walks_agree(rows, other_rows, mirrored_workspaces(state));
    lemma_walks_agree(windows, other_windows, mirrored_windows(state));
    lemma_walks_agree(other_windows, windows, mirrored_windows(state));
    assert forall|i: int| 0 <= i < first.len() implies second.contains(#[trigger] first[i]) by {
        assert(other_rows.contains(rows[i]));
        let j = choose|j: int| 0 <= j < other_rows.len() && other_rows[j] == rows[i];
        lemma_same_windows(windows, other_windows, rows[i].1.id);
        assert(values_of(other_rows)[j] == values_of(rows)[i]);
        assert(second[j] == first[i]);
    }
}

/// After a new list of workspaces in which no identifier comes twice, the
/// list that describes the mirror has one item for each workspace of the new
/// list, which shows the workspace as the new list has it.
pub proof fn lemma_new_workspaces_are_shown(
    before: EventStreamState,
    after: EventStreamState,
    rows: Seq<WorkspaceView>,
    infos: Seq<WorkspaceInfoView>,
)
    requires
        applied(before, after, NiriEventView::WorkspacesChanged(rows)),
        keys_differ(keyed_by_id(rows)),
        describes_mirror(infos, after),
    ensures
        infos.len() == rows.len(),
        forall|i: int| 0 <= i < rows.len() ==> shown_in(infos, #[trigger] rows[i]),
{
    let held = mirrored_workspaces(after);
    lemma_gathered_without_repeats(held, keyed_by_id(rows));
    let (workspaces, windows): (Seq<(u64, WorkspaceView)>, Seq<(u64, Window)>) = choose|
        workspaces: Seq<(u64, WorkspaceView)>,
        windows: Seq<(u64, Window)>,
    |
        {
            &&& walks(workspaces, held)
            &&& walks(windows, mirrored_windows(after))
            &&& #[trigger] describes_workspaces(
                infos,
                values_of(workspaces),
                values_of(windows),
                overview_is_open(after),
            )
        };
    lemma_walks_agree(keyed_by_id(rows), workspaces, held);
    assert forall|i: int| 0 <= i < rows.len() implies shown_in(infos, #[trigger] rows[i]) by {
        assert(workspaces.contains(keyed_by_id(rows)[i]));
        let j = choose|j: int| 0 <= j < workspaces.len() && workspaces[j] == keyed_by_id(rows)[i];
        assert(values_of(workspaces)[j] == rows[i]);
        assert(infos[j] == workspace_info(
            values_of(workspaces)[j],
            values_of(windows),
            overview_is_open(after),
        ));
        assert(shows_workspace(infos[j], rows[i]));
    }
}

/// After an event for which no list is computed, and which is not a new list
/// of windows, a list that described the mirror before still describes it:
/// such an event changes nothing that the list is computed from.
pub proof fn lemma_event_without_list_keeps_it(
    before: EventStreamState,
    after: EventStreamState,
    event: NiriEventView,
    infos: Seq<WorkspaceInfoView>,
)
    requires
        applied(before, after, event),
        !changes_workspaces(event),
        !(event is WindowsChanged),
        describes_mirror(infos, before),
    ensures
        describes_mirror(infos, after),
{
    assert(mirrored_workspaces(after) == mirrored_workspaces(before));
    assert(mirrored_windows(after) == mirrored_windows(before));
    assert(overview_is_open(after) == overview_is_open(before));
}

/// Once a window is closed the mirror no longer holds it, and holds every
/// other window as before.
pub proof fn lemma_closed_window_is_gone(
    before: EventStreamState,
    after: EventStreamState,
    id: u64,
)
    requires
        applied(before, after, NiriEventView::WindowClosed(id)),
    ensures
        !mirrored_windows(after).contains_key(id),
        forall|other: u64|
            other != id ==> (mirrored_windows(after).contains_key(other) <==> mirrored_windows(
                before,
            ).contains_key(other)),
        forall|other: u64|
            other != id && mirrored_windows(before).contains_key(other) ==> mirrored_windows(
                after,
            )[other] == mirrored_windows(before)[other],
        mirrored_workspaces(after) == mirrored_workspaces(before),
        overview_is_open(after) == overview_is_open(before),
{
}

/// Takes one event of the compositor: applies it to the mirror and, where it
/// may have changed what the bar shows, computes the list of workspaces from
/// the mirror. An event that names something which the mirror does not hold
/// is passed over, and the mirror stays as it was.
pub fn on_event(state: &mut EventStreamState, event: Event) -> (infos: Option<Vec<WorkspaceInfo>>)
    ensures
        event_outcome(*old(state), *final(state), event_summary(event), infos),
{
    let summary = summarize(&event);
    if !can_apply(state, &summary) {
        return None;
    }
    apply(state, event);
    if is_relevant(&summary) {
        Some(make_workspace_infos(state))
    } else {
        None
    }
}

/// Takes one line of the compositor's event stream. A line that holds no
/// event is dropped: the mirror stays as it was. Any other line is taken as
/// `on_event` takes its event.
pub fn on_line(state: &mut EventStreamState, line: &str) -> (infos: Option<Vec<WorkspaceInfo>>)
    ensures
        match decoded_summary(line@) {
            Some(summary) => event_outcome(*old(state), *final(state), summary, infos),
            None => infos is None && *final(state) == *old(state),
        },
{
    match decode_event(line) {
        Some(event) => on_event(state, event),
        None => None,
    }
}

/// The line that asks the compositor for its events: the request, then a line
/// feed. There is always such a line.
pub fn event_stream_request() -> (line: Option<String>)
    ensures
        line matches Some(line) && line@ == "\"EventStream\""@ + "\n"@,
{
    request_line(encode_event_stream_request())
}

/// What is sent for an encoded request: the request, then a line feed, and
/// nothing where there is no request.
pub open spec fn line_of(encoded: Option<String>) -> Option<Seq<char>> {
    match encoded {
        Some(text) => Some(text@ + "\n"@),
        None => None,
    }
}

/// Ends an encoded request with a line feed, as the compositor reads its
/// requests one line each. There is no line where there is no request.
pub fn request_line(encoded: Option<String>) -> (line: Option<String>)
    ensures
        match line {
            Some(line) => line_of(encoded) == Some(line@),
            None => line_of(encoded) is None,
        },
{
    match encoded {
        Some(text) => Some(text.concat("\n")),
        None => None,
    }
}

/// Tells whether the compositor's answer opens the event stream: only the
/// acknowledgement that the request was handled does.
pub fn reply_opens_stream(line: &str) -> (opens: bool)
    ensures
        opens == (decoded_reply(line@) == HandshakeReply::Handled),
{
    match decode_reply(line) {
        HandshakeReply::Handled => true,
        _ => false,
    }
}

} // verus!
