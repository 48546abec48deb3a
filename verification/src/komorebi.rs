//! The client of komorebi: its wire format and the state read from it.

use vstd::prelude::*;
use vstd::string::*;
use crate::json::{text_json, Json, JsonValue};
use crate::komorebi::client::{
    KMonitor, KMonitorView, KSocketMessage, KSocketMessageView, KState, KStateView, KWorkspace,
    KWorkspaceView,
};
use crate::komorebi::wire::{knotification_of, kstate_of, option_view, KNotification};
use crate::state::{
    monitor_views, workspace_views, Monitor, MonitorView, Rect, State, StateView, Workspace,
    WorkspaceView,
};
use crate::text::{decimal, decimal_string};

pub mod client;
pub mod event;
pub mod listener;
pub mod wire;

verus! {

/// The name of a workspace: its own where it has one, else its position,
/// counted from one.
pub open spec fn workspace_name(name: Option<Seq<char>>, idx: usize) -> Seq<char> {
    match name {
        Some(name) => name,
        None => decimal((idx + 1) as nat),
    }
}

/// The workspace at position `idx` of a monitor whose focused position is
/// `focused`.
pub open spec fn workspace_of(w: KWorkspaceView, idx: usize, focused: usize) -> WorkspaceView {
    WorkspaceView {
        name: workspace_name(w.name, idx),
        index: idx,
        focused: idx == focused,
        is_empty: w.is_empty(),
    }
}

/// The workspaces of a monitor, each at its position.
pub open spec fn workspaces_of(ws: Seq<KWorkspaceView>, focused: usize) -> Seq<WorkspaceView> {
    Seq::new(ws.len(), |i: int| workspace_of(ws[i], i as usize, focused))
}

/// The identity of a monitor: the serial number of the display where komorebi
/// knows it, else the identifier of the device, else the monitor's name. None
/// of them depends on the monitor's place in the list.
pub open spec fn monitor_id(m: KMonitorView) -> Seq<char> {
    match m.serial_number_id {
        Some(id) => id,
        None => match m.device_id {
            Some(id) => id,
            None => m.name,
        },
    }
}

/// The monitor at position `index` of the list.
pub open spec fn monitor_of(m: KMonitorView, index: usize) -> MonitorView {
    MonitorView {
        name: m.name,
        index,
        id: monitor_id(m),
        workspaces: workspaces_of(m.workspaces.elements, m.workspaces.focused),
        rect: Rect { left: m.size.left, top: m.size.top, right: m.size.right, bottom: m.size.bottom },
    }
}

/// The snapshot that komorebi's state amounts to.
pub open spec fn state_of(k: KStateView) -> StateView {
    StateView {
        monitors: Seq::new(
            k.monitors.elements.len(),
            |i: int| monitor_of(k.monitors.elements[i], i as usize),
        ),
    }
}

/// The identity of a monitor does not depend on its place in the list, so
/// that it stays when komorebi reorders its monitors.
pub proof fn lemma_identity_ignores_position(m: KMonitorView, i: usize, j: usize)
    ensures
        monitor_of(m, i).id == monitor_of(m, j).id,
{
}

/// In a monitor of komorebi each workspace has its position as its index,
/// and at most one workspace has the focus: the one at the focused position.
pub proof fn lemma_one_focus(m: KMonitorView, index: usize)
    requires
        m.workspaces.elements.len() <= usize::MAX,
    ensures
        forall|i: int|
            0 <= i < monitor_of(m, index).workspaces.len() ==> (#[trigger] monitor_of(
                m,
                index,
            ).workspaces[i]).index == i,
        forall|i: int, j: int|
            0 <= i < monitor_of(m, index).workspaces.len() && 0 <= j < monitor_of(
                m,
                index,
            ).workspaces.len() && (#[trigger] monitor_of(m, index).workspaces[i]).focused
                && (#[trigger] monitor_of(m, index).workspaces[j]).focused ==> i == j,
{
}

/// The workspaces of a ring, each at its position.
fn workspaces_from(elements: &Vec<KWorkspace>, focused: usize) -> (r: Vec<Workspace>)
    ensures
        workspace_views(r@) == workspaces_of(client::kworkspace_views(elements@), focused),
{
    let mut out: Vec<Workspace> = Vec::new();
    let n: usize = elements.len();
    let mut idx: usize = 0;
    while idx < n
        invariant
            0 <= idx <= n,
            n == elements@.len(),
            out@.len() == idx,
            forall|k: int| 0 <= k < idx ==> out@[k]@ == workspace_of(elements@[k]@, k as usize, focused),
        decreases n - idx,
    {
        let w = &elements[idx];
        let name = match &w.name {
            Some(name) => name.clone(),
            None => decimal_string((idx + 1) as u128),
        };
        out.push(Workspace { name, index: idx, focused: idx == focused, is_empty: w.is_empty() });
        idx = idx + 1;
    }
    assert(workspace_views(out@) =~= workspaces_of(client::kworkspace_views(elements@), focused));
    out
}

impl Monitor {
    /// The monitor that komorebi describes, at position `index` of its list.
    pub fn from(monitor: KMonitor, index: usize) -> (r: Monitor)
        ensures
            r@ == monitor_of(monitor@, index),
    {
        let workspaces = workspaces_from(&monitor.workspaces.elements, monitor.workspaces.focused);
        let rect = Rect {
            left: monitor.size.left,
            top: monitor.size.top,
            right: monitor.size.right,
            bottom: monitor.size.bottom,
        };
        let id = match monitor.serial_number_id {
            Some(id) => id,
            None => match monitor.device_id {
                Some(id) => id,
                None => monitor.name.clone(),
            },
        };
        Monitor { name: monitor.name, index, id, workspaces, rect }
    }
}

impl State {
    /// The snapshot that komorebi's state amounts to: its monitors in their
    /// order, each with its workspaces in theirs.
    pub fn from(state: KState) -> (r: State)
        ensures
            r@ == state_of(state@),
    {
        let ghost k = state@;
        let mut elements = state.monitors.elements;
        let n: usize = elements.len();
        let mut reversed: Vec<Monitor> = Vec::new();
        let mut left: usize = n;
        while left > 0
            invariant
                0 <= left <= n,
                n == k.monitors.elements.len(),
                elements@.len() == left,
                forall|i: int| 0 <= i < left ==> elements@[i]@ == k.monitors.elements[i],
                reversed@.len() == n - left,
                forall|i: int|
                    0 <= i < n - left ==> reversed@[i]@ == monitor_of(
                        k.monitors.elements[n - 1 - i],
                        (n - 1 - i) as usize,
                    ),
            decreases left,
        {
            let monitor = elements.pop().unwrap();
            left = left - 1;
            reversed.push(Monitor::from(monitor, left));
        }
        let mut monitors: Vec<Monitor> = Vec::new();
        let mut i: usize = 0;
        while i < n
            invariant
                0 <= i <= n,
                n == k.monitors.elements.len(),
                reversed@.len() == n - i,
                forall|j: int|
                    0 <= j < n - i ==> reversed@[j]@ == monitor_of(
                        k.monitors.elements[n - 1 - j],
                        (n - 1 - j) as usize,
                    ),
                monitors@.len() == i,
                forall|j: int|
                    0 <= j < i ==> monitors@[j]@ == monitor_of(k.monitors.elements[j], j as usize),
            decreases n - i,
        {
            let monitor = reversed.pop().unwrap();
            monitors.push(monitor);
            i = i + 1;
        }
        assert(monitor_views(monitors@) =~= state_of(k).monitors);
        State { monitors }
    }
}

/// The workspaces of the focused monitor, where the focused position holds a
/// monitor.
pub fn workspaces_from_state(state: &KState) -> (r: Option<Vec<Workspace>>)
    ensures
        match r {
            Some(ws) => {
                let monitors = state@.monitors;
                &&& monitors.focused < monitors.elements.len()
                &&& workspace_views(ws@) == monitor_of(
                    monitors.elements[monitors.focused as int],
                    monitors.focused,
                ).workspaces
            },
            None => state@.monitors.focused >= state@.monitors.elements.len(),
        },
{
    match state.monitors.focused() {
        Some(monitor) => Some(
            workspaces_from(&monitor.workspaces.elements, monitor.workspaces.focused),
        ),
        None => None,
    }
}

/// Why an answer of komorebi gave no state.
#[derive(Clone, Copy, Debug, PartialEq, Eq, Structural)]
pub enum ProtocolError {
    /// The answer is no JSON document.
    Malformed,
    /// The answer is a document, and not of the expected shape.
    Unexpected,
}

/// The snapshot that a document describes, where it describes komorebi's
/// state.
pub open spec fn document_state(j: JsonValue) -> Option<StateView> {
    match kstate_of(j) {
        Some(k) => Some(state_of(k)),
        None => None,
    }
}

/// The snapshot that a notification carries, where the document is a
/// notification of a listed kind.
pub open spec fn notification_state(j: JsonValue) -> Option<StateView> {
    match knotification_of(j) {
        Some(n) => Some(state_of(n.state)),
        None => None,
    }
}

/// Reads the snapshot from the document that answers a query for the state.
pub fn state_from_json(j: &Json) -> (r: Option<State>)
    ensures
        option_view(r) == document_state(j@),
{
    match KState::from_json(j) {
        Some(k) => Some(State::from(k)),
        None => None,
    }
}

/// Reads the snapshot that a notification carries.
pub fn state_from_notification(j: &Json) -> (r: Option<State>)
    ensures
        option_view(r) == notification_state(j@),
{
    match KNotification::from_json(j) {
        Some(n) => Some(State::from(n.state)),
        None => None,
    }
}

/// The request that asks komorebi for its state.
pub fn state_query() -> (r: KSocketMessage)
    ensures
        r@ == KSocketMessageView::State,
{
    KSocketMessage::State
}

/// Reads the snapshot from komorebi's answer to a query for the state.
pub fn read_state(response: &str) -> (r: Result<State, ProtocolError>)
    ensures
        match r {
            Ok(state) => text_json(response@) matches Some(j) && document_state(j) == Some(state@),
            Err(ProtocolError::Malformed) => text_json(response@) is None,
            Err(ProtocolError::Unexpected) => text_json(response@) matches Some(j)
                && document_state(j) is None,
        },
{
    match Json::parse(response) {
        Ok(j) => match state_from_json(&j) {
            Some(state) => Ok(state),
            None => Err(ProtocolError::Unexpected),
        },
        Err(_) => Err(ProtocolError::Malformed),
    }
}

/// The request that focuses the workspace at `workspace_idx` of the monitor
/// at `monitor_idx`.
pub fn change_workspace(monitor_idx: usize, workspace_idx: usize) -> (r: KSocketMessage)
    ensures
        r@ == KSocketMessageView::FocusMonitorWorkspaceNumber(monitor_idx, workspace_idx),
{
    KSocketMessage::FocusMonitorWorkspaceNumber(monitor_idx, workspace_idx)
}

} // verus!
