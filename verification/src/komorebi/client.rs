//! What komorebi sends and what it is sent, as plain data.

use vstd::prelude::*;
use vstd::string::*;
use crate::json::{views_of, Json, JsonValue};

verus! {

/// A list with one position marked as focused.
#[derive(Debug)]
pub struct Ring<T> {
    pub elements: Vec<T>,
    pub focused: usize,
}

impl<T> Ring<T> {
    /// The focused element, where the focused position holds one.
    pub fn focused(&self) -> (r: Option<&T>)
        ensures
            match r {
                Some(e) => self.focused < self.elements@.len() && *e == self.elements@[self.focused as int],
                None => self.focused >= self.elements@.len(),
            },
    {
        if self.focused < self.elements.len() {
            Some(&self.elements[self.focused])
        } else {
            None
        }
    }

    /// The focused position.
    pub fn focused_idx(&self) -> (r: usize)
        ensures
            r == self.focused,
    {
        self.focused
    }

    /// Whether the list holds nothing.
    pub fn is_empty(&self) -> (r: bool)
        ensures
            r == (self.elements@.len() == 0),
    {
        self.elements.len() == 0
    }
}

/// A list that komorebi sends either as a ring or bare.
#[derive(Debug)]
pub enum MaybeRingOrVec<T> {
    Ring(Ring<T>),
    Vec(Vec<T>),
}

impl<T> MaybeRingOrVec<T> {
    /// The number of elements.
    pub open spec fn spec_len(&self) -> nat {
        match self {
            MaybeRingOrVec::Ring(ring) => ring.elements@.len(),
            MaybeRingOrVec::Vec(vec) => vec@.len(),
        }
    }

    /// Whether the list holds nothing.
    pub fn is_empty(&self) -> (r: bool)
        ensures
            r == (self.spec_len() == 0),
    {
        match self {
            MaybeRingOrVec::Ring(ring) => ring.is_empty(),
            MaybeRingOrVec::Vec(vec) => vec.len() == 0,
        }
    }
}

/// A ring as a plain value.
pub struct RingView<V> {
    pub elements: Seq<V>,
    pub focused: usize,
}

/// A list that is a ring or bare, as a plain value.
pub enum MaybeRingOrVecView<V> {
    Ring(RingView<V>),
    Vec(Seq<V>),
}

impl<V> MaybeRingOrVecView<V> {
    /// The number of elements.
    pub open spec fn len(self) -> nat {
        match self {
            MaybeRingOrVecView::Ring(ring) => ring.elements.len(),
            MaybeRingOrVecView::Vec(vec) => vec.len(),
        }
    }
}

/// One workspace as komorebi describes it.
#[derive(Debug)]
pub struct KWorkspace {
    pub name: Option<String>,
    pub containers: Ring<Json>,
    pub maximized_window: Option<Json>,
    pub monocle_container: Option<Json>,
    pub floating_windows: MaybeRingOrVec<Json>,
}

/// A workspace of komorebi as a plain value.
pub struct KWorkspaceView {
    pub name: Option<Seq<char>>,
    pub containers: RingView<JsonValue>,
    pub maximized_window: Option<JsonValue>,
    pub monocle_container: Option<JsonValue>,
    pub floating_windows: MaybeRingOrVecView<JsonValue>,
}

/// The characters of a string that may be missing.
pub open spec fn string_view(s: Option<String>) -> Option<Seq<char>> {
    match s {
        Some(s) => Some(s@),
        None => None,
    }
}

/// The tree of a document that may be missing.
pub open spec fn json_view(j: Option<Json>) -> Option<JsonValue> {
    match j {
        Some(j) => Some(j@),
        None => None,
    }
}

impl View for KWorkspace {
    type V = KWorkspaceView;

    open spec fn view(&self) -> KWorkspaceView {
        KWorkspaceView {
            name: string_view(self.name),
            containers: RingView {
                elements: views_of(self.containers.elements@),
                focused: self.containers.focused,
            },
            maximized_window: json_view(self.maximized_window),
            monocle_container: json_view(self.monocle_container),
            floating_windows: match self.floating_windows {
                MaybeRingOrVec::Ring(ring) => MaybeRingOrVecView::Ring(
                    RingView { elements: views_of(ring.elements@), focused: ring.focused },
                ),
                MaybeRingOrVec::Vec(vec) => MaybeRingOrVecView::Vec(views_of(vec@)),
            },
        }
    }
}

impl KWorkspaceView {
    /// Whether the workspace holds nothing: no container, no maximized
    /// window, no monocle container and no floating window.
    pub open spec fn is_empty(self) -> bool {
        &&& self.containers.elements.len() == 0
        &&& self.maximized_window is None
        &&& self.monocle_container is None
        &&& self.floating_windows.len() == 0
    }
}

impl KWorkspace {
    /// Whether the workspace holds nothing: no container, no maximized
    /// window, no monocle container and no floating window.
    pub fn is_empty(&self) -> (r: bool)
        ensures
            r == self@.is_empty(),
    {
        self.containers.is_empty() && self.maximized_window.is_none()
            && self.monocle_container.is_none() && self.floating_windows.is_empty()
    }
}

/// A rectangle as komorebi sends it.
#[derive(Clone, Copy, Debug, PartialEq, Eq, Structural)]
pub struct KRect {
    pub left: i32,
    pub top: i32,
    pub right: i32,
    pub bottom: i32,
}

/// One monitor as komorebi describes it.
#[derive(Debug)]
pub struct KMonitor {
    pub name: String,
    pub device_id: Option<String>,
    pub serial_number_id: Option<String>,
    pub workspaces: Ring<KWorkspace>,
    pub size: KRect,
}

/// A monitor of komorebi as a plain value.
pub struct KMonitorView {
    pub name: Seq<char>,
    pub device_id: Option<Seq<char>>,
    pub serial_number_id: Option<Seq<char>>,
    pub workspaces: RingView<KWorkspaceView>,
    pub size: KRect,
}

/// The workspaces of `workspaces` as plain values, in order.
pub open spec fn kworkspace_views(workspaces: Seq<KWorkspace>) -> Seq<KWorkspaceView> {
    Seq::new(workspaces.len(), |i: int| workspaces[i]@)
}

impl View for KMonitor {
    type V = KMonitorView;

    open spec fn view(&self) -> KMonitorView {
        KMonitorView {
            name: self.name@,
            device_id: string_view(self.device_id),
            serial_number_id: string_view(self.serial_number_id),
            workspaces: RingView {
                elements: kworkspace_views(self.workspaces.elements@),
                focused: self.workspaces.focused,
            },
            size: self.size,
        }
    }
}

/// The whole of what komorebi reports.
#[derive(Debug)]
pub struct KState {
    pub monitors: Ring<KMonitor>,
}

/// The state of komorebi as a plain value.
pub struct KStateView {
    pub monitors: RingView<KMonitorView>,
}

/// The monitors of `monitors` as plain values, in order.
pub open spec fn kmonitor_views(monitors: Seq<KMonitor>) -> Seq<KMonitorView> {
    Seq::new(monitors.len(), |i: int| monitors[i]@)
}

impl View for KState {
    type V = KStateView;

    open spec fn view(&self) -> KStateView {
        KStateView {
            monitors: RingView {
                elements: kmonitor_views(self.monitors.elements@),
                focused: self.monitors.focused,
            },
        }
    }
}

/// A request to komorebi.
#[derive(Debug)]
pub enum KSocketMessage {
    /// Asks for the state.
    State,
    /// Asks for notifications on the socket of the given name.
    AddSubscriberSocket(String),
    /// Focuses a workspace of a monitor: the monitor's index, then the
    /// workspace's.
    FocusMonitorWorkspaceNumber(usize, usize),
}

/// A request to komorebi as a plain value.
pub enum KSocketMessageView {
    State,
    AddSubscriberSocket(Seq<char>),
    FocusMonitorWorkspaceNumber(usize, usize),
}

impl View for KSocketMessage {
    type V = KSocketMessageView;

    open spec fn view(&self) -> KSocketMessageView {
        match self {
            KSocketMessage::State => KSocketMessageView::State,
            KSocketMessage::AddSubscriberSocket(name) => KSocketMessageView::AddSubscriberSocket(
                name@,
            ),
            KSocketMessage::FocusMonitorWorkspaceNumber(m, w) => {
                KSocketMessageView::FocusMonitorWorkspaceNumber(*m, *w)
            },
        }
    }
}

} // verus!
