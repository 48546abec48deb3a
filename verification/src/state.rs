//! The state of a window manager as the widgets see it: monitors and their
//! workspaces, whatever the manager's own wire format.

use vstd::prelude::*;
use vstd::string::*;

verus! {

/// A rectangle of the screen, in pixels.
#[derive(Clone, Copy, Debug, PartialEq, Eq, Structural)]
pub struct Rect {
    pub left: i32,
    pub top: i32,
    pub right: i32,
    pub bottom: i32,
}

impl Default for Rect {
    fn default() -> (r: Rect)
        ensures
            r == (Rect { left: 0, top: 0, right: 0, bottom: 0 }),
    {
        Rect { left: 0, top: 0, right: 0, bottom: 0 }
    }
}

/// What the widgets ask of rectangles.
pub trait RECTExt {
    /// Whether `other` starts at or after the left and top edges of `self`.
    spec fn spec_contains(&self, other: &Rect) -> bool;

    /// Whether `other` starts at or after the left and top edges of `self`.
    fn contains(&self, other: &Rect) -> (r: bool)
        ensures
            r == self.spec_contains(other),
    ;
}

impl RECTExt for Rect {
    open spec fn spec_contains(&self, other: &Rect) -> bool {
        self.left <= other.left && self.top <= other.top
    }

    fn contains(&self, other: &Rect) -> (r: bool) {
        self.left <= other.left && self.top <= other.top
    }
}

/// One workspace of a monitor.
#[derive(Debug)]
pub struct Workspace {
    pub name: String,
    /// The position among the workspaces of the monitor.
    pub index: usize,
    pub focused: bool,
    pub is_empty: bool,
}

/// A workspace as a plain value.
pub struct WorkspaceView {
    pub name: Seq<char>,
    pub index: usize,
    pub focused: bool,
    pub is_empty: bool,
}

impl View for Workspace {
    type V = WorkspaceView;

    open spec fn view(&self) -> WorkspaceView {
        WorkspaceView {
            name: self.name@,
            index: self.index,
            focused: self.focused,
            is_empty: self.is_empty,
        }
    }
}

impl Clone for Workspace {
    fn clone(&self) -> (r: Workspace)
        ensures
            r@ == self@,
    {
        Workspace {
            name: self.name.clone(),
            index: self.index,
            focused: self.focused,
            is_empty: self.is_empty,
        }
    }
}

impl Default for Workspace {
    fn default() -> (r: Workspace)
        ensures
            r@ == (WorkspaceView {
                name: Seq::empty(),
                index: 0,
                focused: false,
                is_empty: false,
            }),
    {
        Workspace { name: String::new(), index: 0, focused: false, is_empty: false }
    }
}

/// The workspaces of `workspaces` as plain values, in order.
pub open spec fn workspace_views(workspaces: Seq<Workspace>) -> Seq<WorkspaceView> {
    Seq::new(workspaces.len(), |i: int| workspaces[i]@)
}

/// One display and its workspaces.
#[derive(Debug)]
pub struct Monitor {
    pub name: String,
    /// The position in the window manager's list of monitors.
    pub index: usize,
    /// The identity of the display, which stays when the list of monitors is
    /// reordered.
    pub id: String,
    pub workspaces: Vec<Workspace>,
    pub rect: Rect,
}

/// A monitor as a plain value.
pub struct MonitorView {
    pub name: Seq<char>,
    pub index: usize,
    pub id: Seq<char>,
    pub workspaces: Seq<WorkspaceView>,
    pub rect: Rect,
}

impl View for Monitor {
    type V = MonitorView;

    open spec fn view(&self) -> MonitorView {
        MonitorView {
            name: self.name@,
            index: self.index,
            id: self.id@,
            workspaces: workspace_views(self.workspaces@),
            rect: self.rect,
        }
    }
}

/// A copy of `workspaces`.
pub fn clone_workspaces(workspaces: &Vec<Workspace>) -> (r: Vec<Workspace>)
    ensures
        workspace_views(r@) == workspace_views(workspaces@),
{
    let mut out: Vec<Workspace> = Vec::new();
    let n: usize = workspaces.len();
    let mut i: usize = 0;
    while i < n
        invariant
            0 <= i <= n,
            n == workspaces@.len(),
            out@.len() == i,
            forall|k: int| 0 <= k < i ==> out@[k]@ == workspaces@[k]@,
        decreases n - i,
    {
        out.push(workspaces[i].clone());
        i = i + 1;
    }
    assert(workspace_views(out@) =~= workspace_views(workspaces@));
    out
}

impl Clone for Monitor {
    fn clone(&self) -> (r: Monitor)
        ensures
            r@ == self@,
    {
        Monitor {
            name: self.name.clone(),
            index: self.index,
            id: self.id.clone(),
            workspaces: clone_workspaces(&self.workspaces),
            rect: self.rect,
        }
    }
}

impl Default for Monitor {
    fn default() -> (r: Monitor)
        ensures
            r@ == (MonitorView {
                name: Seq::empty(),
                index: 0,
                id: Seq::empty(),
                workspaces: Seq::empty(),
                rect: Rect { left: 0, top: 0, right: 0, bottom: 0 },
            }),
    {
        let r = Monitor {
            name: String::new(),
            index: 0,
            id: String::new(),
            workspaces: Vec::new(),
            rect: Rect::default(),
        };
        assert(workspace_views(r.workspaces@) =~= Seq::empty());
        r
    }
}

/// The monitors of `monitors` as plain values, in order.
pub open spec fn monitor_views(monitors: Seq<Monitor>) -> Seq<MonitorView> {
    Seq::new(monitors.len(), |i: int| monitors[i]@)
}

/// One snapshot of the window manager's state. A new snapshot replaces the
/// one before it as a whole.
#[derive(Debug)]
pub struct State {
    pub monitors: Vec<Monitor>,
}

/// A snapshot as a plain value.
pub struct StateView {
    pub monitors: Seq<MonitorView>,
}

impl View for State {
    type V = StateView;

    open spec fn view(&self) -> StateView {
        StateView { monitors: monitor_views(self.monitors@) }
    }
}

impl Clone for State {
    fn clone(&self) -> (r: State)
        ensures
            r@ == self@,
    {
        let mut out: Vec<Monitor> = Vec::new();
        let n: usize = self.monitors.len();
        let mut i: usize = 0;
        while i < n
            invariant
                0 <= i <= n,
                n == self.monitors@.len(),
                out@.len() == i,
                forall|k: int| 0 <= k < i ==> out@[k]@ == self.monitors@[k]@,
            decreases n - i,
        {
            out.push(self.monitors[i].clone());
            i = i + 1;
        }
        assert(monitor_views(out@) =~= monitor_views(self.monitors@));
        State { monitors: out }
    }
}

impl Default for State {
    fn default() -> (r: State)
        ensures
            r@ == (StateView { monitors: Seq::empty() }),
    {
        let r = State { monitors: Vec::new() };
        assert(monitor_views(r.monitors@) =~= Seq::empty());
        r
    }
}

impl StateView {
    /// Whether no two monitors of the snapshot have the same identity.
    pub open spec fn distinct_ids(self) -> bool {
        forall|i: int, j: int|
            0 <= i < j < self.monitors.len() ==> self.monitors[i].id != self.monitors[j].id
    }

    /// Whether some monitor of the snapshot has the identity `id`.
    pub open spec fn has_monitor(self, id: Seq<char>) -> bool {
        exists|i: int| 0 <= i < self.monitors.len() && #[trigger] self.monitors[i].id == id
    }
}

} // verus!
