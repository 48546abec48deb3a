//! The widget of one monitor: which indicators it shows, and what the
//! pointer and the messages of the event loop make it do.

use vstd::prelude::*;
use vstd::string::*;
use crate::message::{AppMessage, AppMessageView, WindowId};
use crate::options::Options;
use crate::state::{monitor_views, Monitor, MonitorView, Rect, StateView, WorkspaceView};
use crate::taskbar::Taskbar;
use crate::text::str_eq;
use crate::window_registry_info::{stored_fields, StoredFields, WindowRegistryInfo};

verus! {

/// The state of one widget.
#[derive(Debug)]
pub struct SwitcherWindowView {
    /// The widget's own window.
    pub window_id: WindowId,
    /// The host window in the taskbar.
    pub host: isize,
    pub taskbar: Taskbar,
    /// The widget's monitor as of the last snapshot.
    pub monitor_state: Monitor,
    pub window_info: WindowRegistryInfo,
    pub options: Options,
    /// The identifiers of the two items of the context menu.
    pub move_resize_menu_id: String,
    pub quit_menu_id: String,
    /// Whether the dialog to move and resize the widget is open. While it
    /// is, the windows inside the host do not follow the host's size.
    pub in_resize: bool,
}

/// A widget as a plain value.
pub struct SwitcherWindowModel {
    pub window_id: WindowId,
    pub host: isize,
    pub taskbar: Taskbar,
    pub monitor_state: MonitorView,
    pub window_info: WindowRegistryInfo,
    pub options: Options,
    pub move_resize_menu_id: Seq<char>,
    pub quit_menu_id: Seq<char>,
    pub in_resize: bool,
}

impl View for SwitcherWindowView {
    type V = SwitcherWindowModel;

    open spec fn view(&self) -> SwitcherWindowModel {
        SwitcherWindowModel {
            window_id: self.window_id,
            host: self.host,
            taskbar: self.taskbar,
            monitor_state: self.monitor_state@,
            window_info: self.window_info,
            options: self.options,
            move_resize_menu_id: self.move_resize_menu_id@,
            quit_menu_id: self.quit_menu_id@,
            in_resize: self.in_resize,
        }
    }
}

/// The command that focuses a workspace: the monitor's index and the
/// workspace's, always both.
#[derive(Clone, Copy, Debug, PartialEq, Eq, Structural)]
pub struct ChangeWorkspace {
    pub monitor_idx: usize,
    pub workspace_idx: usize,
}

/// The two ways to turn the wheel.
#[derive(Clone, Copy, Debug, PartialEq, Eq, Structural)]
pub enum Scroll {
    /// Up: to the workspace before the focused one.
    Previous,
    /// Down: to the workspace after the focused one.
    Next,
}

impl Scroll {
    /// The way that the wheel was turned: up leads to the workspace before
    /// the focused one, down to the one after it.
    pub fn from_wheel(up: bool) -> (r: Scroll)
        ensures
            r == if up {
                Scroll::Previous
            } else {
                Scroll::Next
            },
    {
        if up {
            Scroll::Previous
        } else {
            Scroll::Next
        }
    }
}

/// What a message makes the widget ask of the program around it.
#[derive(Debug)]
pub enum SwitcherAction {
    /// Nothing.
    Nothing,
    /// Post this message, which asks for the dialog to move and resize the
    /// widget, and stop the windows inside the host from following its size.
    StartResize(AppMessage),
    /// Let the windows inside the host follow its size again.
    EndResize,
    /// Ask the host window to close.
    CloseHost,
    /// Read the colours of the system anew.
    RefreshColors,
    /// Read the resolution of the host's display anew.
    RefreshScale,
}

/// An action as a plain value.
pub enum SwitcherActionView {
    Nothing,
    StartResize(AppMessageView),
    EndResize,
    CloseHost,
    RefreshColors,
    RefreshScale,
}

impl View for SwitcherAction {
    type V = SwitcherActionView;

    open spec fn view(&self) -> SwitcherActionView {
        match self {
            SwitcherAction::Nothing => SwitcherActionView::Nothing,
            SwitcherAction::StartResize(message) => SwitcherActionView::StartResize(message@),
            SwitcherAction::EndResize => SwitcherActionView::EndResize,
            SwitcherAction::CloseHost => SwitcherActionView::CloseHost,
            SwitcherAction::RefreshColors => SwitcherActionView::RefreshColors,
            SwitcherAction::RefreshScale => SwitcherActionView::RefreshScale,
        }
    }
}

/// A new size for the host window, and the fields of the record to write.
#[derive(Debug)]
pub struct HostResize {
    pub width: i32,
    pub height: i32,
    pub fields: StoredFields,
}

/// Whether the indicator of `w` is shown: always, unless empty workspaces
/// are hidden and `w` is empty and has not the focus.
pub open spec fn is_shown(w: WorkspaceView, hide_empty: bool) -> bool {
    !(hide_empty && w.is_empty && !w.focused)
}

/// The positions of the workspaces among the first `n` whose indicators are
/// shown, in order.
pub open spec fn shown_positions(ws: Seq<WorkspaceView>, hide_empty: bool, n: int) -> Seq<usize>
    decreases n,
{
    if n <= 0 || n > ws.len() {
        Seq::empty()
    } else if is_shown(ws[n - 1], hide_empty) {
        shown_positions(ws, hide_empty, n - 1).push((n - 1) as usize)
    } else {
        shown_positions(ws, hide_empty, n - 1)
    }
}

/// The position of the first focused workspace at or after `from`.
pub open spec fn first_focused(ws: Seq<WorkspaceView>, from: int) -> Option<int>
    decreases ws.len() - from,
{
    if from < 0 || from >= ws.len() {
        None
    } else if ws[from].focused {
        Some(from)
    } else {
        first_focused(ws, from + 1)
    }
}

/// The position from which the wheel counts: that of the first focused
/// workspace, or 0 where none has the focus.
pub open spec fn focused_position(ws: Seq<WorkspaceView>) -> int {
    match first_focused(ws, 0) {
        Some(i) => i,
        None => 0,
    }
}

/// The position that the wheel leads to: one before or after the focused
/// one, around the ends of the list.
pub open spec fn scroll_target(ws: Seq<WorkspaceView>, direction: Scroll) -> int
    recommends
        ws.len() > 0,
{
    let focused = focused_position(ws);
    match direction {
        Scroll::Previous => if focused == 0 {
            ws.len() - 1
        } else {
            focused - 1
        },
        Scroll::Next => if focused + 1 == ws.len() {
            0
        } else {
            focused + 1
        },
    }
}

impl SwitcherWindowModel {
    /// The command that a turn of the wheel gives: none where the wheel is
    /// switched off or the monitor has no workspace.
    pub open spec fn scrolled(self, direction: Scroll) -> Option<ChangeWorkspace> {
        if self.options.enable_scroll_switching && self.monitor_state.workspaces.len() > 0 {
            Some(
                ChangeWorkspace {
                    monitor_idx: self.monitor_state.index,
                    workspace_idx: scroll_target(self.monitor_state.workspaces, direction) as usize,
                },
            )
        } else {
            None
        }
    }

    /// The command that a click on the indicator at `position` gives.
    pub open spec fn clicked(self, position: usize) -> Option<ChangeWorkspace> {
        if position < self.monitor_state.workspaces.len() {
            Some(
                ChangeWorkspace {
                    monitor_idx: self.monitor_state.index,
                    workspace_idx: self.monitor_state.workspaces[position as int].index,
                },
            )
        } else {
            None
        }
    }

    /// The geometry once the automatic sizes are measured.
    pub open spec fn measured(self, content_width: i32, taskbar_height: i32) -> WindowRegistryInfo {
        self.window_info.resolved(content_width, taskbar_height)
    }
}

/// The monitor with the identity `id` among those at or after `from`.
pub open spec fn monitor_with(monitors: Seq<MonitorView>, id: Seq<char>, from: int) -> Option<
    MonitorView,
>
    decreases monitors.len() - from,
{
    if from < 0 || from >= monitors.len() {
        None
    } else if monitors[from].id == id {
        Some(monitors[from])
    } else {
        monitor_with(monitors, id, from + 1)
    }
}

/// A monitor without workspaces and without a name, for a widget whose
/// monitor is gone.
pub open spec fn no_monitor() -> MonitorView {
    MonitorView {
        name: Seq::empty(),
        index: 0,
        id: Seq::empty(),
        workspaces: Seq::empty(),
        rect: Rect { left: 0, top: 0, right: 0, bottom: 0 },
    }
}

/// The monitor of the widget after a snapshot: the one of its identity, or
/// `no_monitor`.
pub open spec fn monitor_after(state: StateView, id: Seq<char>) -> MonitorView {
    match monitor_with(state.monitors, id, 0) {
        Some(m) => m,
        None => no_monitor(),
    }
}

/// The message that asks for the dialog to move and resize the widget.
pub open spec fn resize_request(w: SwitcherWindowModel) -> AppMessageView {
    AppMessageView::CreateResizeWindow {
        host: w.host,
        info: w.window_info,
        subkey: w.monitor_state.id,
        window_id: w.window_id,
    }
}

/// The widget after `message`.
pub open spec fn widget_after(w: SwitcherWindowModel, message: AppMessageView) -> SwitcherWindowModel {
    match message {
        AppMessageView::UpdateState(state) => SwitcherWindowModel {
            monitor_state: monitor_after(state, w.monitor_state.id),
            ..w
        },
        AppMessageView::MenuEvent(id) => if id == w.move_resize_menu_id {
            SwitcherWindowModel { in_resize: true, ..w }
        } else {
            w
        },
        AppMessageView::StartMoveResize(id) => if id == w.monitor_state.id {
            SwitcherWindowModel { in_resize: true, ..w }
        } else {
            w
        },
        AppMessageView::NotifyWindowInfoChanges(window_id, info) => if window_id == w.window_id {
            SwitcherWindowModel { window_info: info, in_resize: false, ..w }
        } else {
            w
        },
        _ => w,
    }
}

/// What `message` makes the widget ask for.
pub open spec fn action_after(w: SwitcherWindowModel, message: AppMessageView) -> SwitcherActionView {
    match message {
        AppMessageView::MenuEvent(id) => if id == w.move_resize_menu_id {
            SwitcherActionView::StartResize(resize_request(w))
        } else if id == w.quit_menu_id {
            SwitcherActionView::CloseHost
        } else {
            SwitcherActionView::Nothing
        },
        AppMessageView::StartMoveResize(id) => if id == w.monitor_state.id {
            SwitcherActionView::StartResize(resize_request(w))
        } else {
            SwitcherActionView::Nothing
        },
        AppMessageView::SystemSettingsChanged => SwitcherActionView::RefreshColors,
        AppMessageView::NotifyWindowInfoChanges(window_id, info) => if window_id == w.window_id {
            SwitcherActionView::EndResize
        } else {
            SwitcherActionView::Nothing
        },
        AppMessageView::DpiChanged => SwitcherActionView::RefreshScale,
        _ => SwitcherActionView::Nothing,
    }
}

/// With the focus on the first of `n` workspaces, the wheel turned up leads
/// to the last; with the focus on the last only, the wheel turned down leads
/// to the first.
pub proof fn lemma_scroll_wraps(ws: Seq<WorkspaceView>)
    requires
        ws.len() > 0,
    ensures
        ws[0].focused ==> scroll_target(ws, Scroll::Previous) == ws.len() - 1,
        first_focused(ws, 0) == Some(ws.len() - 1) ==> scroll_target(ws, Scroll::Next) == 0,
        0 <= scroll_target(ws, Scroll::Previous) < ws.len(),
        0 <= scroll_target(ws, Scroll::Next) < ws.len(),
{
    lemma_first_focused_bounds(ws, 0);
}

/// The wheel counts modulo the number of workspaces: it leads to the
/// position one after or one before the focused one, modulo that number.
pub proof fn lemma_scroll_is_modular(ws: Seq<WorkspaceView>)
    requires
        ws.len() > 0,
    ensures
        scroll_target(ws, Scroll::Next) == (focused_position(ws) + 1) % (ws.len() as int),
        scroll_target(ws, Scroll::Previous) == (focused_position(ws) - 1) % (ws.len() as int),
{
    lemma_first_focused_bounds(ws, 0);
    let n = ws.len() as int;
    let f = focused_position(ws);
    assert(0 <= f < n);
    if f + 1 == n {
        assert((f + 1) % n == 0) by (nonlinear_arith)
            requires
                f + 1 == n,
                n > 0,
        ;
    } else {
        assert((f + 1) % n == f + 1) by (nonlinear_arith)
            requires
                0 <= f + 1 < n,
        ;
    }
    if f == 0 {
        assert((f - 1) % n == n - 1) by (nonlinear_arith)
            requires
                f == 0,
                n > 0,
        ;
    } else {
        assert((f - 1) % n == f - 1) by (nonlinear_arith)
            requires
                0 <= f - 1 < n,
        ;
    }
}

/// The first focused position is a position of the list, and holds the
/// focus.
pub proof fn lemma_first_focused_bounds(ws: Seq<WorkspaceView>, from: int)
    requires
        0 <= from,
    ensures
        match first_focused(ws, from) {
            Some(i) => from <= i < ws.len() && ws[i].focused,
            None => forall|k: int| from <= k < ws.len() ==> !ws[k].focused,
        },
    decreases ws.len() - from,
{
    if from < ws.len() && !ws[from].focused {
        lemma_first_focused_bounds(ws, from + 1);
    }
}

/// The monitor with the identity `id` in `monitors`.
pub fn find_monitor<'a>(monitors: &'a Vec<Monitor>, id: &str) -> (r: Option<&'a Monitor>)
    ensures
        match r {
            Some(m) => monitor_with(monitor_views(monitors@), id@, 0) == Some(m@),
            None => monitor_with(monitor_views(monitors@), id@, 0) is None,
        },
{
    let n: usize = monitors.len();
    let mut i: usize = 0;
    while i < n
        invariant
            0 <= i <= n,
            n == monitors@.len(),
            monitor_with(monitor_views(monitors@), id@, 0) == monitor_with(
                monitor_views(monitors@),
                id@,
                i as int,
            ),
        decreases n - i,
    {
        if str_eq(monitors[i].id.as_str(), id) {
            return Some(&monitors[i]);
        }
        i = i + 1;
    }
    None
}

impl SwitcherWindowView {
    /// The positions of the workspaces whose indicators are shown, in order.
    pub fn visible_workspaces(&self) -> (r: Vec<usize>)
        ensures
            r@ == shown_positions(
                self@.monitor_state.workspaces,
                self.options.hide_empty_workspaces,
                self@.monitor_state.workspaces.len() as int,
            ),
    {
        let hide = self.options.hide_empty_workspaces;
        let mut out: Vec<usize> = Vec::new();
        let n: usize = self.monitor_state.workspaces.len();
        let mut i: usize = 0;
        while i < n
            invariant
                0 <= i <= n,
                n == self.monitor_state.workspaces@.len(),
                hide == self.options.hide_empty_workspaces,
                out@ == shown_positions(self@.monitor_state.workspaces, hide, i as int),
            decreases n - i,
        {
            let w = &self.monitor_state.workspaces[i];
            if !(hide && w.is_empty && !w.focused) {
                out.push(i);
            }
            i = i + 1;
        }
        out
    }

    /// Whether the "offline" placeholder is shown: where no indicator is,
    /// unless the placeholder is switched off.
    pub fn shows_offline(&self) -> (r: bool)
        ensures
            r == (!self.options.hide_if_offline && shown_positions(
                self@.monitor_state.workspaces,
                self.options.hide_empty_workspaces,
                self@.monitor_state.workspaces.len() as int,
            ).len() == 0),
    {
        !self.options.hide_if_offline && self.visible_workspaces().len() == 0
    }

    /// The command that a click on the indicator at `position` gives.
    pub fn click(&self, position: usize) -> (r: Option<ChangeWorkspace>)
        ensures
            r == self@.clicked(position),
    {
        if position < self.monitor_state.workspaces.len() {
            Some(
                ChangeWorkspace {
                    monitor_idx: self.monitor_state.index,
                    workspace_idx: self.monitor_state.workspaces[position].index,
                },
            )
        } else {
            None
        }
    }

    /// The command that a turn of the wheel gives.
    pub fn scroll(&self, direction: Scroll) -> (r: Option<ChangeWorkspace>)
        ensures
            r == self@.scrolled(direction),
    {
        let count: usize = self.monitor_state.workspaces.len();
        if !self.options.enable_scroll_switching || count == 0 {
            return None;
        }
        let mut focused: usize = 0;
        let mut i: usize = 0;
        let mut found = false;
        while i < count && !found
            invariant
                0 <= i <= count,
                count == self.monitor_state.workspaces@.len(),
                !found ==> first_focused(self@.monitor_state.workspaces, 0) == first_focused(
                    self@.monitor_state.workspaces,
                    i as int,
                ),
                !found ==> focused == 0,
                found ==> first_focused(self@.monitor_state.workspaces, 0) == Some(focused as int)
                    && focused < count,
            decreases count - i + if found { 0int } else { 1int },
        {
            if self.monitor_state.workspaces[i].focused {
                focused = i;
                found = true;
            } else {
                i = i + 1;
            }
        }
        let next: usize = match direction {
            Scroll::Previous => if focused == 0 {
                count - 1
            } else {
                focused - 1
            },
            Scroll::Next => if focused + 1 == count {
                0
            } else {
                focused + 1
            },
        };
        Some(ChangeWorkspace { monitor_idx: self.monitor_state.index, workspace_idx: next })
    }

    /// Starts moving and resizing: gives the message that asks for the
    /// dialog, which carries the host, the geometry and the key of the record.
    pub fn start_host_dragging(&mut self) -> (r: AppMessage)
        ensures
            r@ == resize_request(old(self)@),
            final(self)@ == (SwitcherWindowModel { in_resize: true, ..old(self)@ }),
    {
        self.in_resize = true;
        AppMessage::CreateResizeWindow {
            host: self.host,
            info: self.window_info,
            subkey: self.monitor_state.id.clone(),
            window_id: self.window_id,
        }
    }

    /// Takes the geometry that the dialog saved.
    pub fn update_window_info(&mut self, info: &WindowRegistryInfo)
        ensures
            final(self)@ == (SwitcherWindowModel {
                window_info: *info,
                in_resize: false,
                ..old(self)@
            }),
    {
        self.window_info = *info;
        self.in_resize = false;
    }

    /// What a message of the event loop does to the widget, and what the
    /// widget asks for in turn.
    pub fn handle_app_message(&mut self, message: &AppMessage) -> (r: SwitcherAction)
        ensures
            final(self)@ == widget_after(old(self)@, message@),
            r@ == action_after(old(self)@, message@),
    {
        match message {
            AppMessage::UpdateState(state) => {
                let monitor = match find_monitor(&state.monitors, self.monitor_state.id.as_str()) {
                    Some(m) => m.clone(),
                    None => Monitor::default(),
                };
                self.monitor_state = monitor;
                SwitcherAction::Nothing
            },
            AppMessage::MenuEvent(id) => {
                if str_eq(id.as_str(), self.move_resize_menu_id.as_str()) {
                    SwitcherAction::StartResize(self.start_host_dragging())
                } else if str_eq(id.as_str(), self.quit_menu_id.as_str()) {
                    SwitcherAction::CloseHost
                } else {
                    SwitcherAction::Nothing
                }
            },
            AppMessage::StartMoveResize(id) => {
                if str_eq(id.as_str(), self.monitor_state.id.as_str()) {
                    SwitcherAction::StartResize(self.start_host_dragging())
                } else {
                    SwitcherAction::Nothing
                }
            },
            AppMessage::SystemSettingsChanged => SwitcherAction::RefreshColors,
            AppMessage::NotifyWindowInfoChanges(window_id, info) => {
                if window_id.0 == self.window_id.0 {
                    self.update_window_info(info);
                    SwitcherAction::EndResize
                } else {
                    SwitcherAction::Nothing
                }
            },
            AppMessage::DpiChanged => SwitcherAction::RefreshScale,
            _ => SwitcherAction::Nothing,
        }
    }

    /// Fits the host window to what the widget shows: where the measured
    /// sizes differ from those of the record, the record takes them, and the
    /// new size and the fields to write are given.
    pub fn resize_host_to_rect(&mut self, content_width: i32, taskbar_height: i32) -> (r: Option<
        HostResize,
    >)
        ensures
            final(self)@ == (SwitcherWindowModel {
                window_info: old(self)@.measured(content_width, taskbar_height),
                ..old(self)@
            }),
            match r {
                Some(resize) => {
                    &&& final(self).window_info != old(self).window_info
                    &&& resize.width == final(self).window_info.width
                    &&& resize.height == final(self).window_info.height
                    &&& resize.fields@ == stored_fields(final(self).window_info)
                },
                None => final(self).window_info == old(self).window_info,
            },
    {
        let height = if self.window_info.auto_height {
            taskbar_height
        } else {
            self.window_info.height
        };
        let width = if self.window_info.auto_width {
            content_width
        } else {
            self.window_info.width
        };
        if self.window_info.width != width || self.window_info.height != height {
            self.window_info.width = width;
            self.window_info.height = height;
            Some(HostResize { width, height, fields: self.window_info.save() })
        } else {
            None
        }
    }

    /// The size that the windows inside the host take when the host has the
    /// given size inside: the same; and none while the dialog is open.
    pub fn child_size(&self, client_width: i32, client_height: i32) -> (r: Option<(i32, i32)>)
        ensures
            r == if self.in_resize {
                None
            } else {
                Some((client_width, client_height))
            },
    {
        children_size(self.in_resize, client_width, client_height)
    }
}

/// The size that the windows inside a host take when the host has the given
/// size inside: exactly that size; and none while the host is moved and
/// resized by hand, so that they do not fight the user.
pub fn children_size(in_resize: bool, client_width: i32, client_height: i32) -> (r: Option<
    (i32, i32),
>)
    ensures
        r == if in_resize {
            None
        } else {
            Some((client_width, client_height))
        },
{
    if in_resize {
        None
    } else {
        Some((client_width, client_height))
    }
}

/// Whether the taskbar stands at the top of its monitor: the host window's
/// top edge is at or above the monitor's, which counts as 0 where the
/// monitor is not known.
pub fn is_taskbar_on_top(host_top: Option<i32>, monitor_y: Option<i32>) -> (r: bool)
    ensures
        r == match host_top {
            Some(top) => top <= match monitor_y {
                Some(y) => y,
                None => 0,
            },
            None => false,
        },
{
    match host_top {
        Some(top) => {
            let y = match monitor_y {
                Some(y) => y,
                None => 0,
            };
            top <= y
        },
        None => false,
    }
}

} // verus!
