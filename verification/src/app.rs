//! The life cycle of the windows: which widgets are alive, which are made
//! for a new snapshot, and which are closed.
//!
//! A widget and its host window are alive from the moment they are put into
//! the registry until they are taken out of it again; taking out is one step,
//! after which no message reaches them.

use vstd::prelude::*;
use vstd::string::*;
use crate::app::registry::{
    closed_ids, goes, id_count, key_count, lemma_counts_of_identities, lemma_counts_of_prefix,
    lemma_remaining_wf, orphans, registry_wf, remaining, window_index, window_models, LiveWindow,
    LiveWindowModel, WindowModel, WindowView,
};
use crate::message::{AppMessage, AppMessageView, WindowEvent, WindowId};
use crate::options::Options;
use crate::state::{Monitor, MonitorView, State, StateView};
use crate::taskbar::{select_taskbar, selected_taskbar, Taskbar};
use crate::text::str_eq;
use crate::window_registry_info::WindowRegistryInfo;
use crate::windows::resize::{rollback_view, ResizeRollback, ResizeRollbackView, ResizeWindowView};
use crate::windows::switcher::{
    action_after, find_monitor, widget_after, SwitcherAction, SwitcherActionView,
    SwitcherWindowView,
};

pub mod laws;
pub mod registry;

verus! {

/// The windows that are alive, the last snapshot, and the switches.
#[derive(Debug)]
pub struct App {
    pub windows: Vec<LiveWindow>,
    pub state: State,
    pub options: Options,
}

/// The manager as a plain value.
pub struct AppModel {
    pub windows: Seq<LiveWindowModel>,
    pub state: StateView,
    pub options: Options,
}

impl View for App {
    type V = AppModel;

    open spec fn view(&self) -> AppModel {
        AppModel {
            windows: window_models(self.windows@),
            state: self.state@,
            options: self.options,
        }
    }
}

/// A widget that is to be made: its monitor and the taskbar that it goes
/// into.
#[derive(Debug)]
pub struct SwitcherRequest {
    pub monitor: Monitor,
    pub taskbar: Taskbar,
}

/// A request as a plain value.
pub struct SwitcherRequestView {
    pub monitor: MonitorView,
    pub taskbar: Taskbar,
}

impl View for SwitcherRequest {
    type V = SwitcherRequestView;

    open spec fn view(&self) -> SwitcherRequestView {
        SwitcherRequestView { monitor: self.monitor@, taskbar: self.taskbar }
    }
}

/// The requests of `requests` as plain values, in order.
pub open spec fn request_views(requests: Seq<SwitcherRequest>) -> Seq<SwitcherRequestView> {
    Seq::new(requests.len(), |i: int| requests[i]@)
}

/// Whether one of the first `n` requests is for the monitor `id`.
pub open spec fn requested(requests: Seq<SwitcherRequestView>, id: Seq<char>, n: int) -> bool
    decreases n,
{
    if n <= 0 || n > requests.len() {
        false
    } else {
        requests[n - 1].monitor.id == id || requested(requests, id, n - 1)
    }
}

/// The widgets to make for the first `n` of `monitors`: one for each monitor
/// that has no widget and none requested yet, and for which a taskbar is
/// found; in the order of the monitors.
pub open spec fn requests_for(
    ws: Seq<LiveWindowModel>,
    monitors: Seq<MonitorView>,
    taskbars: Seq<Taskbar>,
    n: int,
) -> Seq<SwitcherRequestView>
    decreases n,
{
    if n <= 0 || n > monitors.len() {
        Seq::empty()
    } else {
        let before = requests_for(ws, monitors, taskbars, n - 1);
        let m = monitors[n - 1];
        match selected_taskbar(taskbars, m.rect, m.index) {
            Some(t) => if key_count(ws, m.id, ws.len() as int) == 0 && !requested(
                before,
                m.id,
                before.len() as int,
            ) {
                before.push(SwitcherRequestView { monitor: m, taskbar: taskbars[t] })
            } else {
                before
            },
            None => before,
        }
    }
}

/// Whether `id` is one of `ids`.
pub fn contains_id(ids: &Vec<WindowId>, id: WindowId) -> (r: bool)
    ensures
        r == ids@.contains(id),
{
    let n: usize = ids.len();
    let mut i: usize = 0;
    while i < n
        invariant
            0 <= i <= n,
            n == ids@.len(),
            forall|k: int| 0 <= k < i ==> ids@[k] != id,
        decreases n - i,
    {
        if ids[i].0 == id.0 {
            assert(ids@[i as int] == id);
            return true;
        }
        i = i + 1;
    }
    false
}

fn window_goes(w: &LiveWindow, doomed: &Vec<WindowId>) -> (r: bool)
    ensures
        r == goes(w@, doomed@),
{
    if contains_id(doomed, w.id) {
        return true;
    }
    match &w.view {
        WindowView::Resize(r) => contains_id(doomed, r.window_id),
        WindowView::Switcher(_) => false,
    }
}

fn is_requested(requests: &Vec<SwitcherRequest>, id: &str) -> (r: bool)
    ensures
        r == requested(request_views(requests@), id@, requests@.len() as int),
{
    let n: usize = requests.len();
    let mut i: usize = 0;
    let mut found = false;
    while i < n
        invariant
            0 <= i <= n,
            n == requests@.len(),
            found == requested(request_views(requests@), id@, i as int),
        decreases n - i,
    {
        if str_eq(requests[i].monitor.id.as_str(), id) {
            found = true;
        }
        i = i + 1;
    }
    found
}

impl App {
    /// Whether the registry is sound.
    pub open spec fn wf(&self) -> bool {
        registry_wf(self@.windows)
    }

    /// A manager without windows.
    pub fn new(state: State, options: Options) -> (r: App)
        ensures
            r@ == (AppModel { windows: Seq::empty(), state: state@, options }),
            r.wf(),
    {
        let r = App { windows: Vec::new(), state, options };
        assert(r@.windows =~= Seq::empty());
        r
    }

    /// Whether a window with the identity `id` is alive.
    pub fn contains_key(&self, id: WindowId) -> (r: bool)
        ensures
            r == (id_count(self@.windows, id, self@.windows.len() as int) > 0),
    {
        let n: usize = self.windows.len();
        let mut i: usize = 0;
        let mut found = false;
        while i < n
            invariant
                0 <= i <= n,
                n == self.windows@.len(),
                found == (id_count(self@.windows, id, i as int) > 0),
            decreases n - i,
        {
            if self.windows[i].id.0 == id.0 {
                found = true;
            }
            i = i + 1;
        }
        found
    }

    /// Whether the monitor `key` has a widget that is alive.
    pub fn contains_key_alt(&self, key: &str) -> (r: bool)
        ensures
            r == (key_count(self@.windows, key@, self@.windows.len() as int) > 0),
    {
        let n: usize = self.windows.len();
        let mut i: usize = 0;
        let mut found = false;
        while i < n
            invariant
                0 <= i <= n,
                n == self.windows@.len(),
                found == (key_count(self@.windows, key@, i as int) > 0),
            decreases n - i,
        {
            let same = match &self.windows[i].key {
                Some(k) => str_eq(k.as_str(), key),
                None => false,
            };
            if same {
                found = true;
            }
            i = i + 1;
        }
        found
    }

    /// Whether no window is alive.
    pub fn is_empty(&self) -> (r: bool)
        ensures
            r == (self@.windows.len() == 0),
    {
        self.windows.len() == 0
    }

    /// Puts a window into the registry, at its end. A window whose identity
    /// is taken, or whose monitor has a widget, is not put in.
    pub fn insert(&mut self, window: LiveWindow) -> (r: bool)
        ensures
            old(self).wf() ==> final(self).wf(),
            final(self)@.state == old(self)@.state,
            final(self)@.options == old(self)@.options,
            r == (id_count(old(self)@.windows, window.id, old(self)@.windows.len() as int) == 0
                && match window@.key {
                Some(k) => key_count(old(self)@.windows, k, old(self)@.windows.len() as int) == 0,
                None => true,
            }),
            r ==> final(self)@.windows == old(self)@.windows.push(window@),
            !r ==> final(self)@.windows == old(self)@.windows,
    {
        if self.contains_key(window.id) {
            return false;
        }
        let taken = match &window.key {
            Some(k) => self.contains_key_alt(k.as_str()),
            None => false,
        };
        if taken {
            return false;
        }
        let ghost before = self@.windows;
        let ghost added = window@;
        self.windows.push(window);
        proof {
            let after = self@.windows;
            assert(after =~= before.push(added));
            if registry_wf(before) {
                assert forall|id: WindowId| #[trigger] id_count(after, id, after.len() as int)
                    <= 1 by {
                    lemma_counts_of_prefix(before, after, before.len() as int, id, Seq::empty());
                    assert(id_count(before, id, before.len() as int) <= 1);
                }
                assert forall|key: Seq<char>| #[trigger] key_count(after, key, after.len() as int)
                    <= 1 by {
                    lemma_counts_of_prefix(before, after, before.len() as int, WindowId(0), key);
                    assert(key_count(before, key, before.len() as int) <= 1);
                }
            }
        }
        true
    }

    /// Closes the windows `doomed` and their dialogs: takes them out of the
    /// registry and gives their identities, in the order of the registry.
    pub fn close_windows(&mut self, doomed: &Vec<WindowId>) -> (r: Vec<WindowId>)
        ensures
            final(self)@.windows == remaining(
                old(self)@.windows,
                doomed@,
                old(self)@.windows.len() as int,
            ),
            r@ == closed_ids(old(self)@.windows, doomed@, old(self)@.windows.len() as int),
            final(self)@.state == old(self)@.state,
            final(self)@.options == old(self)@.options,
            old(self).wf() ==> final(self).wf(),
    {
        let ghost orig = self@.windows;
        let mut closed: Vec<WindowId> = Vec::new();
        let mut i: usize = 0;
        let ghost mut k: int = 0;
        while i < self.windows.len()
            invariant
                0 <= k <= orig.len(),
                i == remaining(orig, doomed@, k).len(),
                self.windows@.len() == i + orig.len() - k,
                forall|j: int| 0 <= j < i ==> self.windows@[j]@ == remaining(orig, doomed@, k)[j],
                forall|j: int|
                    i <= j < self.windows@.len() ==> self.windows@[j]@ == orig[k + j - i],
                closed@ == closed_ids(orig, doomed@, k),
                self.state@ == old(self).state@,
                self.options == old(self).options,
            decreases orig.len() - k,
        {
            if window_goes(&self.windows[i], doomed) {
                closed.push(self.windows[i].id);
                let _ = self.windows.remove(i);
            } else {
                i = i + 1;
            }
            proof {
                k = k + 1;
            }
        }
        proof {
            assert(k == orig.len());
            assert(self@.windows =~= remaining(orig, doomed@, orig.len() as int));
            if registry_wf(orig) {
                lemma_remaining_wf(orig, doomed@);
            }
        }
        closed
    }

    /// Closes the window `id` and its dialog.
    pub fn remove(&mut self, id: WindowId) -> (r: Vec<WindowId>)
        ensures
            final(self)@.windows == remaining(
                old(self)@.windows,
                seq![id],
                old(self)@.windows.len() as int,
            ),
            r@ == closed_ids(old(self)@.windows, seq![id], old(self)@.windows.len() as int),
            final(self)@.state == old(self)@.state,
            final(self)@.options == old(self)@.options,
            old(self).wf() ==> final(self).wf(),
    {
        let mut doomed: Vec<WindowId> = Vec::new();
        doomed.push(id);
        assert(doomed@ =~= seq![id]);
        self.close_windows(&doomed)
    }

    /// The widgets to make: one for each monitor of the snapshot that has
    /// none, where a taskbar is found for it.
    pub fn create_switchers(&self, taskbars: &Vec<Taskbar>) -> (r: Vec<SwitcherRequest>)
        ensures
            request_views(r@) == requests_for(
                self@.windows,
                self@.state.monitors,
                taskbars@,
                self@.state.monitors.len() as int,
            ),
    {
        let mut out: Vec<SwitcherRequest> = Vec::new();
        let n: usize = self.state.monitors.len();
        let mut i: usize = 0;
        assert(request_views(out@) =~= Seq::empty());
        while i < n
            invariant
                0 <= i <= n,
                n == self.state.monitors@.len(),
                request_views(out@) == requests_for(
                    self@.windows,
                    self@.state.monitors,
                    taskbars@,
                    i as int,
                ),
            decreases n - i,
        {
            let monitor = &self.state.monitors[i];
            let ghost before = request_views(out@);
            match select_taskbar(taskbars, monitor.rect, monitor.index) {
                Some(t) => {
                    if !self.contains_key_alt(monitor.id.as_str()) && !is_requested(
                        &out,
                        monitor.id.as_str(),
                    ) {
                        out.push(SwitcherRequest { monitor: monitor.clone(), taskbar: taskbars[t] });
                        assert(request_views(out@) =~= before.push(
                            SwitcherRequestView { monitor: monitor@, taskbar: taskbars@[t as int] },
                        ));
                    }
                },
                None => {},
            }
            i = i + 1;
        }
        out
    }

    /// The identities of the widgets whose monitor the snapshot `state`
    /// does not hold.
    pub fn orphaned_windows(&self, state: &State) -> (r: Vec<WindowId>)
        ensures
            r@ == orphans(self@.windows, state@, self@.windows.len() as int),
    {
        let mut out: Vec<WindowId> = Vec::new();
        let n: usize = self.windows.len();
        let mut i: usize = 0;
        while i < n
            invariant
                0 <= i <= n,
                n == self.windows@.len(),
                out@ == orphans(self@.windows, state@, i as int),
            decreases n - i,
        {
            let gone = match &self.windows[i].key {
                Some(k) => find_monitor(&state.monitors, k.as_str()).is_none(),
                None => false,
            };
            if gone {
                out.push(self.windows[i].id);
            }
            i = i + 1;
        }
        out
    }
}

/// A dialog that is to be made: the widget that it moves and resizes, the
/// widget's host window, its geometry, and the key of its record.
#[derive(Debug)]
pub struct ResizeRequest {
    pub window_id: WindowId,
    pub host: isize,
    pub info: WindowRegistryInfo,
    pub subkey: String,
}

/// A request for a dialog as a plain value.
pub struct ResizeRequestView {
    pub window_id: WindowId,
    pub host: isize,
    pub info: WindowRegistryInfo,
    pub subkey: Seq<char>,
}

impl View for ResizeRequest {
    type V = ResizeRequestView;

    open spec fn view(&self) -> ResizeRequestView {
        ResizeRequestView {
            window_id: self.window_id,
            host: self.host,
            info: self.info,
            subkey: self.subkey@,
        }
    }
}

/// What a message asks of the program around the manager.
#[derive(Debug)]
pub struct AppOutcome {
    /// The windows that were closed: what they hold is to be released.
    pub closed: Vec<WindowId>,
    /// The widgets to make. One that cannot be made is left out; the next
    /// snapshot asks for it again.
    pub switchers: Vec<SwitcherRequest>,
    /// The dialog to make.
    pub resize: Option<ResizeRequest>,
}

/// The windows after `message`: a snapshot closes the widgets whose monitor
/// it does not hold, a request to close a window closes that window, each
/// with its dialog; nothing else closes a window.
pub open spec fn windows_after(ws: Seq<LiveWindowModel>, message: AppMessageView) -> Seq<
    LiveWindowModel,
> {
    match message {
        AppMessageView::UpdateState(state) => remaining(
            ws,
            orphans(ws, state, ws.len() as int),
            ws.len() as int,
        ),
        AppMessageView::CloseWindow(id) => remaining(ws, seq![id], ws.len() as int),
        _ => ws,
    }
}

/// The identities of the windows that `message` closes, in order.
pub open spec fn closed_by(ws: Seq<LiveWindowModel>, message: AppMessageView) -> Seq<WindowId> {
    match message {
        AppMessageView::UpdateState(state) => closed_ids(
            ws,
            orphans(ws, state, ws.len() as int),
            ws.len() as int,
        ),
        AppMessageView::CloseWindow(id) => closed_ids(ws, seq![id], ws.len() as int),
        _ => Seq::empty(),
    }
}

/// The snapshot after `message`.
pub open spec fn state_after(state: StateView, message: AppMessageView) -> StateView {
    match message {
        AppMessageView::UpdateState(new) => new,
        _ => state,
    }
}

/// The widgets that `message` asks for: those that a snapshot lacks.
pub open spec fn switchers_for(
    ws: Seq<LiveWindowModel>,
    message: AppMessageView,
    taskbars: Seq<Taskbar>,
) -> Seq<SwitcherRequestView> {
    match message {
        AppMessageView::UpdateState(state) => requests_for(
            windows_after(ws, message),
            state.monitors,
            taskbars,
            state.monitors.len() as int,
        ),
        _ => Seq::empty(),
    }
}

/// The dialog that `message` asks for: that of a widget which is alive. A
/// request for the dialog of a window that is gone is dropped.
pub open spec fn resize_for(ws: Seq<LiveWindowModel>, message: AppMessageView) -> Option<
    ResizeRequestView,
> {
    match message {
        AppMessageView::CreateResizeWindow { host, info, subkey, window_id } => if id_count(
            ws,
            window_id,
            ws.len() as int,
        ) > 0 {
            Some(ResizeRequestView { window_id, host, info, subkey })
        } else {
            None
        },
        _ => None,
    }
}

/// The view of a request that may be missing.
pub open spec fn resize_view(r: Option<ResizeRequest>) -> Option<ResizeRequestView> {
    match r {
        Some(r) => Some(r@),
        None => None,
    }
}

/// A window after it was told `message`: a widget takes it as
/// `widget_after` says, a dialog takes no message.
pub open spec fn window_after(w: LiveWindowModel, message: AppMessageView) -> LiveWindowModel {
    match w.view {
        WindowModel::Switcher(v) => LiveWindowModel {
            view: WindowModel::Switcher(widget_after(v, message)),
            ..w
        },
        WindowModel::Resize(_) => w,
    }
}

/// The windows after each was told `message`.
pub open spec fn windows_told(ws: Seq<LiveWindowModel>, message: AppMessageView) -> Seq<
    LiveWindowModel,
> {
    Seq::new(ws.len(), |i: int| window_after(ws[i], message))
}

/// What a window asks for after a message.
#[derive(Debug)]
pub struct WindowAction {
    pub window: WindowId,
    pub action: SwitcherAction,
}

/// A window's action as a plain value.
pub struct WindowActionView {
    pub window: WindowId,
    pub action: SwitcherActionView,
}

impl View for WindowAction {
    type V = WindowActionView;

    open spec fn view(&self) -> WindowActionView {
        WindowActionView { window: self.window, action: self.action@ }
    }
}

/// The actions of `actions` as plain values, in order.
pub open spec fn action_views(actions: Seq<WindowAction>) -> Seq<WindowActionView> {
    Seq::new(actions.len(), |i: int| actions[i]@)
}

/// What the window `w` asks for after `message`.
pub open spec fn window_action(w: LiveWindowModel, message: AppMessageView) -> WindowActionView {
    WindowActionView {
        window: w.id,
        action: match w.view {
            WindowModel::Switcher(v) => action_after(v, message),
            WindowModel::Resize(_) => SwitcherActionView::Nothing,
        },
    }
}

/// What the windows ask for after `message`, one action for each window.
pub open spec fn actions_told(ws: Seq<LiveWindowModel>, message: AppMessageView) -> Seq<
    WindowActionView,
> {
    Seq::new(ws.len(), |i: int| window_action(ws[i], message))
}

/// What an event of the window system asks of the program around.
#[derive(Debug)]
pub struct WindowOutcome {
    /// The windows that were closed.
    pub closed: Vec<WindowId>,
    /// Where a dialog was asked to close: what going back takes.
    pub rollback: Option<ResizeRollback>,
    /// Whether the event loop is to end: the last window was asked to close.
    pub exit: bool,
    /// Whether the event is handed on to the window.
    pub deliver: bool,
}

/// Whether `event` closes the window that it is about.
pub open spec fn closes(event: WindowEvent) -> bool {
    event == WindowEvent::Destroyed || event == WindowEvent::CloseRequested
}

/// The windows after `event` of the window `id`.
pub open spec fn windows_after_event(
    ws: Seq<LiveWindowModel>,
    id: WindowId,
    event: WindowEvent,
) -> Seq<LiveWindowModel> {
    if closes(event) {
        remaining(ws, seq![id], ws.len() as int)
    } else {
        ws
    }
}

/// What going back takes when the window `id` is asked to close, where `id`
/// is a dialog.
pub open spec fn rollback_for(
    ws: Seq<LiveWindowModel>,
    id: WindowId,
    event: WindowEvent,
    content_width: i32,
    container_height: i32,
) -> Option<ResizeRollbackView> {
    if event == WindowEvent::CloseRequested {
        match window_index(ws, id, 0) {
            Some(i) => match ws[i].view {
                WindowModel::Resize(r) => Some(r.rollback(content_width, container_height)),
                WindowModel::Switcher(_) => None,
            },
            None => None,
        }
    } else {
        None
    }
}

/// Telling the windows a message leaves a sound registry sound.
pub proof fn lemma_told_wf(ws: Seq<LiveWindowModel>, message: AppMessageView)
    requires
        registry_wf(ws),
    ensures
        registry_wf(windows_told(ws, message)),
{
    let after = windows_told(ws, message);
    assert forall|id: WindowId| #[trigger] id_count(after, id, after.len() as int) <= 1 by {
        lemma_counts_of_identities(ws, after, ws.len() as int, id, Seq::empty());
        assert(id_count(ws, id, ws.len() as int) <= 1);
    }
    assert forall|key: Seq<char>| #[trigger] key_count(after, key, after.len() as int) <= 1 by {
        lemma_counts_of_identities(ws, after, ws.len() as int, WindowId(0), key);
        assert(key_count(ws, key, ws.len() as int) <= 1);
    }
}

impl App {
    /// Handles one message: closes the windows that it closes and says
    /// which windows are to be made.
    pub fn handle_app_message(&mut self, message: &AppMessage, taskbars: &Vec<Taskbar>) -> (r:
        AppOutcome)
        ensures
            final(self)@.windows == windows_after(old(self)@.windows, message@),
            final(self)@.state == state_after(old(self)@.state, message@),
            final(self)@.options == old(self)@.options,
            old(self).wf() ==> final(self).wf(),
            r.closed@ == closed_by(old(self)@.windows, message@),
            request_views(r.switchers@) == switchers_for(
                old(self)@.windows,
                message@,
                taskbars@,
            ),
            resize_view(r.resize) == resize_for(old(self)@.windows, message@),
    {
        match message {
            AppMessage::CreateResizeWindow { host, info, subkey, window_id } => {
                let resize = if self.contains_key(*window_id) {
                    Some(
                        ResizeRequest {
                            window_id: *window_id,
                            host: *host,
                            info: *info,
                            subkey: subkey.clone(),
                        },
                    )
                } else {
                    None
                };
                let switchers: Vec<SwitcherRequest> = Vec::new();
                assert(request_views(switchers@) =~= Seq::empty());
                AppOutcome { closed: Vec::new(), switchers, resize }
            },
            AppMessage::CloseWindow(id) => {
                let closed = self.remove(*id);
                let switchers: Vec<SwitcherRequest> = Vec::new();
                assert(request_views(switchers@) =~= Seq::empty());
                AppOutcome { closed, switchers, resize: None }
            },
            AppMessage::UpdateState(state) => {
                self.state = state.clone();
                let doomed = self.orphaned_windows(state);
                let closed = self.close_windows(&doomed);
                let switchers = self.create_switchers(taskbars);
                AppOutcome { closed, switchers, resize: None }
            },
            _ => {
                let switchers: Vec<SwitcherRequest> = Vec::new();
                assert(request_views(switchers@) =~= Seq::empty());
                AppOutcome { closed: Vec::new(), switchers, resize: None }
            },
        }
    }

    /// Tells each window the message, and gives what each asks for, in the
    /// order of the registry.
    pub fn notify_windows(&mut self, message: &AppMessage) -> (r: Vec<WindowAction>)
        ensures
            final(self)@.windows == windows_told(old(self)@.windows, message@),
            final(self)@.state == old(self)@.state,
            final(self)@.options == old(self)@.options,
            old(self).wf() ==> final(self).wf(),
            action_views(r@) == actions_told(old(self)@.windows, message@),
    {
        let ghost orig = self@.windows;
        let mut actions: Vec<WindowAction> = Vec::new();
        let n: usize = self.windows.len();
        let mut i: usize = 0;
        while i < n
            invariant
                0 <= i <= n,
                n == orig.len(),
                self.windows@.len() == n,
                forall|j: int| 0 <= j < i ==> self.windows@[j]@ == window_after(orig[j], message@),
                forall|j: int| i <= j < n ==> self.windows@[j]@ == orig[j],
                actions@.len() == i,
                forall|j: int| 0 <= j < i ==> actions@[j]@ == window_action(orig[j], message@),
                self.state@ == old(self).state@,
                self.options == old(self).options,
            decreases n - i,
        {
            let mut window = self.windows.remove(i);
            let action = match &mut window.view {
                WindowView::Switcher(v) => v.handle_app_message(message),
                WindowView::Resize(_) => SwitcherAction::Nothing,
            };
            actions.push(WindowAction { window: window.id, action });
            self.windows.insert(i, window);
            i = i + 1;
        }
        proof {
            assert(self@.windows =~= windows_told(orig, message@));
            assert(action_views(actions@) =~= actions_told(orig, message@));
            if registry_wf(orig) {
                lemma_told_wf(orig, message@);
            }
        }
        actions
    }

    /// Handles one message of the event loop to its end: the manager first,
    /// then each window that is still alive.
    pub fn user_event(&mut self, message: &AppMessage, taskbars: &Vec<Taskbar>) -> (r: (
        AppOutcome,
        Vec<WindowAction>,
    ))
        ensures
            final(self)@.windows == windows_told(
                windows_after(old(self)@.windows, message@),
                message@,
            ),
            final(self)@.state == state_after(old(self)@.state, message@),
            final(self)@.options == old(self)@.options,
            old(self).wf() ==> final(self).wf(),
            r.0.closed@ == closed_by(old(self)@.windows, message@),
            request_views(r.0.switchers@) == switchers_for(
                old(self)@.windows,
                message@,
                taskbars@,
            ),
            resize_view(r.0.resize) == resize_for(old(self)@.windows, message@),
            action_views(r.1@) == actions_told(
                windows_after(old(self)@.windows, message@),
                message@,
            ),
    {
        let outcome = self.handle_app_message(message, taskbars);
        let actions = self.notify_windows(message);
        (outcome, actions)
    }

    /// The place of the window `id` in the registry.
    pub fn find_window(&self, id: WindowId) -> (r: Option<usize>)
        ensures
            match r {
                Some(i) => window_index(self@.windows, id, 0) == Some(i as int) && i
                    < self.windows@.len() && self.windows@[i as int].id == id,
                None => window_index(self@.windows, id, 0) is None,
            },
    {
        let n: usize = self.windows.len();
        let mut i: usize = 0;
        while i < n
            invariant
                0 <= i <= n,
                n == self.windows@.len(),
                window_index(self@.windows, id, 0) == window_index(self@.windows, id, i as int),
            decreases n - i,
        {
            if self.windows[i].id.0 == id.0 {
                return Some(i);
            }
            i = i + 1;
        }
        None
    }

    /// Handles one event of the window system about the window `window_id`.
    /// A window that is gone or asked to close is taken out of the registry
    /// with its dialog; a dialog that is asked to close puts the host back
    /// first. The measured sizes count where the geometry at entry has
    /// automatic sizes.
    pub fn window_event(
        &mut self,
        window_id: WindowId,
        event: WindowEvent,
        content_width: i32,
        container_height: i32,
    ) -> (r: WindowOutcome)
        ensures
            final(self)@.windows == windows_after_event(old(self)@.windows, window_id, event),
            final(self)@.state == old(self)@.state,
            final(self)@.options == old(self)@.options,
            old(self).wf() ==> final(self).wf(),
            r.closed@ == if closes(event) {
                closed_ids(old(self)@.windows, seq![window_id], old(self)@.windows.len() as int)
            } else {
                Seq::empty()
            },
            rollback_view(r.rollback) == rollback_for(
                old(self)@.windows,
                window_id,
                event,
                content_width,
                container_height,
            ),
            r.exit == (event == WindowEvent::CloseRequested && final(self)@.windows.len() == 0),
            r.deliver == (!closes(event) && window_index(old(self)@.windows, window_id, 0) is Some),
    {
        match event {
            WindowEvent::Destroyed => {
                let closed = self.remove(window_id);
                WindowOutcome { closed, rollback: None, exit: false, deliver: false }
            },
            WindowEvent::CloseRequested => {
                let rollback = match self.find_window(window_id) {
                    Some(i) => match &self.windows[i].view {
                        WindowView::Resize(r) => Some(
                            r.rollback(content_width, container_height),
                        ),
                        WindowView::Switcher(_) => None,
                    },
                    None => None,
                };
                let closed = self.remove(window_id);
                let exit = self.windows.len() == 0;
                WindowOutcome { closed, rollback, exit, deliver: false }
            },
            WindowEvent::Other => {
                let deliver = self.find_window(window_id).is_some();
                WindowOutcome { closed: Vec::new(), rollback: None, exit: false, deliver }
            },
        }
    }
}

/// The label of a widget in the menu of the tray: the name of its monitor,
/// a hyphen, and the monitor's identity.
pub open spec fn switcher_label(m: MonitorView) -> Seq<char> {
    m.name + "-"@ + m.id
}

/// The item of a widget in the menu of the tray: the identity of the
/// widget's monitor, and the label that the item shows.
#[derive(Debug)]
pub struct SwitcherItem {
    pub id: String,
    pub label: String,
}

/// An item as a plain value.
pub struct SwitcherItemView {
    pub id: Seq<char>,
    pub label: Seq<char>,
}

impl View for SwitcherItem {
    type V = SwitcherItemView;

    open spec fn view(&self) -> SwitcherItemView {
        SwitcherItemView { id: self.id@, label: self.label@ }
    }
}

/// The items of `items` as plain values, in order.
pub open spec fn item_views(items: Seq<SwitcherItem>) -> Seq<SwitcherItemView> {
    Seq::new(items.len(), |i: int| items[i]@)
}

/// The items for those of the first `n` monitors that have a widget, in
/// order.
pub open spec fn items_for(ws: Seq<LiveWindowModel>, monitors: Seq<MonitorView>, n: int) -> Seq<
    SwitcherItemView,
>
    decreases n,
{
    if n <= 0 || n > monitors.len() {
        Seq::empty()
    } else if key_count(ws, monitors[n - 1].id, ws.len() as int) > 0 {
        items_for(ws, monitors, n - 1).push(
            SwitcherItemView { id: monitors[n - 1].id, label: switcher_label(monitors[n - 1]) },
        )
    } else {
        items_for(ws, monitors, n - 1)
    }
}

impl App {
    /// Puts a widget into the registry, under the identity of its monitor.
    /// It is not put in where its monitor has a widget already or its window's
    /// identity is taken.
    pub fn insert_switcher(&mut self, view: SwitcherWindowView) -> (r: bool)
        ensures
            old(self).wf() ==> final(self).wf(),
            final(self)@.state == old(self)@.state,
            final(self)@.options == old(self)@.options,
            r == (id_count(old(self)@.windows, view.window_id, old(self)@.windows.len() as int)
                == 0 && key_count(
                old(self)@.windows,
                view@.monitor_state.id,
                old(self)@.windows.len() as int,
            ) == 0),
            r ==> final(self)@.windows == old(self)@.windows.push(
                LiveWindowModel {
                    id: view.window_id,
                    key: Some(view@.monitor_state.id),
                    view: WindowModel::Switcher(view@),
                },
            ),
            !r ==> final(self)@.windows == old(self)@.windows,
    {
        let id = view.window_id;
        let key = view.monitor_state.id.clone();
        self.insert(LiveWindow { id, key: Some(key), view: WindowView::Switcher(view) })
    }

    /// Puts a dialog into the registry. It is not put in where the widget
    /// that it is for is gone, or its window's identity is taken.
    pub fn insert_resize(&mut self, view: ResizeWindowView) -> (r: bool)
        ensures
            old(self).wf() ==> final(self).wf(),
            final(self)@.state == old(self)@.state,
            final(self)@.options == old(self)@.options,
            r == (id_count(
                old(self)@.windows,
                view.self_window_id,
                old(self)@.windows.len() as int,
            ) == 0 && id_count(old(self)@.windows, view.window_id, old(self)@.windows.len() as int)
                > 0),
            r ==> final(self)@.windows == old(self)@.windows.push(
                LiveWindowModel {
                    id: view.self_window_id,
                    key: None,
                    view: WindowModel::Resize(view@),
                },
            ),
            !r ==> final(self)@.windows == old(self)@.windows,
    {
        if !self.contains_key(view.window_id) {
            return false;
        }
        let id = view.self_window_id;
        self.insert(LiveWindow { id, key: None, view: WindowView::Resize(view) })
    }

    /// The items of the widgets for the menu of the tray: one for each
    /// monitor of the snapshot that has a widget.
    pub fn switcher_items(&self) -> (r: Vec<SwitcherItem>)
        ensures
            item_views(r@) == items_for(
                self@.windows,
                self@.state.monitors,
                self@.state.monitors.len() as int,
            ),
    {
        let mut out: Vec<SwitcherItem> = Vec::new();
        let n: usize = self.state.monitors.len();
        let mut i: usize = 0;
        assert(item_views(out@) =~= Seq::empty());
        while i < n
            invariant
                0 <= i <= n,
                n == self.state.monitors@.len(),
                item_views(out@) == items_for(self@.windows, self@.state.monitors, i as int),
            decreases n - i,
        {
            let m = &self.state.monitors[i];
            let ghost before = item_views(out@);
            if self.contains_key_alt(m.id.as_str()) {
                let mut label = m.name.clone();
                label.append("-");
                label.append(m.id.as_str());
                out.push(SwitcherItem { id: m.id.clone(), label });
                assert(item_views(out@) =~= before.push(
                    SwitcherItemView { id: m@.id, label: switcher_label(m@) },
                ));
            }
            i = i + 1;
        }
        out
    }
}

} // verus!
