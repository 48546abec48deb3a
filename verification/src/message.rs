//! What the event loop hands on: the messages of the widgets, of the menus
//! and of the thread that listens to the window manager.

use vstd::prelude::*;
use vstd::string::*;
use crate::state::{State, StateView};
use crate::window_registry_info::WindowRegistryInfo;

verus! {

/// The identity of a window of the widget: the number that the window system
/// gave it.
#[derive(Clone, Copy, Debug, PartialEq, Eq, Structural)]
pub struct WindowId(pub u64);

/// What the window system tells of a window, as far as the life cycle of the
/// windows depends on it.
#[derive(Clone, Copy, Debug, PartialEq, Eq, Structural)]
pub enum WindowEvent {
    /// The window is gone.
    Destroyed,
    /// The user or the system asks to close the window.
    CloseRequested,
    /// Anything else: input, a resize, a request to draw.
    Other,
}

/// One message of the event loop. The loop handles one message to its end
/// before it takes the next, in the order in which they came.
#[derive(Debug)]
pub enum AppMessage {
    /// The window manager has a new state.
    UpdateState(State),
    /// An item of a menu was chosen: the item's identifier.
    MenuEvent(String),
    /// The colours or the theme of the system changed.
    SystemSettingsChanged,
    /// The resolution of a display changed.
    DpiChanged,
    /// The widget of this monitor is to be moved and resized.
    StartMoveResize(String),
    /// The dialog to move and resize the widget `window_id` is to be made.
    CreateResizeWindow { host: isize, info: WindowRegistryInfo, subkey: String, window_id: WindowId },
    /// The window is to be closed.
    CloseWindow(WindowId),
    /// The geometry of the widget was saved.
    NotifyWindowInfoChanges(WindowId, WindowRegistryInfo),
}

/// A message as a plain value.
pub enum AppMessageView {
    UpdateState(StateView),
    MenuEvent(Seq<char>),
    SystemSettingsChanged,
    DpiChanged,
    StartMoveResize(Seq<char>),
    CreateResizeWindow { host: isize, info: WindowRegistryInfo, subkey: Seq<char>, window_id: WindowId },
    CloseWindow(WindowId),
    NotifyWindowInfoChanges(WindowId, WindowRegistryInfo),
}

impl View for AppMessage {
    type V = AppMessageView;

    open spec fn view(&self) -> AppMessageView {
        match self {
            AppMessage::UpdateState(state) => AppMessageView::UpdateState(state@),
            AppMessage::MenuEvent(id) => AppMessageView::MenuEvent(id@),
            AppMessage::SystemSettingsChanged => AppMessageView::SystemSettingsChanged,
            AppMessage::DpiChanged => AppMessageView::DpiChanged,
            AppMessage::StartMoveResize(id) => AppMessageView::StartMoveResize(id@),
            AppMessage::CreateResizeWindow { host, info, subkey, window_id } => {
                AppMessageView::CreateResizeWindow {
                    host: *host,
                    info: *info,
                    subkey: subkey@,
                    window_id: *window_id,
                }
            },
            AppMessage::CloseWindow(id) => AppMessageView::CloseWindow(*id),
            AppMessage::NotifyWindowInfoChanges(id, info) => {
                AppMessageView::NotifyWindowInfoChanges(*id, *info)
            },
        }
    }
}

impl Clone for AppMessage {
    fn clone(&self) -> (r: AppMessage)
        ensures
            r@ == self@,
    {
        match self {
            AppMessage::UpdateState(state) => AppMessage::UpdateState(state.clone()),
            AppMessage::MenuEvent(id) => AppMessage::MenuEvent(id.clone()),
            AppMessage::SystemSettingsChanged => AppMessage::SystemSettingsChanged,
            AppMessage::DpiChanged => AppMessage::DpiChanged,
            AppMessage::StartMoveResize(id) => AppMessage::StartMoveResize(id.clone()),
            AppMessage::CreateResizeWindow { host, info, subkey, window_id } => {
                AppMessage::CreateResizeWindow {
                    host: *host,
                    info: *info,
                    subkey: subkey.clone(),
                    window_id: *window_id,
                }
            },
            AppMessage::CloseWindow(id) => AppMessage::CloseWindow(*id),
            AppMessage::NotifyWindowInfoChanges(id, info) => AppMessage::NotifyWindowInfoChanges(
                *id,
                *info,
            ),
        }
    }
}

} // verus!
