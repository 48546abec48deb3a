//! The reconciliation core of a taskbar workspace switcher: the state model,
//! the clients of the window managers, the geometry store and the life cycle
//! of the widgets.

pub mod app;
pub mod glazewm;
pub mod json;
pub mod komorebi;
pub mod message;
pub mod options;
pub mod state;
pub mod taskbar;
pub mod text;
pub mod tray_icon;
pub mod window_registry_info;
pub mod windows;
