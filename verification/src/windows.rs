//! The windows of the widget and what each of them decides.

pub mod resize;
pub mod switcher;
