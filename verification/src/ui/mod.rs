//! State of the control-window widgets and windows (drawing is done by the
//! application with imgui).

pub mod widgets;
pub mod windows;
