use vstd::prelude::*;

verus! {

/// The foreground window as the platform reports it.
#[derive(Debug, Clone)]
pub struct WindowInfo {
    pub title: String,
    pub process_name: String,
    pub process_id: u32,
    pub app_name: String,
    pub window_title: String,
}

/// Whether the application shows an icon in the dock.
#[derive(Debug, Clone, Copy, PartialEq, Eq, Structural)]
pub enum DockIconVisibility {
    Visible,
    Hidden,
}

/// A desktop notification with optional buttons.
#[derive(Debug, Clone)]
pub struct NotificationOptions {
    pub title: String,
    pub message: String,
    pub sound: bool,
    pub action_button: Option<String>,
    pub cancel_button: Option<String>,
}

} // verus!
