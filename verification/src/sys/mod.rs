//! What happens to the windows of other programs, and what is drawn on them.

pub mod badge;
pub mod native_prefs;
pub mod overlay;
pub mod overlay_laws;
pub mod tray;
pub mod win_event;
pub mod window;
