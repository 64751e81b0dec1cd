//! What the responders decide, apart from the windows that they show.

pub mod account_window;
pub mod app_chooser;
pub mod file_chooser;
