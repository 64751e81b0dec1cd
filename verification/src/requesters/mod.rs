//! The requesters, one for each portal interface that the backend serves.

pub mod account;
pub mod app_chooser;
pub mod file_chooser;

pub use account::Account;
pub use app_chooser::AppChooser;
pub use file_chooser::FileChooser;
