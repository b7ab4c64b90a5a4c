//! What the screens show, as far as it can be decided without a terminal.

pub mod file_browser;
pub mod layout;
pub mod now_playing;
pub mod spectrum;
pub mod track_list;

pub use file_browser::{DirEntry, FileBrowser, FileBrowserWidget};
