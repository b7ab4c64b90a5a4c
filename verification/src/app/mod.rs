//! The state of the user interface that is independent of any terminal:
//! which panel has the focus, which dialog is open, what is selected.

pub mod dispatch;
pub mod modes;
pub mod playback;
pub mod selection;
pub mod sorting;
pub mod tracks;

pub use modes::{ConfirmAction, InputMode, Panel, SettingsSelection};
pub use selection::LayoutAreas;
