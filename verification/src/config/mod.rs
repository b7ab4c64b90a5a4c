//! Settings that outlive a session.

pub mod persistence;
pub mod theme;

pub use persistence::{AppConfig, RepeatMode, SortMode};
pub use theme::{Theme, ThemePreset};
