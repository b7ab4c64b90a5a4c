//! Playback engine and sample capture.

pub mod player;
pub mod spectrum;

pub use player::{AudioPlayer, PlaybackState};
pub use spectrum::SampleBuffer;
