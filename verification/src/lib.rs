//! Auric: the logic of a terminal music player.
//!
//! The playback engine is a state machine over plain values: it decides what
//! the output sink has to do and which event is raised, and leaves the device
//! itself to the program around it. The spectrum side keeps the ring buffer of
//! recent samples in the order in which the analyzer reads them. Around the
//! two stand the library of tracks with its sorting and filtering, the state
//! of the interface, and what the screens need to know before they draw.

pub mod app;
pub mod audio;
pub mod config;
pub mod events;
pub mod ids;
pub mod library;
pub mod paths;
pub mod text;
pub mod ui;
