//! The music library: tracks, playlists and loaded folders.

pub mod artwork;
pub mod playlist;
pub mod scanner;
pub mod track;

pub use playlist::{LoadedFolder, Playlist};
pub use track::{AudioFormat, Track};
