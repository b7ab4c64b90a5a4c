use crate::audio::player::duration_nanos;
use crate::library::track::{format_of_path, Track};
use crate::paths::{file_stem_of, path_file_stem};
use std::path::PathBuf;
use std::time::Duration;
use vstd::prelude::*;
use vstd::string::StringExecFns;

verus! {

/// What a scan of a folder reports while it runs.
pub enum ScanEvent {
    TrackFound(Track),
    ScanComplete { folder: String, count: usize },
    Error { path: String, error: String },
}

/// What the tags of a file say, as far as the library keeps it.
pub struct TagData {
    pub title: Option<String>,
    pub artist: Option<String>,
    pub album: Option<String>,
    pub track_number: Option<u32>,
    pub disc_number: Option<u32>,
    pub album_artist: Option<String>,
    /// The first picture in the tags, still encoded.
    pub picture: Option<Vec<u8>>,
}

/// What could be read from an audio file.
pub enum Probed {
    /// The file was understood: its length, and its tags if it has any.
    Tagged { duration: Duration, tag: Option<TagData> },
    /// The file could not be read as tagged audio; `duration` is what the
    /// decoder could tell of its length, if anything.
    Unreadable { duration: Option<Duration> },
}

/// A text that a tag gives, or else what was there before.
pub open spec fn or_kept(given: Option<String>, kept: Seq<char>) -> Seq<char> {
    match given {
        Some(text) => text@,
        None => kept,
    }
}

/// The title of a file without tags: its name without the extension, or
/// "Unknown".
pub open spec fn fallback_title(path: PathBuf) -> Seq<char> {
    match file_stem_of(path) {
        Some(stem) => stem,
        None => "Unknown"@,
    }
}

/// The track for the file at `path` from what was read of it. Tags win over
/// the defaults: a title from the file name, an unknown artist and album.
/// Track and disc number are what the tags say, also where they say
/// nothing. A file whose tags could not be read keeps the defaults, with
/// the length that the decoder found or none.
pub fn track_from_metadata(path: PathBuf, probed: Probed) -> (track: Track)
    ensures
        track.path == path,
        track.format == format_of_path(path),
        match probed {
            Probed::Tagged { duration, tag: Some(tag) } => {
                &&& track.duration == duration
                &&& track.title@ == or_kept(tag.title, fallback_title(path))
                &&& track.artist@ == or_kept(tag.artist, "Unknown Artist"@)
                &&& track.album@ == or_kept(tag.album, "Unknown Album"@)
                &&& track.track_number == tag.track_number
                &&& track.disc_number == tag.disc_number
                &&& track.album_artist == tag.album_artist
                &&& track.album_art_data == tag.picture
            },
            Probed::Tagged { duration, tag: None } => {
                &&& track.duration == duration
                &&& track.title@ == fallback_title(path)
                &&& track.artist@ == "Unknown Artist"@
                &&& track.album@ == "Unknown Album"@
                &&& track.track_number is None
                &&& track.disc_number is None
                &&& track.album_artist is None
                &&& track.album_art_data is None
            },
            Probed::Unreadable { duration } => {
                &&& match duration {
                    Some(d) => track.duration == d,
                    None => duration_nanos(track.duration) == 0,
                }
                &&& track.title@ == fallback_title(path)
                &&& track.artist@ == "Unknown Artist"@
                &&& track.album@ == "Unknown Album"@
                &&& track.track_number is None
                &&& track.disc_number is None
                &&& track.album_artist is None
                &&& track.album_art_data is None
            },
        },
{
    let stem = path_file_stem(&path);
    let mut track = Track::new(path);
    track.title = match stem {
        Some(s) => s,
        None => String::from_str("Unknown"),
    };
    match probed {
        Probed::Tagged { duration, tag } => {
            track.duration = duration;
            match tag {
                Some(tag) => {
                    match tag.title {
                        Some(title) => {
                            track.title = title;
                        },
                        None => {},
                    }
                    match tag.artist {
                        Some(artist) => {
                            track.artist = artist;
                        },
                        None => {},
                    }
                    match tag.album {
                        Some(album) => {
                            track.album = album;
                        },
                        None => {},
                    }
                    track.track_number = tag.track_number;
                    track.disc_number = tag.disc_number;
                    match tag.album_artist {
                        Some(album_artist) => {
                            track.album_artist = Some(album_artist);
                        },
                        None => {},
                    }
                    match tag.picture {
                        Some(picture) => {
                            track.album_art_data = Some(picture);
                        },
                        None => {},
                    }
                },
                None => {},
            }
        },
        Probed::Unreadable { duration } => {
            match duration {
                Some(d) => {
                    track.duration = d;
                },
                None => {},
            }
        },
    }
    track
}

} // verus!
