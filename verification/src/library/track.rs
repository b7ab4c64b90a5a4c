use crate::audio::player::{duration_nanos, NANOS_PER_SEC};
use crate::ids::{fresh_uuid, id_from_text, now, parsed_time, parsed_uuid, time_from_text, uuid_bits, Timestamp};
use crate::paths::{extension_of, path_extension};
use crate::text::{lowercase_of, str_eq, to_lowercase};
use crate::ui::now_playing::{clock_text, format_duration};
use std::path::PathBuf;
use std::time::Duration;
use uuid::Uuid;
use vstd::prelude::*;
use vstd::string::StringExecFns;

verus! {

/// The audio formats that the player knows by their file extension.
#[derive(Debug, Clone, Copy, PartialEq, Eq, Structural)]
pub enum AudioFormat {
    Flac,
    Wav,
    Alac,
    Ape,
    Aiff,
    Mp3,
    Unknown,
}

impl AudioFormat {
    /// The format that a lower-case extension stands for.
    pub open spec fn of_lowercase(ext: Seq<char>) -> AudioFormat {
        if ext == "flac"@ {
            AudioFormat::Flac
        } else if ext == "wav"@ {
            AudioFormat::Wav
        } else if ext == "m4a"@ || ext == "alac"@ {
            AudioFormat::Alac
        } else if ext == "ape"@ {
            AudioFormat::Ape
        } else if ext == "aiff"@ || ext == "aif"@ {
            AudioFormat::Aiff
        } else if ext == "mp3"@ {
            AudioFormat::Mp3
        } else {
            AudioFormat::Unknown
        }
    }

    /// The extension under which files of the format are written.
    pub open spec fn extension_of(self) -> Seq<char> {
        match self {
            AudioFormat::Flac => "flac"@,
            AudioFormat::Wav => "wav"@,
            AudioFormat::Alac => "m4a"@,
            AudioFormat::Ape => "ape"@,
            AudioFormat::Aiff => "aiff"@,
            AudioFormat::Mp3 => "mp3"@,
            AudioFormat::Unknown => "unknown"@,
        }
    }

    /// The format of an extension that is already in lower case.
    pub fn from_lowercase(ext: &str) -> (format: Self)
        ensures
            format == Self::of_lowercase(ext@),
    {
        if str_eq(ext, "flac") {
            AudioFormat::Flac
        } else if str_eq(ext, "wav") {
            AudioFormat::Wav
        } else if str_eq(ext, "m4a") || str_eq(ext, "alac") {
            AudioFormat::Alac
        } else if str_eq(ext, "ape") {
            AudioFormat::Ape
        } else if str_eq(ext, "aiff") || str_eq(ext, "aif") {
            AudioFormat::Aiff
        } else if str_eq(ext, "mp3") {
            AudioFormat::Mp3
        } else {
            AudioFormat::Unknown
        }
    }

    /// The format of a file extension, whatever its case.
    pub fn from_extension(ext: &str) -> (format: Self)
        ensures
            format == Self::of_lowercase(lowercase_of(ext@)),
    {
        let lower = to_lowercase(ext);
        Self::from_lowercase(lower.as_str())
    }

    pub fn extension(&self) -> (ext: &'static str)
        ensures
            ext@ == self.extension_of(),
    {
        match self {
            AudioFormat::Flac => "flac",
            AudioFormat::Wav => "wav",
            AudioFormat::Alac => "m4a",
            AudioFormat::Ape => "ape",
            AudioFormat::Aiff => "aiff",
            AudioFormat::Mp3 => "mp3",
            AudioFormat::Unknown => "unknown",
        }
    }

    /// Whether files with this extension can be played.
    pub fn is_supported(ext: &str) -> (supported: bool)
        ensures
            supported == (Self::of_lowercase(lowercase_of(ext@)) != AudioFormat::Unknown),
    {
        match Self::from_extension(ext) {
            AudioFormat::Unknown => false,
            _ => true,
        }
    }
}

/// One audio file of the library with what its tags say.
pub struct Track {
    pub id: Uuid,
    pub path: PathBuf,
    pub title: String,
    pub artist: String,
    pub album: String,
    pub album_artist: Option<String>,
    pub track_number: Option<u32>,
    pub disc_number: Option<u32>,
    pub duration: Duration,
    pub format: AudioFormat,
    pub added_at: Timestamp,
    /// Cover picture as found in the file, still encoded.
    pub album_art_data: Option<Vec<u8>>,
}

/// The format that the extension of a path stands for.
pub open spec fn format_of_path(path: PathBuf) -> AudioFormat {
    match extension_of(path) {
        Some(ext) => AudioFormat::of_lowercase(lowercase_of(ext)),
        None => AudioFormat::Unknown,
    }
}

impl Track {
    /// A track for the file at `path` of which nothing is known yet but the
    /// format that its extension tells. It gets a new identifier and is
    /// added now.
    pub fn new(path: PathBuf) -> (track: Self)
        ensures
            track.path == path,
            track.format == format_of_path(path),
            track.title@ == ""@,
            track.artist@ == "Unknown Artist"@,
            track.album@ == "Unknown Album"@,
            track.album_artist is None,
            track.track_number is None,
            track.disc_number is None,
            duration_nanos(track.duration) == 0,
            track.album_art_data is None,
    {
        let format = match path_extension(&path) {
            Some(ext) => AudioFormat::from_extension(ext.as_str()),
            None => AudioFormat::Unknown,
        };
        proof {
            reveal_strlit("");
        }
        Track {
            id: fresh_uuid(),
            path,
            title: String::new(),
            artist: String::from_str("Unknown Artist"),
            album: String::from_str("Unknown Album"),
            album_artist: None,
            track_number: None,
            disc_number: None,
            duration: Duration::new(0, 0),
            format,
            added_at: now(),
            album_art_data: None,
        }
    }

    /// The track that a row of the library's table stands for. A stored
    /// identifier or time that cannot be read is replaced by a new
    /// identifier or the current time; numbers are cut to 32 bits, and the
    /// length is taken as it is stored, in milliseconds.
    pub fn from_row(
        id: &str,
        path: PathBuf,
        title: String,
        artist: String,
        album: String,
        album_artist: Option<String>,
        track_number: Option<i64>,
        disc_number: Option<i64>,
        duration_ms: i64,
        format: &str,
        added_at: &str,
    ) -> (track: Self)
        ensures
            parsed_uuid(id@) matches Some(bits) ==> uuid_bits(track.id) == bits,
            track.path == path,
            track.title == title,
            track.artist == artist,
            track.album == album,
            track.album_artist == album_artist,
            track.track_number == (match track_number {
                Some(n) => Some(n as u32),
                None => None,
            }),
            track.disc_number == (match disc_number {
                Some(n) => Some(n as u32),
                None => None,
            }),
            duration_nanos(track.duration) == (duration_ms as u64) * 1_000_000,
            track.format == AudioFormat::of_lowercase(lowercase_of(format@)),
            parsed_time(added_at@) matches Some(t) ==> track.added_at == t,
            track.album_art_data is None,
    {
        let ms: u64 = #[verifier::truncate]
        (duration_ms as u64);
        let duration = Duration::new(ms / 1000, ((ms % 1000) as u32) * 1_000_000);
        Track {
            id: id_from_text(id),
            path,
            title,
            artist,
            album,
            album_artist,
            track_number: match track_number {
                Some(n) => Some(
                    #[verifier::truncate]
                    (n as u32),
                ),
                None => None,
            },
            disc_number: match disc_number {
                Some(n) => Some(
                    #[verifier::truncate]
                    (n as u32),
                ),
                None => None,
            },
            duration,
            format: AudioFormat::from_extension(format),
            added_at: time_from_text(added_at),
            album_art_data: None,
        }
    }

    /// The length of the track as minutes and seconds.
    pub fn format_duration(&self) -> (text: String)
        ensures
            text@ == clock_text(duration_nanos(self.duration) / (NANOS_PER_SEC as nat)),
    {
        format_duration(self.duration.as_secs())
    }
}

} // verus!
