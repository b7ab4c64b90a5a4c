use std::path::PathBuf;
use std::time::Duration;

use auric::ids::{id_from_text, position_of, same_id, time_from_text, Timestamp};
use auric::library::track::Track;
use auric::library::{AudioFormat, LoadedFolder, Playlist};
use uuid::Uuid;

#[test]
fn format_from_extension_in_any_case() {
    assert_eq!(AudioFormat::from_extension("flac"), AudioFormat::Flac);
    assert_eq!(AudioFormat::from_extension("FLAC"), AudioFormat::Flac);
    assert_eq!(AudioFormat::from_extension("Wav"), AudioFormat::Wav);
    assert_eq!(AudioFormat::from_extension("m4a"), AudioFormat::Alac);
    assert_eq!(AudioFormat::from_extension("ALAC"), AudioFormat::Alac);
    assert_eq!(AudioFormat::from_extension("ape"), AudioFormat::Ape);
    assert_eq!(AudioFormat::from_extension("aiff"), AudioFormat::Aiff);
    assert_eq!(AudioFormat::from_extension("AIF"), AudioFormat::Aiff);
    assert_eq!(AudioFormat::from_extension("Mp3"), AudioFormat::Mp3);
    assert_eq!(AudioFormat::from_extension("ogg"), AudioFormat::Unknown);
    assert_eq!(AudioFormat::from_extension(""), AudioFormat::Unknown);
    assert_eq!(AudioFormat::from_extension(".flac"), AudioFormat::Unknown);
}

#[test]
fn format_from_lowercase_is_exact() {
    assert_eq!(AudioFormat::from_lowercase("flac"), AudioFormat::Flac);
    assert_eq!(AudioFormat::from_lowercase("FLAC"), AudioFormat::Unknown);
    assert_eq!(AudioFormat::from_lowercase("aif"), AudioFormat::Aiff);
}

#[test]
fn format_extensions() {
    assert_eq!(AudioFormat::Flac.extension(), "flac");
    assert_eq!(AudioFormat::Wav.extension(), "wav");
    assert_eq!(AudioFormat::Alac.extension(), "m4a");
    assert_eq!(AudioFormat::Ape.extension(), "ape");
    assert_eq!(AudioFormat::Aiff.extension(), "aiff");
    assert_eq!(AudioFormat::Mp3.extension(), "mp3");
    assert_eq!(AudioFormat::Unknown.extension(), "unknown");
    for f in [
        AudioFormat::Flac,
        AudioFormat::Wav,
        AudioFormat::Alac,
        AudioFormat::Ape,
        AudioFormat::Aiff,
        AudioFormat::Mp3,
    ] {
        assert_eq!(AudioFormat::from_extension(f.extension()), f);
    }
}

#[test]
fn supported_extensions() {
    assert!(AudioFormat::is_supported("flac"));
    assert!(AudioFormat::is_supported("MP3"));
    assert!(AudioFormat::is_supported("m4a"));
    assert!(!AudioFormat::is_supported("txt"));
    assert!(!AudioFormat::is_supported("unknown"));
    assert!(!AudioFormat::is_supported(""));
}

#[test]
fn new_track_has_defaults() {
    let track = Track::new(PathBuf::from("/music/Album/01 Song.FLAC"));
    assert_eq!(track.path, PathBuf::from("/music/Album/01 Song.FLAC"));
    assert_eq!(track.format, AudioFormat::Flac);
    assert_eq!(track.title, "");
    assert_eq!(track.artist, "Unknown Artist");
    assert_eq!(track.album, "Unknown Album");
    assert_eq!(track.album_artist, None);
    assert_eq!(track.track_number, None);
    assert_eq!(track.disc_number, None);
    assert_eq!(track.duration, Duration::ZERO);
    assert_eq!(track.album_art_data, None);
    let other = Track::new(PathBuf::from("/music/readme"));
    assert_eq!(other.format, AudioFormat::Unknown);
    assert!(!same_id(&track.id, &other.id));
}

#[test]
fn track_duration_text() {
    let mut track = Track::new(PathBuf::from("a.mp3"));
    assert_eq!(track.format_duration(), "0:00");
    track.duration = Duration::from_millis(187_999);
    assert_eq!(track.format_duration(), "3:07");
    track.duration = Duration::from_secs(3_725);
    assert_eq!(track.format_duration(), "62:05");
}

#[test]
fn track_from_row_reads_the_columns() {
    let track = Track::from_row(
        "67e55044-10b1-426f-9247-bb680e5fe0c8",
        PathBuf::from("/music/a.m4a"),
        "Title".to_string(),
        "Artist".to_string(),
        "Album".to_string(),
        Some("Various".to_string()),
        Some(7),
        None,
        215_500,
        "M4A",
        "2024-03-01T12:30:45.5+02:00",
    );
    assert_eq!(track.id, Uuid::from_u128(0x67e55044_10b1_426f_9247_bb680e5fe0c8));
    assert_eq!(track.path, PathBuf::from("/music/a.m4a"));
    assert_eq!(track.title, "Title");
    assert_eq!(track.artist, "Artist");
    assert_eq!(track.album, "Album");
    assert_eq!(track.album_artist, Some("Various".to_string()));
    assert_eq!(track.track_number, Some(7));
    assert_eq!(track.disc_number, None);
    assert_eq!(track.duration, Duration::from_millis(215_500));
    assert_eq!(track.format, AudioFormat::Alac);
    assert_eq!(track.added_at, Timestamp { secs: 1_709_289_045, nanos: 500_000_000 });
    assert_eq!(track.album_art_data, None);
}

#[test]
fn track_from_row_cuts_numbers_as_stored() {
    let track = Track::from_row(
        "not an id",
        PathBuf::from("x"),
        String::new(),
        String::new(),
        String::new(),
        None,
        Some(-1),
        Some(4_294_967_296 + 3),
        -1,
        "flac",
        "yesterday",
    );
    assert_eq!(track.track_number, Some(u32::MAX));
    assert_eq!(track.disc_number, Some(3));
    assert_eq!(track.duration, Duration::from_millis(u64::MAX));
    assert_eq!(track.format, AudioFormat::Flac);
    // Neither the identifier nor the time could be read: both are new.
    assert!(track.added_at.secs > 1_600_000_000);
}

#[test]
fn ids_from_text() {
    let id = id_from_text("00000000-0000-0000-0000-00000000002a");
    assert_eq!(id, Uuid::from_u128(42));
    let a = id_from_text("");
    let b = id_from_text("");
    assert_ne!(a, b);
    assert!(same_id(&id, &Uuid::from_u128(42)));
    assert!(!same_id(&id, &Uuid::from_u128(43)));
}

#[test]
fn times_from_text() {
    assert_eq!(
        time_from_text("1970-01-01T00:00:00Z"),
        Timestamp { secs: 0, nanos: 0 }
    );
    assert_eq!(
        time_from_text("2001-09-09T01:46:40.000000007Z"),
        Timestamp { secs: 1_000_000_000, nanos: 7 }
    );
    let early = Timestamp { secs: 5, nanos: 999_999_999 };
    let late = Timestamp { secs: 6, nanos: 0 };
    assert!(early.before(&late));
    assert!(!late.before(&early));
    assert!(!early.before(&early));
    assert!(Timestamp { secs: 6, nanos: 1 }.before(&Timestamp { secs: 6, nanos: 2 }));
}

#[test]
fn position_of_finds_the_first() {
    let ids = vec![Uuid::from_u128(1), Uuid::from_u128(2), Uuid::from_u128(1)];
    assert_eq!(position_of(&ids, &Uuid::from_u128(1)), Some(0));
    assert_eq!(position_of(&ids, &Uuid::from_u128(2)), Some(1));
    assert_eq!(position_of(&ids, &Uuid::from_u128(3)), None);
    assert_eq!(position_of(&Vec::new(), &Uuid::from_u128(3)), None);
}

#[test]
fn new_playlist_is_empty() {
    let playlist = Playlist::new("Road trip");
    assert_eq!(playlist.name, "Road trip");
    assert_eq!(playlist.len(), 0);
    assert!(playlist.track_ids.is_empty());
    assert_eq!(playlist.created_at, playlist.modified_at);
    assert_eq!(playlist.file_path, None);
    assert_ne!(playlist.id, Playlist::new("Road trip").id);
}

#[test]
fn playlist_holds_each_track_once() {
    let mut playlist = Playlist::new("p");
    let (a, b) = (Uuid::from_u128(10), Uuid::from_u128(20));
    playlist.add_track(a);
    playlist.add_track(b);
    assert_eq!(playlist.track_ids, vec![a, b]);
    assert_eq!(playlist.len(), 2);
    let stamp = playlist.modified_at;
    playlist.add_track(a);
    assert_eq!(playlist.track_ids, vec![a, b]);
    assert_eq!(playlist.len(), 2);
    assert_eq!(playlist.modified_at, stamp);
    playlist.add_track(Uuid::from_u128(30));
    assert_eq!(playlist.len(), 3);
    assert_eq!(playlist.name, "p");
}

#[test]
fn folder_names() {
    let folder = LoadedFolder::new(PathBuf::from("/home/me/Music"));
    assert_eq!(folder.name, "Music");
    assert_eq!(folder.path, PathBuf::from("/home/me/Music"));
    assert_eq!(folder.track_count, 0);
    assert!(!folder.is_watched);
    let watched = LoadedFolder::new_watched(PathBuf::from("/srv/audio/"));
    assert_eq!(watched.name, "audio");
    assert!(watched.is_watched);
    assert_eq!(LoadedFolder::new(PathBuf::from("/")).name, "Unknown");
    assert_eq!(LoadedFolder::new(PathBuf::from("..")).name, "Unknown");
    assert_eq!(LoadedFolder::with_watched(PathBuf::from("a/b"), true).name, "b");
}
