use std::path::PathBuf;
use std::time::Duration;

use auric::library::scanner::{track_from_metadata, Probed, TagData};
use auric::library::AudioFormat;

fn no_tags() -> TagData {
    TagData {
        title: None,
        artist: None,
        album: None,
        track_number: None,
        disc_number: None,
        album_artist: None,
        picture: None,
    }
}

#[test]
fn tags_win_over_defaults() {
    let tag = TagData {
        title: Some("Title".to_string()),
        artist: Some("Artist".to_string()),
        album: Some("Album".to_string()),
        track_number: Some(3),
        disc_number: Some(1),
        album_artist: Some("Various".to_string()),
        picture: Some(vec![0xFF, 0xD8]),
    };
    let track = track_from_metadata(
        PathBuf::from("/m/03 - file name.flac"),
        Probed::Tagged { duration: Duration::from_millis(61_250), tag: Some(tag) },
    );
    assert_eq!(track.title, "Title");
    assert_eq!(track.artist, "Artist");
    assert_eq!(track.album, "Album");
    assert_eq!(track.track_number, Some(3));
    assert_eq!(track.disc_number, Some(1));
    assert_eq!(track.album_artist, Some("Various".to_string()));
    assert_eq!(track.album_art_data, Some(vec![0xFF, 0xD8]));
    assert_eq!(track.duration, Duration::from_millis(61_250));
    assert_eq!(track.format, AudioFormat::Flac);
    assert_eq!(track.path, PathBuf::from("/m/03 - file name.flac"));
}

#[test]
fn empty_tags_keep_the_defaults() {
    let track = track_from_metadata(
        PathBuf::from("/m/03 - file name.mp3"),
        Probed::Tagged { duration: Duration::from_secs(5), tag: Some(no_tags()) },
    );
    assert_eq!(track.title, "03 - file name");
    assert_eq!(track.artist, "Unknown Artist");
    assert_eq!(track.album, "Unknown Album");
    assert_eq!(track.track_number, None);
    assert_eq!(track.album_artist, None);
    assert_eq!(track.album_art_data, None);
    assert_eq!(track.duration, Duration::from_secs(5));
    assert_eq!(track.format, AudioFormat::Mp3);
}

#[test]
fn file_without_tags() {
    let track = track_from_metadata(
        PathBuf::from("/m/song.wav"),
        Probed::Tagged { duration: Duration::from_secs(9), tag: None },
    );
    assert_eq!(track.title, "song");
    assert_eq!(track.artist, "Unknown Artist");
    assert_eq!(track.duration, Duration::from_secs(9));
}

#[test]
fn unreadable_file() {
    let track = track_from_metadata(
        PathBuf::from("/m/broken.ape"),
        Probed::Unreadable { duration: Some(Duration::from_secs(77)) },
    );
    assert_eq!(track.title, "broken");
    assert_eq!(track.duration, Duration::from_secs(77));
    assert_eq!(track.format, AudioFormat::Ape);
    let track =
        track_from_metadata(PathBuf::from("/"), Probed::Unreadable { duration: None });
    assert_eq!(track.title, "Unknown");
    assert_eq!(track.duration, Duration::ZERO);
    assert_eq!(track.format, AudioFormat::Unknown);
}
