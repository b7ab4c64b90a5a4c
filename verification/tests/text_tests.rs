use auric::text::str_eq;
use auric::ui::now_playing::{format_duration, truncate_string};
use auric::ui::track_list::truncate;

#[test]
fn str_eq_compares_contents() {
    assert!(str_eq("", ""));
    assert!(str_eq("flac", "flac"));
    assert!(!str_eq("flac", "flaC"));
    assert!(!str_eq("flac", "fla"));
    assert!(!str_eq("", "a"));
    assert!(str_eq("héllo ↻", "héllo ↻"));
    assert!(!str_eq("héllo", "hello"));
}

#[test]
fn format_duration_minutes_and_seconds() {
    assert_eq!(format_duration(0), "0:00");
    assert_eq!(format_duration(7), "0:07");
    assert_eq!(format_duration(59), "0:59");
    assert_eq!(format_duration(60), "1:00");
    assert_eq!(format_duration(187), "3:07");
    assert_eq!(format_duration(600), "10:00");
    assert_eq!(format_duration(3_599), "59:59");
    assert_eq!(format_duration(3_600), "60:00");
    assert_eq!(format_duration(360_000), "6000:00");
    assert_eq!(format_duration(u64::MAX), "307445734561825860:15");
}

#[test]
fn truncate_by_characters() {
    assert_eq!(truncate("short", 20), "short");
    assert_eq!(truncate("exactly ten", 11), "exactly ten");
    assert_eq!(truncate("A rather long track title", 10), "A rathe...");
    assert_eq!(truncate("abcdef", 4), "a...");
    assert_eq!(truncate("abcdef", 3), "abc");
    assert_eq!(truncate("abcdef", 1), "a");
    assert_eq!(truncate("abcdef", 0), "");
    assert_eq!(truncate("", 0), "");
    assert_eq!(truncate("żółć gęślą jaźń", 8), "żółć ...");
    assert_eq!(truncate("żółć", 4), "żółć");
    assert_eq!(truncate("日本語のタイトル", 6), "日本語...");
}

#[test]
fn truncate_string_by_bytes() {
    assert_eq!(truncate_string("short", 20), "short");
    assert_eq!(truncate_string("exactly ten", 11), "exactly ten");
    assert_eq!(truncate_string("A rather long track title", 10), "A rathe...");
    assert_eq!(truncate_string("abcdef", 4), "a...");
    assert_eq!(truncate_string("abcdef", 3), "abc");
    assert_eq!(truncate_string("abcdef", 0), "");
    assert_eq!(truncate_string("", 0), "");
    // Two bytes to the character: the cuts below fall between characters.
    assert_eq!(truncate_string("żółć", 8), "żółć");
    assert_eq!(truncate_string("żółćżółć", 7), "żó...");
    assert_eq!(truncate_string("aż", 1), "a");
}
