use zester::records::{PlaylistSummary, Track};
use zester::storage::{
    playlist_dir_name, sanitized_playlist_dir_name, sanitized_track_file_name, track_file_name,
    u64_to_decimal,
};

#[test]
fn decimal_rendering_is_exact() {
    assert_eq!(u64_to_decimal(0), "0");
    assert_eq!(u64_to_decimal(7), "7");
    assert_eq!(u64_to_decimal(10), "10");
    assert_eq!(u64_to_decimal(90571), "90571");
    assert_eq!(u64_to_decimal(u64::MAX), "18446744073709551615");
}

#[test]
fn track_file_name_is_title_id_and_extension() {
    let t = Track { id: 90571, title: "Morning Dew".to_string() };
    assert_eq!(track_file_name(&t), "Morning Dew (id=90571).m4a");
}

#[test]
fn playlist_dir_name_is_title_and_id() {
    let p = PlaylistSummary { id: 4, title: "Mix".to_string() };
    assert_eq!(playlist_dir_name(&p), "Mix (id=4)");
}

#[test]
fn sanitizing_strips_illegal_filename_characters() {
    // A title with characters that no filesystem accepts must come back
    // changed: separators and reserved characters are removed.
    let t = Track { id: 1, title: "a/b:c*d?e".to_string() };
    assert_eq!(sanitized_track_file_name(&t), "abcde (id=1).m4a");
}

#[test]
fn sanitizing_keeps_clean_names_unchanged() {
    let t = Track { id: 2, title: "plain title".to_string() };
    assert_eq!(sanitized_track_file_name(&t), "plain title (id=2).m4a");
}

#[test]
fn sanitizing_truncates_very_long_names() {
    let long_title: String = std::iter::repeat('a').take(300).collect();
    let t = Track { id: 3, title: long_title };
    let name = sanitized_track_file_name(&t);
    assert_eq!(name.len(), 255);
    assert!(name.chars().all(|c| c == 'a'));
}

#[test]
fn sanitizing_playlist_directories() {
    let p = PlaylistSummary { id: 9, title: "best|of<2020>".to_string() };
    assert_eq!(sanitized_playlist_dir_name(&p), "bestof2020 (id=9)");
}
