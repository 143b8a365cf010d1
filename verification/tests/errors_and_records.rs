use zester::errors::{specific_json_err, FatalError};
use zester::records::Profile;
use zester::resolve_secret;

#[test]
fn missing_file_errors_name_the_file() {
    let refined = specific_json_err(
        FatalError::IoError { not_found: true },
        "archive/likes.json".to_string(),
    );
    assert_eq!(
        refined,
        FatalError::JsonFileNotFound { path: "archive/likes.json".to_string() }
    );
}

#[test]
fn other_errors_pass_through_unchanged() {
    let io = specific_json_err(
        FatalError::IoError { not_found: false },
        "archive/likes.json".to_string(),
    );
    assert_eq!(io, FatalError::IoError { not_found: false });
    let auth = specific_json_err(FatalError::AuthFailure, "archive/likes.json".to_string());
    assert_eq!(auth, FatalError::AuthFailure);
}

#[test]
fn total_playlist_count_adds_both_kinds() {
    let profile = Profile { likes_count: 10, playlist_count: 4, private_playlists_count: 3 };
    assert_eq!(profile.total_playlist_count(), 7);
}

#[test]
fn total_playlist_count_saturates() {
    let profile = Profile {
        likes_count: 0,
        playlist_count: u64::MAX - 1,
        private_playlists_count: 5,
    };
    assert_eq!(profile.total_playlist_count(), u64::MAX);
}

#[test]
fn explicit_secret_wins_over_environment() {
    let r = resolve_secret(Some("given".to_string()), Some("from-env".to_string()));
    assert_eq!(r, Some("given".to_string()));
}

#[test]
fn environment_fills_a_missing_secret() {
    let r = resolve_secret(None, Some("from-env".to_string()));
    assert_eq!(r, Some("from-env".to_string()));
}

#[test]
fn absent_everywhere_means_the_caller_must_prompt() {
    let r = resolve_secret(None, None);
    assert_eq!(r, None);
}
