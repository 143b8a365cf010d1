//! On-disk names for what the downloader writes: one file per track, one
//! directory per playlist, each carrying the record's title and id. Names
//! are sanitized for storage across operating systems, with the Windows
//! rules applied everywhere so an archive can move between machines.

use vstd::prelude::*;
use vstd::string::StringExecFns;
use crate::records::{PlaylistSummary, Track};

verus! {

/// The character for one decimal digit.
pub open spec fn spec_digit_char(d: nat) -> char {
    if d == 0 {
        '0'
    } else if d == 1 {
        '1'
    } else if d == 2 {
        '2'
    } else if d == 3 {
        '3'
    } else if d == 4 {
        '4'
    } else if d == 5 {
        '5'
    } else if d == 6 {
        '6'
    } else if d == 7 {
        '7'
    } else if d == 8 {
        '8'
    } else {
        '9'
    }
}

/// The decimal digits of `n`, most significant first, with no leading
/// zeroes.
pub open spec fn spec_decimal(n: nat) -> Seq<char>
    decreases n,
{
    if n < 10 {
        seq![spec_digit_char(n)]
    } else {
        spec_decimal(n / 10) + seq![spec_digit_char(n % 10)]
    }
}

/// One decimal digit as text.
fn digit_str(d: u64) -> (r: &'static str)
    requires
        d < 10,
    ensures
        r@ == seq![spec_digit_char(d as nat)],
{
    proof {
        reveal_strlit("0");
        reveal_strlit("1");
        reveal_strlit("2");
        reveal_strlit("3");
        reveal_strlit("4");
        reveal_strlit("5");
        reveal_strlit("6");
        reveal_strlit("7");
        reveal_strlit("8");
        reveal_strlit("9");
    }
    match d {
        0 => "0",
        1 => "1",
        2 => "2",
        3 => "3",
        4 => "4",
        5 => "5",
        6 => "6",
        7 => "7",
        8 => "8",
        _ => "9",
    }
}

/// Renders a number in decimal.
pub fn u64_to_decimal(n: u64) -> (r: String)
    ensures
        r@ == spec_decimal(n as nat),
    decreases n,
{
    if n < 10 {
        String::from_str(digit_str(n))
    } else {
        let mut s = u64_to_decimal(n / 10);
        s.append(digit_str(n % 10));
        s
    }
}

/// The raw (unsanitized) file name for one track's media.
pub open spec fn spec_track_file_name(title: Seq<char>, id: nat) -> Seq<char> {
    title + " (id="@ + spec_decimal(id) + ").m4a"@
}

/// The raw (unsanitized) directory name for one playlist.
pub open spec fn spec_playlist_dir_name(title: Seq<char>, id: nat) -> Seq<char> {
    title + " (id="@ + spec_decimal(id) + ")"@
}

/// Builds the raw file name for one track's media: its title, its id, and
/// the media extension.
pub fn track_file_name(track: &Track) -> (r: String)
    ensures
        r@ == spec_track_file_name(track.title@, track.id as nat),
{
    let mut s = track.title.clone();
    s.append(" (id=");
    let digits = u64_to_decimal(track.id);
    s.append(digits.as_str());
    s.append(").m4a");
    s
}

/// Builds the raw directory name for one playlist: its title and its id.
pub fn playlist_dir_name(playlist: &PlaylistSummary) -> (r: String)
    ensures
        r@ == spec_playlist_dir_name(playlist.title@, playlist.id as nat),
{
    let mut s = playlist.title.clone();
    s.append(" (id=");
    let digits = u64_to_decimal(playlist.id);
    s.append(digits.as_str());
    s.append(")");
    s
}

/// What `sanitize_filename::sanitize_with_options` returns for this input,
/// under the fixed policy below: the result depends on the characters
/// alone.
pub uninterp spec fn spec_sanitized(name: Seq<char>) -> Seq<char>;

/// Relies on sanitize_filename::sanitize_with_options: removes path
/// separators and other characters that are illegal in file names, with
/// the Windows rules switched on and the default truncation and empty
/// replacement. Its source shows that an empty name stays empty and that
/// the result is truncated to at most 255 bytes.
#[verifier::external_body]
fn sanitize(name: &str) -> (r: String)
    ensures
        r@ == spec_sanitized(name@),
        name@.len() == 0 ==> r@.len() == 0,
        r@.len() <= 255,
{
    sanitize_filename::sanitize_with_options(
        name,
        sanitize_filename::Options { windows: true, ..Default::default() },
    )
}

/// The sanitized on-disk file name for one track's media.
pub fn sanitized_track_file_name(track: &Track) -> (r: String)
    ensures
        r@ == spec_sanitized(spec_track_file_name(track.title@, track.id as nat)),
{
    let raw = track_file_name(track);
    sanitize(raw.as_str())
}

/// The sanitized on-disk directory name for one playlist.
pub fn sanitized_playlist_dir_name(playlist: &PlaylistSummary) -> (r: String)
    ensures
        r@ == spec_sanitized(spec_playlist_dir_name(playlist.title@, playlist.id as nat)),
{
    let raw = playlist_dir_name(playlist);
    sanitize(raw.as_str())
}

} // verus!
