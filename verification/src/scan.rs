//! What the library scan decides about each file: whether it is audio, and
//! the track details that its tags give.

use vstd::prelude::*;
use vstd::string::StringExecFns;
use crate::text::{decimal, zero_padded, lowercase, to_lowercase, str_equal};
use crate::track::TrackDetails;

verus! {

/// The file extensions, in lower case, that the library treats as audio.
pub open spec fn is_audio_ext_text(e: Seq<char>) -> bool {
    ||| e == "mp3"@
    ||| e == "flac"@
    ||| e == "alac"@
    ||| e == "wav"@
    ||| e == "aac"@
    ||| e == "ogg"@
    ||| e == "m4a"@
    ||| e == "aiff"@
}

/// Whether a file with extension `ext` is audio: its lower-case form is one
/// of mp3, flac, alac, wav, aac, ogg, m4a, aiff.
pub fn is_audio_extension(ext: &str) -> (r: bool)
    ensures
        r == is_audio_ext_text(lowercase(ext@)),
{
    let e = to_lowercase(ext);
    is_audio_ext_lowered(e.as_str())
}

/// Whether an extension already in lower case is one of mp3, flac, alac,
/// wav, aac, ogg, m4a, aiff.
pub fn is_audio_ext_lowered(e: &str) -> (r: bool)
    ensures
        r == is_audio_ext_text(e@),
{
    str_equal(e, "mp3") || str_equal(e, "flac") || str_equal(e, "alac") || str_equal(e, "wav")
        || str_equal(e, "aac") || str_equal(e, "ogg") || str_equal(e, "m4a") || str_equal(e, "aiff")
}

/// A tag's date: a year and, each only where the one before it is present,
/// month, day, hour, minute and second.
#[derive(Debug, Clone, Copy, PartialEq, Eq)]
pub struct TagTimestamp {
    pub year: u16,
    pub month: Option<u8>,
    pub day: Option<u8>,
    pub hour: Option<u8>,
    pub minute: Option<u8>,
    pub second: Option<u8>,
}

/// Two-digit, zero-padded decimal form of `n`.
pub open spec fn two_digits(n: u8) -> Seq<char> {
    zero_padded(decimal(n as nat), 2)
}

/// The ISO 8601 text of a timestamp: `YYYY`, then `-MM`, `-DD`, `THH`, `:MM`,
/// `:SS`, each written only while the components before it are present.
pub open spec fn timestamp_text(ts: TagTimestamp) -> Seq<char> {
    zero_padded(decimal(ts.year as nat), 4) + match ts.month {
        None => Seq::empty(),
        Some(month) => "-"@ + two_digits(month) + match ts.day {
            None => Seq::empty(),
            Some(day) => "-"@ + two_digits(day) + match ts.hour {
                None => Seq::empty(),
                Some(hour) => "T"@ + two_digits(hour) + match ts.minute {
                    None => Seq::empty(),
                    Some(minute) => ":"@ + two_digits(minute) + match ts.second {
                        None => Seq::empty(),
                        Some(second) => ":"@ + two_digits(second),
                    },
                },
            },
        },
    }
}

/// Formats a timestamp with `Display` of `lofty::tag::items::Timestamp`, which
/// writes the year with `{:04}` and each present component with `{:02}`
/// behind its separator, stopping at the first absent one.
#[verifier::external_body]
fn timestamp_string(ts: &TagTimestamp) -> (r: String)
    ensures
        r@ == timestamp_text(*ts),
{
    let t = lofty::tag::items::Timestamp {
        year: ts.year,
        month: ts.month,
        day: ts.day,
        hour: ts.hour,
        minute: ts.minute,
        second: ts.second,
    };
    t.to_string()
}

/// The date assumed for a track whose tag has none: 1900-01-01T00:00:00.
pub open spec fn default_timestamp() -> TagTimestamp {
    TagTimestamp { year: 1900, month: Some(1), day: Some(1), hour: Some(0), minute: Some(0), second: Some(0) }
}

/// What a track's primary tag holds, as plain values.
pub struct TagValues {
    pub title: Option<String>,
    pub artist: Option<String>,
    pub album: Option<String>,
    pub date: Option<TagTimestamp>,
    pub track: Option<u32>,
}

/// `text` if present, else `fallback`.
pub open spec fn or_default(text: Option<String>, fallback: Seq<char>) -> Seq<char> {
    match text {
        Some(s) => s@,
        None => fallback,
    }
}

/// `text` if present, else `fallback`.
fn string_or(text: Option<String>, fallback: &str) -> (r: String)
    ensures
        r@ == or_default(text, fallback@),
{
    match text {
        Some(s) => s,
        None => String::from_str(fallback),
    }
}

/// The details of the track at `song_path`, lasting `duration_secs` seconds,
/// from its tag: a missing title, artist or album reads "Unknown Title",
/// "Unknown Artist" or "Unknown Album"; a missing date reads as
/// 1900-01-01T00:00:00; a missing track number is 0.
pub fn track_details_from_tags(tags: TagValues, song_path: String, duration_secs: u64) -> (r: TrackDetails)
    ensures
        r.title@ == or_default(tags.title, "Unknown Title"@),
        r.artist@ == or_default(tags.artist, "Unknown Artist"@),
        r.album@ == or_default(tags.album, "Unknown Album"@),
        r.date@ == timestamp_text(match tags.date { Some(d) => d, None => default_timestamp() }),
        r.track_no == match tags.track { Some(n) => n, None => 0 },
        r.song_path@ == song_path@,
        r.duration == duration_secs,
{
    let title = string_or(tags.title, "Unknown Title");
    let artist = string_or(tags.artist, "Unknown Artist");
    let album = string_or(tags.album, "Unknown Album");
    let stamp = match tags.date {
        Some(d) => d,
        None => TagTimestamp { year: 1900, month: Some(1), day: Some(1), hour: Some(0), minute: Some(0), second: Some(0) },
    };
    let date = timestamp_string(&stamp);
    let track_no: u32 = match tags.track {
        Some(n) => n,
        None => 0,
    };
    TrackDetails { artist, album, track_no, title, date, song_path, duration: duration_secs }
}

} // verus!
