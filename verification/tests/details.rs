use music::scan::{is_audio_ext_lowered, is_audio_extension, track_details_from_tags, TagTimestamp, TagValues};
use music::search::{filter_tracks, lowered_fields_match};
use music::text::{chars_of, contains_chars, push_decimal, str_equal};
use music::track::{sort_tracks, str_less, track_less, TrackDetails};

fn track(artist: &str, album: &str, track_no: u32, title: &str) -> TrackDetails {
    TrackDetails {
        artist: artist.to_string(),
        album: album.to_string(),
        track_no,
        title: title.to_string(),
        date: "2020".to_string(),
        song_path: "/fake/path.mp3".to_string(),
        duration: 180,
    }
}

fn no_tags() -> TagValues {
    TagValues { title: None, artist: None, album: None, date: None, track: None }
}

#[test]
fn display_line_is_exact() {
    let t = track("Radiohead", "OK Computer", 7, "Karma Police");
    assert_eq!(t.display_line(), "Radiohead - Karma Police (2020) [Track 7]");
}

#[test]
fn display_card_is_exact() {
    let t = track("Radiohead", "OK Computer", 12, "Karma Police");
    assert_eq!(t.display_card(), "Radiohead\nKarma Police\nOK Computer [Track 12]");
}

#[test]
fn decimal_digits() {
    let mut s = String::from("n=");
    push_decimal(&mut s, 0);
    assert_eq!(s, "n=0");
    let mut s = String::new();
    push_decimal(&mut s, 4294967295);
    assert_eq!(s, "4294967295");
    let mut s = String::new();
    push_decimal(&mut s, 1000);
    assert_eq!(s, "1000");
}

#[test]
fn substring_search() {
    let hay = chars_of("Shine On You Crazy Diamond");
    assert!(contains_chars(&hay, &chars_of("Crazy")));
    assert!(contains_chars(&hay, &chars_of("")));
    assert!(contains_chars(&hay, &chars_of("Diamond")));
    assert!(!contains_chars(&hay, &chars_of("crazy")));
    assert!(!contains_chars(&chars_of("ab"), &chars_of("abc")));
    assert!(str_equal("wav", "wav"));
    assert!(!str_equal("wav", "wave"));
}

#[test]
fn unicode_case_folding_in_search() {
    let lib = vec![track("Café Tacvba", "Re", 1, "Las Flores")];
    assert_eq!(filter_tracks(&lib, "CAFÉ").len(), 1);
    assert_eq!(filter_tracks(&lib, "ÉS").len(), 0);
    assert_eq!(filter_tracks(&lib, "FLORES").len(), 1);
}

#[test]
fn search_keeps_order_and_matches_any_field() {
    let lib = vec![
        track("A", "Blue", 1, "x"),
        track("B", "y", 1, "blue moon"),
        track("blues band", "z", 1, "w"),
        track("C", "d", 1, "e"),
    ];
    let r = filter_tracks(&lib, "BLUE");
    assert_eq!(r.len(), 3);
    assert_eq!(r[0].artist, "A");
    assert_eq!(r[1].artist, "B");
    assert_eq!(r[2].artist, "blues band");
}

#[test]
fn order_compares_fields_in_turn() {
    let a = track("Radiohead", "Kid A", 2, "Z");
    let b = track("Radiohead", "Kid A", 10, "A");
    assert!(track_less(&a, &b));
    assert!(!track_less(&b, &a));
    assert!(!track_less(&a, &a));
    assert!(str_less("Kid A", "OK Computer"));
    assert!(str_less("Ab", "Abc"));
    assert!(!str_less("b", "B"));
    assert!(str_less("Z", "a"));
}

#[test]
fn sort_tracks_agrees_with_derived_order() {
    let tracks = vec![
        track("Radiohead", "OK Computer", 1, "Karma Police"),
        track("Radiohead", "Kid A", 1, "Everything in Its Right Place"),
        track("David Bowie", "Ziggy Stardust", 2, "Starman"),
        track("David Bowie", "Ziggy Stardust", 1, "Five Years"),
        track("Émilie", "b", 1, "c"),
        track("Zed", "b", 1, "c"),
    ];
    let sorted = sort_tracks(&tracks);
    let mut expected = tracks.clone();
    expected.sort();
    assert_eq!(sorted, expected);
    assert_eq!(sorted[0].title, "Five Years");
    assert_eq!(sorted[5].artist, "Émilie");
}

#[test]
fn audio_extensions() {
    for e in ["mp3", "MP3", "flac", "Flac", "alac", "wav", "aac", "ogg", "m4a", "AIFF"] {
        assert!(is_audio_extension(e), "{}", e);
    }
    for e in ["txt", "mp4", "jpg", "", "mp3x"] {
        assert!(!is_audio_extension(e), "{}", e);
    }
}

#[test]
fn missing_tags_read_as_unknown() {
    let t = track_details_from_tags(no_tags(), "/m/a.flac".to_string(), 241);
    assert_eq!(t.title, "Unknown Title");
    assert_eq!(t.artist, "Unknown Artist");
    assert_eq!(t.album, "Unknown Album");
    assert_eq!(t.date, "1900-01-01T00:00:00");
    assert_eq!(t.track_no, 0);
    assert_eq!(t.song_path, "/m/a.flac");
    assert_eq!(t.duration, 241);
}

#[test]
fn present_tags_are_kept() {
    let tags = TagValues {
        title: Some("Starman".to_string()),
        artist: Some("David Bowie".to_string()),
        album: Some("Ziggy Stardust".to_string()),
        date: Some(TagTimestamp { year: 2024, month: Some(6), day: Some(15), hour: Some(14), minute: Some(30), second: Some(0) }),
        track: Some(4),
    };
    let t = track_details_from_tags(tags, "/m/s.mp3".to_string(), 254);
    assert_eq!(t.title, "Starman");
    assert_eq!(t.artist, "David Bowie");
    assert_eq!(t.album, "Ziggy Stardust");
    assert_eq!(t.date, "2024-06-15T14:30:00");
    assert_eq!(t.track_no, 4);
}

#[test]
fn partial_dates_stop_at_first_missing_part() {
    let mut tags = no_tags();
    tags.date = Some(TagTimestamp { year: 987, month: None, day: Some(3), hour: None, minute: None, second: None });
    assert_eq!(track_details_from_tags(tags, String::new(), 0).date, "0987");
    let mut tags = no_tags();
    tags.date = Some(TagTimestamp { year: 1972, month: Some(6), day: None, hour: Some(1), minute: None, second: None });
    assert_eq!(track_details_from_tags(tags, String::new(), 0).date, "1972-06");
}

#[test]
fn searching_a_result_again_changes_nothing() {
    let lib = vec![
        track("Radiohead", "OK Computer", 1, "Karma Police"),
        track("Radiohead", "Kid A", 2, "Idioteque"),
        track("Pink Floyd", "The Wall", 3, "Hey You"),
    ];
    let once = filter_tracks(&lib, "o");
    let twice = filter_tracks(&once, "o");
    assert_eq!(once, twice);
    assert_eq!(once.len(), 3);
    let once = filter_tracks(&lib, "kid");
    assert_eq!(filter_tracks(&once, "kid"), once);
    assert_eq!(once.len(), 1);
}

#[test]
fn lowered_matching_and_extensions() {
    assert!(lowered_fields_match("radiohead", "kid a", "idioteque", "kid"));
    assert!(lowered_fields_match("radiohead", "kid a", "idioteque", ""));
    assert!(!lowered_fields_match("radiohead", "kid a", "idioteque", "Kid"));
    assert!(!lowered_fields_match("a", "b", "c", "abc"));
    assert!(is_audio_ext_lowered("flac"));
    assert!(!is_audio_ext_lowered("FLAC"));
    assert!(!is_audio_ext_lowered("txt"));
}
