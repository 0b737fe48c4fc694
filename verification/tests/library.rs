use music::search::filter_tracks;
use music::track::TrackDetails;

fn track(artist: &str, album: &str, title: &str) -> TrackDetails {
    TrackDetails {
        artist: artist.to_string(),
        album: album.to_string(),
        title: title.to_string(),
        track_no: 1,
        date: "2020".to_string(),
        song_path: "/fake/path.mp3".to_string(),
        duration: 180,
    }
}

fn library() -> Vec<TrackDetails> {
    vec![
        track("Radiohead", "OK Computer", "Karma Police"),
        track("Radiohead", "Kid A", "Everything in Its Right Place"),
        track("Pink Floyd", "The Wall", "Comfortably Numb"),
        track(
            "Pink Floyd",
            "Wish You Were Here",
            "Shine On You Crazy Diamond",
        ),
        track("David Bowie", "Ziggy Stardust", "Starman"),
    ]
}

#[test]
fn empty_query_returns_all() {
    let lib = library();
    let result = filter_tracks(&lib, "");
    assert_eq!(result.len(), lib.len());
}

#[test]
fn no_match_returns_empty() {
    let result = filter_tracks(&library(), "zzznomatch");
    assert!(result.is_empty());
}

#[test]
fn filter_by_artist() {
    let result = filter_tracks(&library(), "Radiohead");
    assert_eq!(result.len(), 2);
    assert!(result.iter().all(|t| t.artist == "Radiohead"));
}

#[test]
fn filter_by_album() {
    let result = filter_tracks(&library(), "Kid A");
    assert_eq!(result.len(), 1);
    assert_eq!(result[0].title, "Everything in Its Right Place");
}

#[test]
fn filter_by_title() {
    let result = filter_tracks(&library(), "Starman");
    assert_eq!(result.len(), 1);
    assert_eq!(result[0].artist, "David Bowie");
}

#[test]
fn filter_is_case_insensitive() {
    let upper = filter_tracks(&library(), "RADIOHEAD");
    let lower = filter_tracks(&library(), "radiohead");
    let mixed = filter_tracks(&library(), "rAdIoHeAd");
    assert_eq!(upper.len(), lower.len());
    assert_eq!(lower.len(), mixed.len());
}

#[test]
fn partial_query_matches() {
    let result = filter_tracks(&library(), "wall");
    assert_eq!(result.len(), 1);
    assert_eq!(result[0].album, "The Wall");
}

#[test]
fn filter_matches_multiple_artists() {
    let result = filter_tracks(&library(), "pink");
    assert_eq!(result.len(), 2);
}

#[test]
fn tracks_sort_correctly() {
    let mut tracks = vec![
        track("Radiohead", "OK Computer", "Karma Police"),
        track("Radiohead", "Kid A", "Everything in Its Right Place"),
        track("David Bowie", "Ziggy Stardust", "Starman"),
    ];
    tracks.sort();
    assert_eq!(tracks[0].artist, "David Bowie");
    assert_eq!(tracks[1].album, "Kid A");
    assert_eq!(tracks[2].album, "OK Computer");
}

#[test]
fn track_display_format_owned() {
    let t = track("Radiohead", "OK Computer", "Karma Police");
    let rendered = t.display_line();
    assert!(rendered.contains("Radiohead"));
    assert!(rendered.contains("Karma Police"));
    assert!(rendered.contains("Track 1"));
}
