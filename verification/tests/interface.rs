use music::player::{Player, PlayerAction, PlayerInput};
use music::state::{App, Key, MusicStreamEvent, PlaybackMode, VimMode};
use music::track::TrackDetails;

fn track(artist: &str, album: &str, title: &str, duration: u64) -> TrackDetails {
    TrackDetails {
        artist: artist.to_string(),
        album: album.to_string(),
        track_no: 1,
        title: title.to_string(),
        date: "2020".to_string(),
        song_path: format!("/music/{}.mp3", title),
        duration,
    }
}

fn app() -> App {
    App::new(
        vec![
            track("Radiohead", "OK Computer", "Karma Police", 261),
            track("David Bowie", "Ziggy Stardust", "Starman", 254),
            track("Pink Floyd", "The Wall", "Comfortably Numb", 382),
        ],
        1_000,
    )
}

const MS: u128 = 1_000_000;

#[test]
fn new_app_sorts_and_shows_everything() {
    let a = app();
    assert_eq!(a.songs.len(), 3);
    assert_eq!(a.songs[0].artist, "David Bowie");
    assert_eq!(a.songs[2].artist, "Radiohead");
    assert_eq!(a.counter, 0);
    assert_eq!(a.mode, VimMode::Normal);
    assert_eq!(a.playback_mode, PlaybackMode::NotPlaying);
    assert_eq!(a.list_title(), "Playlist");
    assert!(a.now_playing().is_none());
    assert!(a.progress(5_000).is_none());
}

#[test]
fn moving_stays_within_the_list() {
    let mut a = app();
    a.handle_key_event(Key::Char('k'), 0);
    assert_eq!(a.counter, 0);
    a.handle_key_event(Key::Char('j'), 0);
    a.handle_key_event(Key::Char('j'), 0);
    a.handle_key_event(Key::Char('j'), 0);
    assert_eq!(a.counter, 2);
    a.handle_key_event(Key::Char('k'), 0);
    assert_eq!(a.counter, 1);
    a.handle_key_event(Key::Char('G'), 0);
    assert_eq!(a.counter, 2);
}

#[test]
fn double_g_goes_to_top_only_when_quick() {
    let mut a = app();
    a.handle_key_event(Key::Char('G'), 0);
    a.handle_key_event(Key::Char('g'), 10 * MS);
    a.handle_key_event(Key::Char('g'), 500 * MS);
    assert_eq!(a.counter, 2);
    a.handle_key_event(Key::Char('g'), 700 * MS);
    assert_eq!(a.counter, 0);
    assert_eq!(a.last_key, ' ');
}

#[test]
fn searching_filters_and_escape_restores() {
    let mut a = app();
    a.handle_key_event(Key::Char('j'), 0);
    a.handle_key_event(Key::Char('/'), 0);
    assert_eq!(a.mode, VimMode::Search);
    for c in "STAR".chars() {
        assert!(a.handle_key_event(Key::Char(c), 0).is_none());
    }
    assert_eq!(a.search_buff, "STAR");
    assert_eq!(a.list_title(), "Searching: STAR");
    assert_eq!(a.songs.len(), 1);
    assert_eq!(a.songs[0].title, "Starman");
    assert_eq!(a.counter, 0);
    a.handle_key_event(Key::Backspace, 0);
    a.handle_key_event(Key::Backspace, 0);
    a.handle_key_event(Key::Backspace, 0);
    assert_eq!(a.search_buff, "S");
    assert_eq!(a.songs.len(), 1);
    a.handle_key_event(Key::Backspace, 0);
    assert_eq!(a.search_buff, "");
    assert_eq!(a.songs.len(), 3);
    a.handle_key_event(Key::Char('o'), 0);
    assert_eq!(a.songs.len(), 3);
    a.handle_key_event(Key::Esc, 0);
    assert_eq!(a.mode, VimMode::Normal);
    assert_eq!(a.search_buff, "");
    assert_eq!(a.songs.len(), 3);
}

#[test]
fn backspace_on_empty_query_changes_nothing() {
    let mut a = app();
    a.handle_key_event(Key::Char('j'), 0);
    a.handle_key_event(Key::Char('/'), 0);
    a.handle_key_event(Key::Backspace, 0);
    assert_eq!(a.counter, 1);
    assert_eq!(a.songs.len(), 3);
}

#[test]
fn enter_in_search_keeps_the_result() {
    let mut a = app();
    a.handle_key_event(Key::Char('/'), 0);
    a.handle_key_event(Key::Char('w'), 0);
    a.handle_key_event(Key::Char('a'), 0);
    a.handle_key_event(Key::Enter, 0);
    assert_eq!(a.mode, VimMode::Normal);
    assert_eq!(a.search_buff, "");
    assert_eq!(a.songs.len(), 1);
    assert_eq!(a.songs[0].album, "The Wall");
    a.handle_key_event(Key::Char('q'), 0);
    assert!(a.exit);
}

#[test]
fn q_types_while_searching_and_quits_otherwise() {
    let mut a = app();
    a.handle_key_event(Key::Char('/'), 0);
    a.handle_key_event(Key::Char('q'), 0);
    assert!(!a.exit);
    assert_eq!(a.search_buff, "q");
    a.handle_key_event(Key::Esc, 0);
    a.handle_key_event(Key::Char('q'), 0);
    assert!(a.exit);
}

#[test]
fn enter_plays_and_p_pauses_and_resumes() {
    let mut a = app();
    assert!(a.handle_key_event(Key::Char('p'), 0).is_none());
    a.handle_key_event(Key::Char('j'), 0);
    match a.handle_key_event(Key::Enter, 1_000 * MS) {
        Some(MusicStreamEvent::NewSongEvent(t)) => assert_eq!(t.title, "Comfortably Numb"),
        other => panic!("unexpected {:?}", other),
    }
    assert_eq!(a.playback_mode, PlaybackMode::Playing);
    assert_eq!(a.now_playing().unwrap().title, "Comfortably Numb");
    assert_eq!(a.get_time_elapsed(3_000 * MS), 2_000 * MS);
    assert_eq!(a.progress(3_000 * MS), Some((2_000 * MS, 382)));
    match a.handle_key_event(Key::Char('p'), 4_000 * MS) {
        Some(MusicStreamEvent::PlaybackEvent(PlaybackMode::Paused)) => {}
        other => panic!("unexpected {:?}", other),
    }
    assert_eq!(a.elapsed_before_paused, 3_000 * MS);
    match a.handle_key_event(Key::Char('p'), 9_000 * MS) {
        Some(MusicStreamEvent::PlaybackEvent(PlaybackMode::Playing)) => {}
        other => panic!("unexpected {:?}", other),
    }
    assert_eq!(a.get_time_elapsed(10_000 * MS), 4_000 * MS);
    a.song_finished();
    assert!(a.now_playing().is_none());
    assert!(a.progress(11_000 * MS).is_none());
}

#[test]
fn moving_down_an_empty_list_is_refused() {
    let mut a = App::new(vec![], 0);
    assert!(!a.accepts_key(Key::Char('j'), 0));
    assert!(!a.accepts_key(Key::Char('G'), 0));
    assert!(a.accepts_key(Key::Char('k'), 0));
    assert!(a.handle_key_event(Key::Enter, 0).is_none());
    a.handle_key_event(Key::Char('/'), 0);
    assert!(a.accepts_key(Key::Char('j'), 0));
}

#[test]
fn player_starts_pauses_resumes_and_finishes() {
    let mut p = Player::new();
    assert_eq!(p.wait_limit(), None);
    match p.step(PlayerInput::Message(MusicStreamEvent::NewSongEvent(track("a", "b", "c", 3))), 0) {
        PlayerAction::Play(t) => assert_eq!(t.title, "c"),
        other => panic!("unexpected {:?}", other),
    }
    assert_eq!(p.wait_limit(), Some(3_000_000_000));
    assert!(matches!(
        p.step(PlayerInput::Message(MusicStreamEvent::PlaybackEvent(PlaybackMode::Paused)), 1_000_000_000),
        PlayerAction::Pause
    ));
    assert_eq!(p.wait_limit(), None);
    assert!(matches!(
        p.step(PlayerInput::Message(MusicStreamEvent::PlaybackEvent(PlaybackMode::Playing)), 5_000_000_000),
        PlayerAction::Resume
    ));
    assert_eq!(p.wait_limit(), Some(2_000_000_000));
    assert!(matches!(p.step(PlayerInput::TimedOut, 2_000_000_000), PlayerAction::Finished));
    assert!(matches!(p.step(PlayerInput::Disconnected, 0), PlayerAction::Nothing));
}

#[test]
fn player_stops_without_a_first_track() {
    let mut p = Player::new();
    assert!(matches!(
        p.step(PlayerInput::Message(MusicStreamEvent::PlaybackEvent(PlaybackMode::Playing)), 0),
        PlayerAction::Stop
    ));
    let mut q = Player::new();
    assert!(matches!(q.step(PlayerInput::Disconnected, 0), PlayerAction::Stop));
}

#[test]
fn the_player_plays_what_the_interface_chose() {
    let mut a = app();
    let mut p = Player::new();
    a.handle_key_event(Key::Char('j'), 0);
    let sent = a.handle_key_event(Key::Enter, 0).unwrap();
    match p.step(PlayerInput::Message(sent), 0) {
        PlayerAction::Play(t) => assert_eq!(t, a.songs[1]),
        other => panic!("unexpected {:?}", other),
    }
    let sent = a.handle_key_event(Key::Char('p'), 5).unwrap();
    assert!(matches!(p.step(PlayerInput::Message(sent), 0), PlayerAction::Pause));
    let sent = a.handle_key_event(Key::Char('p'), 6).unwrap();
    assert!(matches!(p.step(PlayerInput::Message(sent), 0), PlayerAction::Resume));
}

#[test]
fn player_reports_and_time_checks() {
    let mut a = app();
    assert!(a.time_fits(0));
    a.handle_key_event(Key::Enter, 10);
    assert_eq!(a.shown_playback(PlaybackMode::Playing), PlaybackMode::Playing);
    assert_eq!(a.shown_playback(PlaybackMode::NotPlaying), PlaybackMode::NotPlaying);
    a.sync_playback(PlaybackMode::Playing);
    assert_eq!(a.playback_mode, PlaybackMode::Playing);
    a.sync_playback(PlaybackMode::NotPlaying);
    assert_eq!(a.playback_mode, PlaybackMode::NotPlaying);
    a.elapsed_before_paused = u128::MAX;
    assert!(!a.time_fits(0));
}

#[test]
fn up_then_down_returns() {
    let mut a = app();
    a.handle_key_event(Key::Char('j'), 0);
    a.handle_key_event(Key::Char('k'), 0);
    a.handle_key_event(Key::Char('j'), 0);
    assert_eq!(a.counter, 1);
    a.handle_key_event(Key::Char('k'), 0);
    a.handle_key_event(Key::Char('j'), 0);
    assert_eq!(a.counter, 1);
}
