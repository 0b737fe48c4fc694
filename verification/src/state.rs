//! The interface's state and what each key press does to it.
//!
//! Time is given as nanoseconds since a fixed instant chosen by the caller;
//! the state records instants in the same unit.

use vstd::prelude::*;
use vstd::string::StringExecFns;
use crate::text::{push_char, pop_char, clear_string};
use crate::track::{TrackDetails, clone_tracks, sort_tracks, is_sorted};
use crate::search::{filtered, filter_tracks};

verus! {

/// Whether keys move through the list or type into the search query.
#[derive(Debug, Clone, Copy, PartialEq, Eq, Structural)]
pub enum VimMode {
    Search,
    Normal,
}

/// What the player is doing.
#[derive(Debug, Clone, Copy, PartialEq, Eq, Structural)]
pub enum PlaybackMode {
    Paused,
    Playing,
    NotPlaying,
}

/// A message from the interface to the player.
#[derive(Debug)]
pub enum MusicStreamEvent {
    NewSongEvent(TrackDetails),
    PlaybackEvent(PlaybackMode),
}

/// A key press, as the interface reads it.
#[derive(Debug, Clone, Copy, PartialEq, Eq, Structural)]
pub enum Key {
    Char(char),
    Esc,
    Enter,
    Backspace,
    Other,
}

/// The most tracks the list may hold: the selection counter steps down
/// through a signed 32-bit value.
pub open spec fn max_tracks() -> nat {
    0x7fff_ffff
}

/// The longest span of time, in nanoseconds, that the elapsed-time
/// bookkeeping can hold: `u64::MAX` seconds and 999,999,999 nanoseconds.
pub open spec fn max_span() -> nat {
    18_446_744_073_709_551_615_999_999_999
}

/// Time from `start` to `now`, or zero if `now` is earlier.
pub open spec fn since(start: u128, now: u128) -> nat {
    if now >= start { (now - start) as nat } else { 0 }
}

/// The window, in nanoseconds, within which a second `g` returns to the top.
pub open spec fn double_tap_window() -> nat {
    300_000_000
}

/// The state of the interface.
pub struct App {
    /// Position of the highlighted row in `songs`.
    pub counter: u32,
    /// Set when the user asked to quit.
    pub exit: bool,
    /// The list shown: the whole library or the result of a search.
    pub songs: Vec<TrackDetails>,
    /// The track last chosen for playing.
    pub selected: Option<TrackDetails>,
    /// When playing last started or resumed.
    pub play_start: Option<u128>,
    /// Playing time accumulated before the last pause.
    pub elapsed_before_paused: u128,
    pub mode: VimMode,
    pub playback_mode: PlaybackMode,
    /// The query typed so far.
    pub search_buff: String,
    /// The whole library, in order.
    pub unfiltered_songs: Vec<TrackDetails>,
    /// The last key that starts a two-key command.
    pub last_key: char,
    /// When `last_key` was pressed.
    pub key_pressed_time: u128,
}

/// The state of the interface as values.
#[verifier::ext_equal]
pub struct AppView {
    pub counter: u32,
    pub exit: bool,
    pub songs: Seq<TrackDetails>,
    pub selected: Option<TrackDetails>,
    pub play_start: Option<u128>,
    pub elapsed_before_paused: u128,
    pub mode: VimMode,
    pub playback_mode: PlaybackMode,
    pub search_buff: Seq<char>,
    pub unfiltered_songs: Seq<TrackDetails>,
    pub last_key: char,
    pub key_pressed_time: u128,
}

impl View for App {
    type V = AppView;

    open spec fn view(&self) -> AppView {
        AppView {
            counter: self.counter,
            exit: self.exit,
            songs: self.songs@,
            selected: self.selected,
            play_start: self.play_start,
            elapsed_before_paused: self.elapsed_before_paused,
            mode: self.mode,
            playback_mode: self.playback_mode,
            search_buff: self.search_buff@,
            unfiltered_songs: self.unfiltered_songs@,
            last_key: self.last_key,
            key_pressed_time: self.key_pressed_time,
        }
    }
}

impl AppView {
    /// The invariant of the interface state.
    pub open spec fn wf(self) -> bool {
        &&& self.unfiltered_songs.len() <= max_tracks()
        &&& self.songs.len() <= self.unfiltered_songs.len()
        &&& forall|i: int| 0 <= i < self.songs.len() ==> self.unfiltered_songs.contains(#[trigger] self.songs[i])
        &&& (self.counter == 0 || self.counter < self.songs.len())
        &&& (self.mode == VimMode::Normal ==> self.search_buff.len() == 0)
        &&& (self.playback_mode != PlaybackMode::NotPlaying ==> self.selected is Some && self.play_start is Some)
        &&& self.elapsed_before_paused <= max_span()
    }

    /// The playing time shown at `now`: the time before the last pause plus
    /// the time since playing last started.
    pub open spec fn time_elapsed(self, now: u128) -> nat {
        (self.elapsed_before_paused + match self.play_start {
            Some(start) => since(start, now),
            None => 0,
        }) as nat
    }

    /// The inputs on which handling `key` at `now` would fail: moving down or
    /// to the bottom of an empty list, or pausing when the playing time no
    /// longer fits the bookkeeping.
    pub open spec fn key_accepted(self, key: Key, now: u128) -> bool {
        self.mode == VimMode::Normal ==> {
            &&& (key == Key::Char('j') || key == Key::Char('G')) ==> self.songs.len() > 0
            &&& (key == Key::Char('p') && self.playback_mode == PlaybackMode::Playing) ==> self.time_elapsed(now) <= max_span()
        }
    }

    /// The state and message after pressing `key` at `now`, in normal mode.
    pub open spec fn normal_key(self, key: Key, now: u128) -> (AppView, Option<MusicStreamEvent>) {
        match key {
            Key::Char(c) => {
                if c == 'q' {
                    (AppView { exit: true, ..self }, None)
                } else if c == 'j' {
                    let next: u32 = if self.counter + 1 < self.songs.len() {
                        (self.counter + 1) as u32
                    } else {
                        (self.songs.len() - 1) as u32
                    };
                    (AppView { counter: next, ..self }, None)
                } else if c == 'k' {
                    let next: u32 = if self.counter == 0 { 0u32 } else { (self.counter - 1) as u32 };
                    (AppView { counter: next, ..self }, None)
                } else if c == '/' {
                    (AppView { mode: VimMode::Search, ..self }, None)
                } else if c == 'g' {
                    if self.last_key == 'g' && since(self.key_pressed_time, now) < double_tap_window() {
                        (AppView { counter: 0, last_key: ' ', ..self }, None)
                    } else {
                        (AppView { last_key: 'g', key_pressed_time: now, ..self }, None)
                    }
                } else if c == 'G' {
                    (AppView { counter: (self.songs.len() - 1) as u32, ..self }, None)
                } else if c == 'p' {
                    match self.playback_mode {
                        PlaybackMode::NotPlaying => (self, None),
                        PlaybackMode::Playing => (
                            AppView {
                                playback_mode: PlaybackMode::Paused,
                                elapsed_before_paused: self.time_elapsed(now) as u128,
                                ..self
                            },
                            Some(MusicStreamEvent::PlaybackEvent(PlaybackMode::Paused)),
                        ),
                        PlaybackMode::Paused => (
                            AppView { playback_mode: PlaybackMode::Playing, play_start: Some(now), ..self },
                            Some(MusicStreamEvent::PlaybackEvent(PlaybackMode::Playing)),
                        ),
                    }
                } else {
                    (self, None)
                }
            },
            Key::Esc => (
                AppView {
                    search_buff: Seq::empty(),
                    mode: VimMode::Normal,
                    songs: self.unfiltered_songs,
                    ..self
                },
                None,
            ),
            Key::Enter => {
                if self.songs.len() == 0 {
                    (self, None)
                } else {
                    let t = self.songs[self.counter as int];
                    (
                        AppView {
                            selected: Some(t),
                            playback_mode: PlaybackMode::Playing,
                            play_start: Some(now),
                            ..self
                        },
                        Some(MusicStreamEvent::NewSongEvent(t)),
                    )
                }
            },
            _ => (self, None),
        }
    }

    /// The state after pressing `key` in search mode.
    pub open spec fn search_key(self, key: Key) -> AppView {
        match key {
            Key::Char(c) => {
                let q = self.search_buff.push(c);
                AppView { search_buff: q, songs: filtered(self.unfiltered_songs, q), counter: 0, ..self }
            },
            Key::Backspace => {
                if self.search_buff.len() == 0 {
                    self
                } else {
                    let q = self.search_buff.drop_last();
                    AppView { search_buff: q, songs: filtered(self.unfiltered_songs, q), counter: 0, ..self }
                }
            },
            Key::Enter => AppView { search_buff: Seq::empty(), mode: VimMode::Normal, ..self },
            Key::Esc => AppView {
                counter: 0,
                search_buff: Seq::empty(),
                mode: VimMode::Normal,
                songs: self.unfiltered_songs,
                ..self
            },
            _ => self,
        }
    }

    /// The state and message after pressing `key` at `now`.
    pub open spec fn key_transition(self, key: Key, now: u128) -> (AppView, Option<MusicStreamEvent>) {
        if self.mode == VimMode::Normal {
            self.normal_key(key, now)
        } else {
            (self.search_key(key), None)
        }
    }
}

/// Time from `start` to `now`, or zero if `now` is earlier.
fn time_since(start: u128, now: u128) -> (r: u128)
    ensures
        r == since(start, now),
{
    if now >= start { now - start } else { 0 }
}

/// Every element of `s` is an element of `s`.
proof fn lemma_contains_own(s: Seq<TrackDetails>)
    ensures
        forall|i: int| 0 <= i < s.len() ==> s.contains(#[trigger] s[i]),
{
    assert forall|i: int| 0 <= i < s.len() implies s.contains(#[trigger] s[i]) by {
        assert(s[i] == s[i]);
    }
}

impl App {
    /// The invariant of the interface state.
    pub open spec fn wf(&self) -> bool {
        self@.wf()
    }

    /// The interface over a scanned library, at `now`: the library sorted,
    /// shown whole, nothing selected or playing, in normal mode.
    pub fn new(songs: Vec<TrackDetails>, now: u128) -> (app: App)
        requires
            songs.len() <= max_tracks(),
        ensures
            app.wf(),
            is_sorted(app.unfiltered_songs@),
            app.unfiltered_songs@.to_multiset() == songs@.to_multiset(),
            app.songs@ == app.unfiltered_songs@,
            app.counter == 0,
            !app.exit,
            app.selected is None,
            app.play_start is None,
            app.elapsed_before_paused == 0,
            app.mode == VimMode::Normal,
            app.playback_mode == PlaybackMode::NotPlaying,
            app.search_buff@.len() == 0,
            app.last_key == ' ',
            app.key_pressed_time == now,
    {
        let sorted = sort_tracks(&songs);
        proof {
            lemma_contains_own(sorted@);
        }
        let unfiltered = clone_tracks(&sorted);
        App {
            counter: 0,
            exit: false,
            songs: sorted,
            selected: None,
            play_start: None,
            elapsed_before_paused: 0,
            mode: VimMode::Normal,
            playback_mode: PlaybackMode::NotPlaying,
            search_buff: String::new(),
            unfiltered_songs: unfiltered,
            last_key: ' ',
            key_pressed_time: now,
        }
    }

    /// The library narrowed to the current query.
    fn filter_songs(&self) -> (r: Vec<TrackDetails>)
        ensures
            r@ == filtered(self.unfiltered_songs@, self.search_buff@),
    {
        filter_tracks(self.unfiltered_songs.as_slice(), self.search_buff.as_str())
    }

    /// Asks to quit.
    fn exit(&mut self)
        ensures
            final(self)@ == (AppView { exit: true, ..old(self)@ }),
    {
        self.exit = true;
    }

    /// Moves the highlight one row down, stopping at the last row.
    fn increment_counter(&mut self)
        requires
            old(self).songs.len() > 0,
            old(self).songs.len() <= max_tracks(),
        ensures
            final(self)@ == (AppView {
                counter: if old(self).counter + 1 < old(self).songs.len() {
                    (old(self).counter + 1) as u32
                } else {
                    (old(self).songs.len() - 1) as u32
                },
                ..old(self)@
            }),
    {
        let last: u32 = (self.songs.len() - 1) as u32;
        if (self.counter as usize) < self.songs.len() - 1 {
            self.counter = self.counter + 1;
        } else {
            self.counter = last;
        }
    }

    /// Moves the highlight one row up, stopping at the first row.
    fn decrement_counter(&mut self)
        ensures
            final(self)@ == (AppView {
                counter: if old(self).counter == 0 { 0u32 } else { (old(self).counter - 1) as u32 },
                ..old(self)@
            }),
    {
        if self.counter > 0 {
            self.counter = self.counter - 1;
        }
    }

    /// Whether handling `key` at `now` is within what the interface accepts
    /// (see `AppView::key_accepted`).
    pub fn accepts_key(&self, key: Key, now: u128) -> (r: bool)
        requires
            self.wf(),
        ensures
            r == self@.key_accepted(key, now),
    {
        if self.mode != VimMode::Normal {
            return true;
        }
        if key == Key::Char('j') || key == Key::Char('G') {
            return self.songs.len() > 0;
        }
        if key == Key::Char('p') && self.playback_mode == PlaybackMode::Playing {
            let ran: u128 = match self.play_start {
                Some(start) => time_since(start, now),
                None => 0,
            };
            return ran <= 18_446_744_073_709_551_615_999_999_999u128 - self.elapsed_before_paused;
        }
        true
    }

    /// Handles one key press at `now`: updates the state and returns the
    /// message for the player, if any.
    pub fn handle_key_event(&mut self, key: Key, now: u128) -> (sent: Option<MusicStreamEvent>)
        requires
            old(self).wf(),
            old(self)@.key_accepted(key, now),
        ensures
            final(self).wf(),
            (final(self)@, sent) == old(self)@.key_transition(key, now),
    {
        let ghost pre = self@;
        if self.mode == VimMode::Normal {
            match key {
                Key::Char(c) => {
                    if c == 'q' {
                        self.exit();
                        None
                    } else if c == 'j' {
                        self.increment_counter();
                        None
                    } else if c == 'k' {
                        self.decrement_counter();
                        None
                    } else if c == '/' {
                        self.mode = VimMode::Search;
                        None
                    } else if c == 'g' {
                        if self.last_key == 'g' && time_since(self.key_pressed_time, now) < 300_000_000 {
                            self.counter = 0;
                            self.last_key = ' ';
                        } else {
                            self.last_key = 'g';
                            self.key_pressed_time = now;
                        }
                        None
                    } else if c == 'G' {
                        self.counter = (self.songs.len() - 1) as u32;
                        None
                    } else if c == 'p' {
                        match self.playback_mode {
                            PlaybackMode::NotPlaying => None,
                            PlaybackMode::Playing => {
                                self.playback_mode = PlaybackMode::Paused;
                                let ran: u128 = match self.play_start {
                                    Some(start) => time_since(start, now),
                                    None => 0,
                                };
                                self.elapsed_before_paused = self.elapsed_before_paused + ran;
                                Some(MusicStreamEvent::PlaybackEvent(PlaybackMode::Paused))
                            },
                            PlaybackMode::Paused => {
                                self.playback_mode = PlaybackMode::Playing;
                                self.play_start = Some(now);
                                Some(MusicStreamEvent::PlaybackEvent(PlaybackMode::Playing))
                            },
                        }
                    } else {
                        None
                    }
                },
                Key::Esc => {
                    clear_string(&mut self.search_buff);
                    self.mode = VimMode::Normal;
                    self.songs = clone_tracks(&self.unfiltered_songs);
                    proof {
                        lemma_contains_own(self.unfiltered_songs@);
                    }
                    None
                },
                Key::Enter => {
                    if self.songs.len() == 0 {
                        None
                    } else {
                        let t = self.songs[self.counter as usize].clone();
                        self.selected = Some(t.clone());
                        self.playback_mode = PlaybackMode::Playing;
                        self.play_start = Some(now);
                        Some(MusicStreamEvent::NewSongEvent(t))
                    }
                },
                _ => None,
            }
        } else {
            match key {
                Key::Char(c) => {
                    push_char(&mut self.search_buff, c);
                    self.songs = self.filter_songs();
                    self.counter = 0;
                    proof {
                        crate::search::lemma_filter_exact(self.unfiltered_songs@, self.search_buff@);
                    }
                },
                Key::Backspace => {
                    if pop_char(&mut self.search_buff).is_some() {
                        self.songs = self.filter_songs();
                        self.counter = 0;
                        proof {
                            crate::search::lemma_filter_exact(self.unfiltered_songs@, self.search_buff@);
                        }
                    }
                },
                Key::Enter => {
                    clear_string(&mut self.search_buff);
                    self.mode = VimMode::Normal;
                },
                Key::Esc => {
                    self.counter = 0;
                    clear_string(&mut self.search_buff);
                    self.mode = VimMode::Normal;
                    self.songs = clone_tracks(&self.unfiltered_songs);
                    proof {
                        lemma_contains_own(self.unfiltered_songs@);
                    }
                },
                _ => {},
            }
            None
        }
    }
}

impl App {
    /// The player reports that the song played to its end.
    pub fn song_finished(&mut self)
        requires
            old(self).wf(),
        ensures
            final(self).wf(),
            final(self)@ == (AppView { playback_mode: PlaybackMode::NotPlaying, ..old(self)@ }),
    {
        self.playback_mode = PlaybackMode::NotPlaying;
    }

    /// Whether the playing time at `now` fits the bookkeeping, as
    /// `get_time_elapsed` and `progress` need.
    pub fn time_fits(&self, now: u128) -> (r: bool)
        ensures
            r == (self@.time_elapsed(now) <= max_span()),
    {
        let ran: u128 = match self.play_start {
            Some(start) => time_since(start, now),
            None => 0,
        };
        let limit: u128 = 18_446_744_073_709_551_615_999_999_999u128;
        self.elapsed_before_paused <= limit && ran <= limit - self.elapsed_before_paused
    }

    /// Takes in what the player reports through the shared playback mode:
    /// when it reports that nothing plays, nothing plays; any other report
    /// leaves the state as it is.
    pub fn sync_playback(&mut self, shared: PlaybackMode)
        requires
            old(self).wf(),
        ensures
            final(self).wf(),
            final(self)@ == if shared == PlaybackMode::NotPlaying {
                AppView { playback_mode: PlaybackMode::NotPlaying, ..old(self)@ }
            } else {
                old(self)@
            },
    {
        if shared == PlaybackMode::NotPlaying {
            self.song_finished();
        }
    }

    /// The playback mode to show, given the shared mode the player reports:
    /// nothing plays once the player says so, else the interface's own mode.
    pub fn shown_playback(&self, shared: PlaybackMode) -> (r: PlaybackMode)
        ensures
            r == if shared == PlaybackMode::NotPlaying { PlaybackMode::NotPlaying } else { self.playback_mode },
    {
        if shared == PlaybackMode::NotPlaying {
            PlaybackMode::NotPlaying
        } else {
            self.playback_mode
        }
    }

    /// The playing time, in nanoseconds, at `now`: the time played before
    /// the last pause plus the time since playing last started.
    pub fn get_time_elapsed(&self, now: u128) -> (r: u128)
        requires
            self@.time_elapsed(now) <= max_span(),
        ensures
            r == self@.time_elapsed(now),
    {
        let ran: u128 = match self.play_start {
            Some(start) => time_since(start, now),
            None => 0,
        };
        self.elapsed_before_paused + ran
    }

    /// The title of the list: "Playlist", or "Searching: " and the query.
    pub fn list_title(&self) -> (r: String)
        ensures
            r@ == if self.mode == VimMode::Normal {
                "Playlist"@
            } else {
                "Searching: "@ + self.search_buff@
            },
    {
        if self.mode == VimMode::Normal {
            String::from_str("Playlist")
        } else {
            let mut t = String::from_str("Searching: ");
            t.append(self.search_buff.as_str());
            t
        }
    }

    /// The track shown under "Now Playing": the selected track, while it is
    /// playing or paused.
    pub fn now_playing(&self) -> (r: Option<&TrackDetails>)
        ensures
            r is Some <==> (self.playback_mode != PlaybackMode::NotPlaying && self.selected is Some),
            r matches Some(t) ==> self.selected == Some(*t),
    {
        if self.playback_mode == PlaybackMode::NotPlaying {
            return None;
        }
        match &self.selected {
            Some(t) => Some(t),
            None => None,
        }
    }

    /// The progress shown at `now`, while a track is playing or paused: the
    /// playing time in nanoseconds and the track's length in seconds.
    pub fn progress(&self, now: u128) -> (r: Option<(u128, u64)>)
        requires
            self.wf(),
            self@.time_elapsed(now) <= max_span(),
        ensures
            r is Some <==> self.playback_mode != PlaybackMode::NotPlaying,
            r matches Some((ran, length)) ==> (ran == self@.time_elapsed(now)
                && (self.selected matches Some(t) && length == t.duration)),
    {
        if self.playback_mode == PlaybackMode::NotPlaying {
            return None;
        }
        let ran: u128 = self.get_time_elapsed(now);
        match &self.selected {
            Some(t) => Some((ran, t.duration)),
            None => None,
        }
    }
}

/// No key press changes the library itself.
pub proof fn lemma_library_unchanged(v: AppView, key: Key, now: u128)
    ensures
        v.key_transition(key, now).0.unfiltered_songs == v.unfiltered_songs,
{
}

/// Escape, in either mode, shows the whole library again, clears the query
/// and returns to normal mode, sending nothing to the player.
pub proof fn lemma_escape_restores(v: AppView, now: u128)
    ensures
        v.key_transition(Key::Esc, now).0.songs == v.unfiltered_songs,
        v.key_transition(Key::Esc, now).0.search_buff.len() == 0,
        v.key_transition(Key::Esc, now).0.mode == VimMode::Normal,
        v.key_transition(Key::Esc, now).1 is None,
{
}

/// While searching, typing a character appends it to the query and shows
/// exactly the library's matches for the new query, from the top.
pub proof fn lemma_typing_searches(v: AppView, c: char, now: u128)
    requires
        v.mode == VimMode::Search,
    ensures
        v.key_transition(Key::Char(c), now).0.search_buff == v.search_buff.push(c),
        v.key_transition(Key::Char(c), now).0.songs
            == filtered(v.unfiltered_songs, v.search_buff.push(c)),
        v.key_transition(Key::Char(c), now).0.counter == 0,
        v.key_transition(Key::Char(c), now).1 is None,
{
}

/// While searching, a backspace undoes the character typed before it: the
/// query is back as it was and the list shows its matches.
pub proof fn lemma_backspace_undoes_typing(v: AppView, c: char, t1: u128, t2: u128)
    requires
        v.mode == VimMode::Search,
    ensures ({
        let typed = v.key_transition(Key::Char(c), t1).0;
        let back = typed.key_transition(Key::Backspace, t2).0;
        &&& back.search_buff == v.search_buff
        &&& back.songs == filtered(v.unfiltered_songs, v.search_buff)
        &&& back.mode == VimMode::Search
    }),
{
    assert(v.search_buff.push(c).drop_last() =~= v.search_buff);
}

/// In normal mode `p` pauses what plays and resumes what is paused, telling
/// the player so, and does nothing while nothing plays; pressed twice it
/// returns to the mode it started from.
pub proof fn lemma_pause_toggles(v: AppView, t1: u128, t2: u128)
    requires
        v.mode == VimMode::Normal,
    ensures ({
        let (once, sent) = v.key_transition(Key::Char('p'), t1);
        let (twice, sent2) = once.key_transition(Key::Char('p'), t2);
        &&& v.playback_mode == PlaybackMode::Playing ==> once.playback_mode == PlaybackMode::Paused
            && sent == Some(MusicStreamEvent::PlaybackEvent(PlaybackMode::Paused))
        &&& v.playback_mode == PlaybackMode::Paused ==> once.playback_mode == PlaybackMode::Playing
            && sent == Some(MusicStreamEvent::PlaybackEvent(PlaybackMode::Playing))
        &&& v.playback_mode == PlaybackMode::NotPlaying ==> once == v && sent is None
        &&& twice.playback_mode == v.playback_mode
    }),
{
}

/// In normal mode, Enter on a non-empty list plays the highlighted track:
/// it becomes the selection and the player is told to play it.
pub proof fn lemma_enter_plays_highlighted(v: AppView, now: u128)
    requires
        v.mode == VimMode::Normal,
        v.songs.len() > 0,
        v.wf(),
    ensures
        v.key_transition(Key::Enter, now).0.selected == Some(v.songs[v.counter as int]),
        v.key_transition(Key::Enter, now).0.playback_mode == PlaybackMode::Playing,
        v.key_transition(Key::Enter, now).1 == Some(MusicStreamEvent::NewSongEvent(v.songs[v.counter as int])),
        v.unfiltered_songs.contains(v.songs[v.counter as int]),
{
}

/// In normal mode, `g` pressed twice within 300 ms returns to the top of the list.
pub proof fn lemma_double_g_goes_to_top(v: AppView, t1: u128, t2: u128)
    requires
        v.mode == VimMode::Normal,
        t1 <= t2,
        t2 - t1 < double_tap_window(),
    ensures
        v.key_transition(Key::Char('g'), t1).0.key_transition(Key::Char('g'), t2).0.counter == 0,
{
}

/// In normal mode, moving up and then down returns to the same state when
/// the highlight is not on the first row, and moving down and then up does
/// when it is not on the last row.
pub proof fn lemma_up_down_round_trip(v: AppView, t1: u128, t2: u128)
    requires
        v.wf(),
        v.mode == VimMode::Normal,
    ensures
        v.counter > 0 ==> v.key_transition(Key::Char('k'), t1).0.key_transition(Key::Char('j'), t2).0 == v,
        v.counter + 1 < v.songs.len() ==> v.key_transition(Key::Char('j'), t1).0.key_transition(Key::Char('k'), t2).0 == v,
{
}

/// The fields that say what plays and for how long, and the quit flag, are
/// the same in two states.
pub open spec fn same_playback(a: AppView, b: AppView) -> bool {
    &&& a.playback_mode == b.playback_mode
    &&& a.selected == b.selected
    &&& a.play_start == b.play_start
    &&& a.elapsed_before_paused == b.elapsed_before_paused
    &&& a.exit == b.exit
}

/// Pausing a playing track adds the time since it last started to the
/// accumulated playing time, and keeps the start instant; the player is told
/// to pause.
pub proof fn lemma_pause_adds_played_time(v: AppView, now: u128)
    requires
        v.mode == VimMode::Normal,
        v.playback_mode == PlaybackMode::Playing,
        v.play_start is Some,
        v.time_elapsed(now) <= max_span(),
    ensures ({
        let (w, sent) = v.key_transition(Key::Char('p'), now);
        &&& w.elapsed_before_paused == v.elapsed_before_paused + since(v.play_start->0, now)
        &&& w.play_start == v.play_start
        &&& w.playback_mode == PlaybackMode::Paused
        &&& w.selected == v.selected
        &&& sent == Some(MusicStreamEvent::PlaybackEvent(PlaybackMode::Paused))
    }),
{
}

/// Resuming a paused track restarts its timing at `now` and keeps the
/// accumulated playing time; the player is told to resume.
pub proof fn lemma_resume_restarts_timing(v: AppView, now: u128)
    requires
        v.mode == VimMode::Normal,
        v.playback_mode == PlaybackMode::Paused,
    ensures ({
        let (w, sent) = v.key_transition(Key::Char('p'), now);
        &&& w.play_start == Some(now)
        &&& w.elapsed_before_paused == v.elapsed_before_paused
        &&& w.playback_mode == PlaybackMode::Playing
        &&& w.selected == v.selected
        &&& sent == Some(MusicStreamEvent::PlaybackEvent(PlaybackMode::Playing))
    }),
{
}

/// Play at `t0`, pause at `t1`, resume at `t2`, pause at `t3`: the
/// accumulated playing time grows by both played spans, `t1 - t0` and
/// `t3 - t2`, and the time shown at `t3` is that plus the span since the
/// last resume.
pub proof fn lemma_play_pause_resume_pause_totals(v: AppView, t0: u128, t1: u128, t2: u128, t3: u128)
    requires
        v.wf(),
        v.mode == VimMode::Normal,
        v.songs.len() > 0,
        t0 <= t1 <= t2 <= t3,
        v.elapsed_before_paused + (t1 - t0) + (t3 - t2) <= max_span(),
    ensures ({
        let a = v.key_transition(Key::Enter, t0).0;
        let b = a.key_transition(Key::Char('p'), t1).0;
        let c = b.key_transition(Key::Char('p'), t2).0;
        let d = c.key_transition(Key::Char('p'), t3).0;
        &&& b.elapsed_before_paused == v.elapsed_before_paused + (t1 - t0)
        &&& c.playback_mode == PlaybackMode::Playing
        &&& d.elapsed_before_paused == v.elapsed_before_paused + (t1 - t0) + (t3 - t2)
        &&& d.playback_mode == PlaybackMode::Paused
    }),
{
    lemma_pause_adds_played_time(v.key_transition(Key::Enter, t0).0, t1);
}

/// Enter in normal mode on a non-empty list starts timing the chosen track
/// at `now`: the time shown later counts from `now`, on top of the time
/// accumulated before.
pub proof fn lemma_enter_starts_timing(v: AppView, now: u128, later: u128)
    requires
        v.mode == VimMode::Normal,
        v.songs.len() > 0,
    ensures ({
        let w = v.key_transition(Key::Enter, now).0;
        &&& w.play_start == Some(now)
        &&& w.elapsed_before_paused == v.elapsed_before_paused
        &&& w.time_elapsed(later) == v.elapsed_before_paused + since(now, later)
    }),
{
}

/// Enter in normal mode on an empty list changes nothing and sends nothing.
pub proof fn lemma_enter_on_empty_list(v: AppView, now: u128)
    requires
        v.mode == VimMode::Normal,
        v.songs.len() == 0,
    ensures
        v.key_transition(Key::Enter, now).0 == v,
        v.key_transition(Key::Enter, now).1 is None,
{
}

/// Moving in normal mode: `j` goes one row down but not past the last row,
/// `k` one row up but not above the first, `G` to the last row; none of them
/// touches anything but the highlight, and none sends a message.
pub proof fn lemma_moves(v: AppView, now: u128)
    requires
        v.wf(),
        v.mode == VimMode::Normal,
    ensures
        v.songs.len() > 0 ==> {
            let w = v.key_transition(Key::Char('G'), now).0;
            &&& w.counter == v.songs.len() - 1
            &&& w == AppView { counter: w.counter, ..v }
        },
        v.songs.len() > 0 ==> {
            let w = v.key_transition(Key::Char('j'), now).0;
            &&& w.counter == if v.counter + 1 <= v.songs.len() - 1 { v.counter + 1 } else { v.songs.len() - 1 }
            &&& w.counter < v.songs.len()
            &&& w.counter >= v.counter
            &&& w == AppView { counter: w.counter, ..v }
        },
        ({
            let w = v.key_transition(Key::Char('k'), now).0;
            &&& w.counter == if v.counter >= 1 { v.counter - 1 } else { 0 }
            &&& w == AppView { counter: w.counter, ..v }
        }),
        v.key_transition(Key::Char('G'), now).1 is None,
        v.key_transition(Key::Char('j'), now).1 is None,
        v.key_transition(Key::Char('k'), now).1 is None,
{
}

/// `q` in normal mode asks to quit and changes nothing else.
pub proof fn lemma_quit(v: AppView, now: u128)
    requires
        v.mode == VimMode::Normal,
    ensures
        v.key_transition(Key::Char('q'), now).0 == (AppView { exit: true, ..v }),
        v.key_transition(Key::Char('q'), now).1 is None,
{
}

/// Escape, in either mode, changes only what the search shows: what plays,
/// its timing, the selection and the quit flag stay as they were.
pub proof fn lemma_escape_keeps_playback(v: AppView, now: u128)
    ensures
        same_playback(v.key_transition(Key::Esc, now).0, v),
        v.key_transition(Key::Esc, now).0.unfiltered_songs == v.unfiltered_songs,
        v.mode == VimMode::Normal ==> v.key_transition(Key::Esc, now).0.counter == v.counter,
        v.mode == VimMode::Search ==> v.key_transition(Key::Esc, now).0.counter == 0,
{
}

/// While searching, no key touches what plays, its timing, the selection or
/// the quit flag, and nothing is sent to the player.
pub proof fn lemma_search_keys_leave_playback(v: AppView, key: Key, now: u128)
    requires
        v.mode == VimMode::Search,
    ensures
        same_playback(v.key_transition(key, now).0, v),
        v.key_transition(key, now).1 is None,
{
}

/// In normal mode only `p` and Enter change what plays or send anything;
/// every other key leaves playback, timing and selection alone.
pub proof fn lemma_only_p_and_enter_touch_playback(v: AppView, key: Key, now: u128)
    requires
        v.mode == VimMode::Normal,
        key != Key::Char('p'),
        key != Key::Enter,
    ensures
        v.key_transition(key, now).1 is None,
        v.key_transition(key, now).0.playback_mode == v.playback_mode,
        v.key_transition(key, now).0.selected == v.selected,
        v.key_transition(key, now).0.play_start == v.play_start,
        v.key_transition(key, now).0.elapsed_before_paused == v.elapsed_before_paused,
{
}

/// `/` in normal mode starts searching and changes nothing else.
pub proof fn lemma_slash_starts_search(v: AppView, now: u128)
    requires
        v.mode == VimMode::Normal,
    ensures
        v.key_transition(Key::Char('/'), now).0 == (AppView { mode: VimMode::Search, ..v }),
        v.key_transition(Key::Char('/'), now).1 is None,
{
}

/// Enter while searching keeps the list found and the highlight, clears the
/// query and returns to normal mode.
pub proof fn lemma_enter_ends_search(v: AppView, now: u128)
    requires
        v.mode == VimMode::Search,
    ensures ({
        let w = v.key_transition(Key::Enter, now).0;
        &&& w.songs == v.songs
        &&& w.counter == v.counter
        &&& w.search_buff.len() == 0
        &&& w.mode == VimMode::Normal
        &&& same_playback(w, v)
    }),
{
}

/// Backspace on an empty query, and any key that is not a character,
/// Backspace, Enter or Escape, change nothing while searching.
pub proof fn lemma_search_ignores(v: AppView, now: u128)
    requires
        v.mode == VimMode::Search,
    ensures
        v.search_buff.len() == 0 ==> v.key_transition(Key::Backspace, now).0 == v,
        v.key_transition(Key::Other, now).0 == v,
{
}

/// A single `g`, or a second one after the 300 ms window, remembers the key
/// and its time and does not move the highlight.
pub proof fn lemma_single_g_waits(v: AppView, now: u128)
    requires
        v.mode == VimMode::Normal,
        v.last_key != 'g' || since(v.key_pressed_time, now) >= double_tap_window(),
    ensures
        v.key_transition(Key::Char('g'), now).0 == (AppView { last_key: 'g', key_pressed_time: now, ..v }),
{
}

} // verus!
