//! The player's decisions: what to do with each message from the interface,
//! and how long to wait for the next one.
//!
//! Time is counted in nanoseconds.

use vstd::prelude::*;
use crate::track::TrackDetails;
use crate::state::{AppView, Key, MusicStreamEvent, PlaybackMode, VimMode};

verus! {

/// What the player learns while waiting for a message.
#[derive(Debug)]
pub enum PlayerInput {
    /// A message arrived.
    Message(MusicStreamEvent),
    /// The wait limit passed without a message.
    TimedOut,
    /// The interface is gone.
    Disconnected,
}

/// What the player does next.
#[derive(Debug)]
pub enum PlayerAction {
    /// Stop the current sound, if any, and start playing this track.
    Play(TrackDetails),
    /// Pause the sound.
    Pause,
    /// Resume the sound.
    Resume,
    /// Report that the track played to its end.
    Finished,
    /// Stop the player for good.
    Stop,
    /// Keep waiting.
    Nothing,
}

/// The player's state.
#[derive(Debug, Clone, Copy, PartialEq, Eq, Structural)]
pub struct Player {
    /// A first track has been received.
    pub started: bool,
    /// The sound is paused.
    pub paused: bool,
    /// How much of the current track is left to play, in nanoseconds.
    pub remaining: u128,
}

/// Nanoseconds in `secs` seconds.
pub open spec fn secs_to_nanos(secs: u64) -> nat {
    (secs * 1_000_000_000) as nat
}

/// `a - b`, or zero if `b` is larger.
pub open spec fn saturating_sub(a: u128, b: u128) -> u128 {
    if a >= b { (a - b) as u128 } else { 0 }
}

impl Player {
    /// How long to wait for the next message: without limit before the first
    /// track and while paused, else as long as the track has left to play.
    pub open spec fn wait_spec(self) -> Option<u128> {
        if !self.started || self.paused {
            None
        } else {
            Some(self.remaining)
        }
    }

    /// The state and action after `input`, having waited `waited`.
    pub open spec fn transition(self, input: PlayerInput, waited: u128) -> (Player, PlayerAction) {
        if !self.started {
            match input {
                PlayerInput::Message(MusicStreamEvent::NewSongEvent(t)) => (
                    Player { started: true, paused: false, remaining: secs_to_nanos(t.duration) as u128 },
                    PlayerAction::Play(t),
                ),
                _ => (self, PlayerAction::Stop),
            }
        } else {
            match input {
                PlayerInput::Message(MusicStreamEvent::NewSongEvent(t)) => (
                    Player { started: true, paused: false, remaining: secs_to_nanos(t.duration) as u128 },
                    PlayerAction::Play(t),
                ),
                PlayerInput::Message(MusicStreamEvent::PlaybackEvent(mode)) => match mode {
                    PlaybackMode::Paused => (
                        Player { paused: true, remaining: saturating_sub(self.remaining, waited), ..self },
                        PlayerAction::Pause,
                    ),
                    PlaybackMode::Playing => (Player { paused: false, ..self }, PlayerAction::Resume),
                    PlaybackMode::NotPlaying => (self, PlayerAction::Nothing),
                },
                PlayerInput::TimedOut => (self, PlayerAction::Finished),
                PlayerInput::Disconnected => (self, PlayerAction::Nothing),
            }
        }
    }

    /// A player that waits for its first track.
    pub fn new() -> (p: Player)
        ensures
            !p.started,
            !p.paused,
            p.remaining == 0,
    {
        Player { started: false, paused: false, remaining: 0 }
    }

    /// How long to wait for the next message; `None` means without limit.
    pub fn wait_limit(&self) -> (r: Option<u128>)
        ensures
            r == self.wait_spec(),
    {
        if !self.started || self.paused {
            None
        } else {
            Some(self.remaining)
        }
    }

    /// Handles what the wait brought, having waited `waited`: updates the
    /// state and returns the action to take. A time-out comes only from a
    /// wait with a limit.
    pub fn step(&mut self, input: PlayerInput, waited: u128) -> (action: PlayerAction)
        requires
            input is TimedOut ==> old(self).wait_spec() is Some,
        ensures
            (*final(self), action) == old(self).transition(input, waited),
    {
        if !self.started {
            match input {
                PlayerInput::Message(MusicStreamEvent::NewSongEvent(t)) => {
                    self.started = true;
                    self.paused = false;
                    self.remaining = (t.duration as u128) * 1_000_000_000;
                    PlayerAction::Play(t)
                },
                _ => PlayerAction::Stop,
            }
        } else {
            match input {
                PlayerInput::Message(MusicStreamEvent::NewSongEvent(t)) => {
                    self.paused = false;
                    self.remaining = (t.duration as u128) * 1_000_000_000;
                    PlayerAction::Play(t)
                },
                PlayerInput::Message(MusicStreamEvent::PlaybackEvent(mode)) => match mode {
                    PlaybackMode::Paused => {
                        self.paused = true;
                        self.remaining = if self.remaining >= waited { self.remaining - waited } else { 0 };
                        PlayerAction::Pause
                    },
                    PlaybackMode::Playing => {
                        self.paused = false;
                        PlayerAction::Resume
                    },
                    PlaybackMode::NotPlaying => PlayerAction::Nothing,
                },
                PlayerInput::TimedOut => PlayerAction::Finished,
                PlayerInput::Disconnected => PlayerAction::Nothing,
            }
        }
    }
}

/// Before its first track the player does nothing but start that track or
/// stop for good.
pub proof fn lemma_player_waits_for_a_track(p: Player, input: PlayerInput, waited: u128)
    requires
        !p.started,
    ensures
        p.transition(input, waited).1 is Play || p.transition(input, waited).1 is Stop,
        p.transition(input, waited).1 is Stop ==> p.transition(input, waited).0 == p,
{
}

/// The time left to play never grows, except when a new track starts, when it
/// is that track's whole length.
pub proof fn lemma_player_remaining(p: Player, input: PlayerInput, waited: u128)
    ensures
        p.transition(input, waited).1 matches PlayerAction::Play(t)
            ==> p.transition(input, waited).0.remaining == secs_to_nanos(t.duration),
        !(p.transition(input, waited).1 is Play) ==> p.transition(input, waited).0.remaining <= p.remaining,
{
}

/// Pausing and then resuming leaves the track playing with the time waited
/// before the pause taken off what is left.
pub proof fn lemma_player_pause_resume(p: Player, waited: u128, waited2: u128)
    requires
        p.started,
    ensures ({
        let (paused, a1) = p.transition(PlayerInput::Message(MusicStreamEvent::PlaybackEvent(PlaybackMode::Paused)), waited);
        let (resumed, a2) = paused.transition(PlayerInput::Message(MusicStreamEvent::PlaybackEvent(PlaybackMode::Playing)), waited2);
        &&& a1 is Pause
        &&& paused.wait_spec() is None
        &&& a2 is Resume
        &&& resumed.wait_spec() == Some(saturating_sub(p.remaining, waited))
    }),
{
}

/// What the interface sends, the player carries out: Enter on a non-empty
/// list makes the player play the highlighted track, and `p` makes a player
/// that has a track pause while playing and resume while paused.
pub proof fn lemma_interface_drives_player(v: AppView, p: Player, now: u128, waited: u128)
    requires
        v.mode == VimMode::Normal,
    ensures
        v.songs.len() > 0 ==> ({
            let sent = v.key_transition(Key::Enter, now).1;
            sent matches Some(m) && p.transition(PlayerInput::Message(m), waited).1
                == PlayerAction::Play(v.songs[v.counter as int])
        }),
        p.started && v.playback_mode == PlaybackMode::Playing ==> ({
            let sent = v.key_transition(Key::Char('p'), now).1;
            sent matches Some(m) && p.transition(PlayerInput::Message(m), waited).1 is Pause
        }),
        p.started && v.playback_mode == PlaybackMode::Paused ==> ({
            let sent = v.key_transition(Key::Char('p'), now).1;
            sent matches Some(m) && p.transition(PlayerInput::Message(m), waited).1 is Resume
        }),
{
}

/// A new track, whatever the player was doing, starts unpaused with its whole
/// length to play: the player then waits at most that long.
pub proof fn lemma_new_track_starts_unpaused(p: Player, t: TrackDetails, waited: u128)
    ensures ({
        let (q, action) = p.transition(PlayerInput::Message(MusicStreamEvent::NewSongEvent(t)), waited);
        &&& action == PlayerAction::Play(t)
        &&& q.started
        &&& !q.paused
        &&& q.remaining == secs_to_nanos(t.duration)
        &&& q.wait_spec() == Some(secs_to_nanos(t.duration) as u128)
    }),
{
}

/// Once it has a track: a pause takes the time waited off what is left and
/// makes the player wait without limit; a resume keeps what is left and waits
/// at most that long; a time-out reports the end and changes nothing; a lost
/// interface or a "not playing" message changes nothing and does nothing.
pub proof fn lemma_player_reactions(p: Player, waited: u128)
    requires
        p.started,
    ensures
        ({
            let (q, a) = p.transition(PlayerInput::Message(MusicStreamEvent::PlaybackEvent(PlaybackMode::Paused)), waited);
            &&& a is Pause
            &&& q.started && q.paused
            &&& q.remaining == if p.remaining >= waited { p.remaining - waited } else { 0 }
            &&& q.wait_spec() is None
        }),
        ({
            let (q, a) = p.transition(PlayerInput::Message(MusicStreamEvent::PlaybackEvent(PlaybackMode::Playing)), waited);
            &&& a is Resume
            &&& q.started && !q.paused
            &&& q.remaining == p.remaining
            &&& q.wait_spec() == Some(p.remaining)
        }),
        p.transition(PlayerInput::TimedOut, waited).0 == p,
        p.transition(PlayerInput::TimedOut, waited).1 is Finished,
        p.transition(PlayerInput::Disconnected, waited).0 == p,
        p.transition(PlayerInput::Disconnected, waited).1 is Nothing,
        p.transition(PlayerInput::Message(MusicStreamEvent::PlaybackEvent(PlaybackMode::NotPlaying)), waited).0 == p,
        p.transition(PlayerInput::Message(MusicStreamEvent::PlaybackEvent(PlaybackMode::NotPlaying)), waited).1 is Nothing,
{
}

/// Before its first track the player waits without limit, and a time-out
/// never comes from such a wait.
pub proof fn lemma_player_waits_unbounded_before_start(p: Player)
    requires
        !p.started,
    ensures
        p.wait_spec() is None,
{
}

} // verus!
