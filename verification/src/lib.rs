//! A terminal music library: track metadata, case-insensitive search,
//! ordering, and the state machines that drive the player and its interface.

pub mod text;

pub mod track;
pub mod search;
pub mod scan;
pub mod state;
pub mod player;

pub use search::filter_tracks;
pub use state::{App, MusicStreamEvent, PlaybackMode, VimMode};
pub use track::TrackDetails;
