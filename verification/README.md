# music

A terminal music player's library, verified with Verus.

- `src/text.rs`: lower-casing (through `str::to_lowercase`), substring search,
  decimal digits, and the few `String` operations the rest needs.
- `src/track.rs`: `TrackDetails`, its display lines, its order and a sort.
- `src/search.rs`: case-insensitive search over a list of tracks.
- `src/scan.rs`: which files are audio, and the track details a tag gives
  (dates are formatted through `lofty`'s `Timestamp`).
- `src/state.rs`: the interface's state and what each key press does.
- `src/player.rs`: the player thread's decisions.
- `app/main.rs`: the program: directory walk, tag reading, terminal drawing,
  keyboard, channel and sound device.
