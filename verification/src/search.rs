//! Case-insensitive search over a list of tracks.

use vstd::prelude::*;
use crate::text::{lowercase, has_substring, to_lowercase, chars_of, contains_chars};
use crate::track::TrackDetails;

verus! {

/// `t` matches `query`: the lower-cased query occurs in the lower-cased
/// artist, album or title of `t`.
pub open spec fn track_matches(t: TrackDetails, query: Seq<char>) -> bool {
    let q = lowercase(query);
    ||| has_substring(lowercase(t.artist@), q)
    ||| has_substring(lowercase(t.album@), q)
    ||| has_substring(lowercase(t.title@), q)
}

/// The tracks that match `query`, in the order they came in.
pub open spec fn filtered(tracks: Seq<TrackDetails>, query: Seq<char>) -> Seq<TrackDetails> {
    tracks.filter(|t: TrackDetails| track_matches(t, query))
}

/// Whether the query occurs in the artist, the album or the title, all
/// given already lower-cased.
pub fn lowered_fields_match(artist: &str, album: &str, title: &str, query: &str) -> (r: bool)
    ensures
        r == (has_substring(artist@, query@) || has_substring(album@, query@)
            || has_substring(title@, query@)),
{
    let q = chars_of(query);
    contains_chars(&chars_of(artist), &q) || contains_chars(&chars_of(album), &q)
        || contains_chars(&chars_of(title), &q)
}

/// Whether `t` matches the query whose lower-case form is `lowered_query`.
fn matches_lowered(t: &TrackDetails, lowered_query: &str) -> (r: bool)
    ensures
        r == (has_substring(lowercase(t.artist@), lowered_query@)
            || has_substring(lowercase(t.album@), lowered_query@)
            || has_substring(lowercase(t.title@), lowered_query@)),
{
    let artist = to_lowercase(t.artist.as_str());
    let album = to_lowercase(t.album.as_str());
    let title = to_lowercase(t.title.as_str());
    lowered_fields_match(artist.as_str(), album.as_str(), title.as_str(), lowered_query)
}

/// Every sequence contains the empty sequence.
proof fn lemma_empty_substring(hay: Seq<char>, needle: Seq<char>)
    requires
        needle.len() == 0,
    ensures
        has_substring(hay, needle),
{
    let i: int = 0;
    assert(hay.subrange(i, i + needle.len()) =~= needle);
}

/// Filtering by a predicate that holds of every element keeps everything.
proof fn lemma_filter_everything(s: Seq<TrackDetails>, pred: spec_fn(TrackDetails) -> bool)
    requires
        forall|i: int| 0 <= i < s.len() ==> #[trigger] pred(s[i]),
    ensures
        s.filter(pred) == s,
    decreases s.len(),
{
    reveal(Seq::filter);
    if s.len() > 0 {
        lemma_filter_everything(s.drop_last(), pred);
        assert(s.drop_last().push(s.last()) =~= s);
    }
}

/// Filters a list of tracks by a query string, case-insensitively, against
/// artist, album and title. The result holds exactly the matching tracks, in
/// the order they came in; an empty query keeps every track.
pub fn filter_tracks(tracks: &[TrackDetails], query: &str) -> (r: Vec<TrackDetails>)
    ensures
        r@ == filtered(tracks@, query@),
        query@.len() == 0 ==> r@ == tracks@,
{
    let lowered = to_lowercase(query);
    let ghost pred = |t: TrackDetails| track_matches(t, query@);
    let mut r: Vec<TrackDetails> = Vec::new();
    let mut i: usize = 0;
    while i < tracks.len()
        invariant
            i <= tracks.len(),
            lowered@ == lowercase(query@),
            pred == (|t: TrackDetails| track_matches(t, query@)),
            r@ == tracks@.take(i as int).filter(pred),
        decreases tracks.len() - i,
    {
        let t = &tracks[i];
        let keep = matches_lowered(t, lowered.as_str());
        proof {
            assert(tracks@.take(i + 1) =~= tracks@.take(i as int).push(tracks@[i as int]));
            tracks@.take(i as int).lemma_filter_push(tracks@[i as int], pred);
        }
        if keep {
            r.push(t.clone());
        }
        i = i + 1;
    }
    proof {
        assert(tracks@.take(tracks.len() as int) =~= tracks@);
        if query@.len() == 0 {
            assert forall|k: int| 0 <= k < tracks@.len() implies #[trigger] pred(tracks@[k]) by {
                lemma_empty_substring(lowercase(tracks@[k].artist@), lowered@);
            }
            lemma_filter_everything(tracks@, pred);
        }
    }
    r
}

/// Search is case-insensitive: two queries with the same lower-case form
/// select the same tracks.
pub proof fn lemma_filter_case_insensitive(tracks: Seq<TrackDetails>, q1: Seq<char>, q2: Seq<char>)
    requires
        lowercase(q1) == lowercase(q2),
    ensures
        filtered(tracks, q1) == filtered(tracks, q2),
{
    let p1 = |t: TrackDetails| track_matches(t, q1);
    let p2 = |t: TrackDetails| track_matches(t, q2);
    assert(p1 =~= p2);
}

/// The result of a search holds only matching tracks, holds every matching
/// track, and is no longer than the list searched.
pub proof fn lemma_filter_exact(tracks: Seq<TrackDetails>, q: Seq<char>)
    ensures
        forall|i: int| 0 <= i < filtered(tracks, q).len() ==> track_matches(#[trigger] filtered(tracks, q)[i], q),
        forall|i: int| 0 <= i < tracks.len() && track_matches(tracks[i], q) ==> #[trigger] filtered(tracks, q).contains(tracks[i]),
        forall|i: int| 0 <= i < filtered(tracks, q).len() ==> tracks.contains(#[trigger] filtered(tracks, q)[i]),
        filtered(tracks, q).len() <= tracks.len(),
{
    broadcast use vstd::seq_lib::group_filter_ensures;
    let pred = |t: TrackDetails| track_matches(t, q);
    assert forall|i: int| 0 <= i < filtered(tracks, q).len() implies tracks.contains(#[trigger] filtered(tracks, q)[i]) by {
        tracks.lemma_filter_contains_rev(pred, filtered(tracks, q)[i]);
    }
}

/// Searching the result of a search again with the same query changes nothing.
pub proof fn lemma_filter_idempotent(tracks: Seq<TrackDetails>, q: Seq<char>)
    ensures
        filtered(filtered(tracks, q), q) == filtered(tracks, q),
{
    broadcast use vstd::seq_lib::group_filter_ensures;
    let pred = |t: TrackDetails| track_matches(t, q);
    lemma_filter_everything(tracks.filter(pred), pred);
}

} // verus!
