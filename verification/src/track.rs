//! Track metadata, its display lines and its order.

use vstd::prelude::*;
use vstd::string::StringExecFns;
use crate::text::{decimal, push_decimal, chars_of};

verus! {

/// What the library knows of one audio file.
///
/// The derived order compares the fields in declaration order: artist, then
/// album, then track number, title, date, path and duration.
#[derive(Debug, PartialEq, Eq, PartialOrd, Ord)]
pub struct TrackDetails {
    pub artist: String,
    pub album: String,
    pub track_no: u32,
    pub title: String,
    pub date: String,
    pub song_path: String,
    pub duration: u64,
}

impl Clone for TrackDetails {
    fn clone(&self) -> (r: Self)
        ensures
            r == *self,
    {
        TrackDetails {
            artist: self.artist.clone(),
            album: self.album.clone(),
            track_no: self.track_no,
            title: self.title.clone(),
            date: self.date.clone(),
            song_path: self.song_path.clone(),
            duration: self.duration,
        }
    }
}

/// The one-line form of a track: `artist - title (date) [Track n]`.
pub open spec fn line_text(t: TrackDetails) -> Seq<char> {
    t.artist@ + " - "@ + t.title@ + " ("@ + t.date@ + ") [Track "@ + decimal(t.track_no as nat) + "]"@
}

/// The three-line form of a track: artist, title, then `album [Track n]`.
pub open spec fn card_text(t: TrackDetails) -> Seq<char> {
    t.artist@ + "\n"@ + t.title@ + "\n"@ + t.album@ + " [Track "@ + decimal(t.track_no as nat) + "]"@
}

/// Strict lexicographic order on character sequences, by code point.
/// On strings this is the order of `String`'s `Ord` (UTF-8 bytes compare
/// in the order of the code points they encode).
pub open spec fn chars_lt(a: Seq<char>, b: Seq<char>) -> bool
    decreases a.len(),
{
    if a.len() == 0 {
        b.len() > 0
    } else if b.len() == 0 {
        false
    } else if a[0] != b[0] {
        (a[0] as u32) < (b[0] as u32)
    } else {
        chars_lt(a.drop_first(), b.drop_first())
    }
}

/// All the fields that the order compares are equal.
pub open spec fn same_key(a: TrackDetails, b: TrackDetails) -> bool {
    &&& a.artist@ == b.artist@
    &&& a.album@ == b.album@
    &&& a.track_no == b.track_no
    &&& a.title@ == b.title@
    &&& a.date@ == b.date@
    &&& a.song_path@ == b.song_path@
    &&& a.duration == b.duration
}

/// `a` comes strictly before `b`: artist, then album, then track number,
/// title, date, path and duration decide, the first that differs.
pub open spec fn track_lt(a: TrackDetails, b: TrackDetails) -> bool {
    if a.artist@ != b.artist@ {
        chars_lt(a.artist@, b.artist@)
    } else if a.album@ != b.album@ {
        chars_lt(a.album@, b.album@)
    } else if a.track_no != b.track_no {
        a.track_no < b.track_no
    } else if a.title@ != b.title@ {
        chars_lt(a.title@, b.title@)
    } else if a.date@ != b.date@ {
        chars_lt(a.date@, b.date@)
    } else if a.song_path@ != b.song_path@ {
        chars_lt(a.song_path@, b.song_path@)
    } else {
        a.duration < b.duration
    }
}

/// Each track is at or before every later one.
pub open spec fn is_sorted(s: Seq<TrackDetails>) -> bool {
    forall|i: int, j: int| 0 <= i < j < s.len() ==> !track_lt(#[trigger] s[j], #[trigger] s[i])
}

impl TrackDetails {
    /// The one-line form shown in the playlist.
    pub fn display_line(&self) -> (r: String)
        ensures
            r@ == line_text(*self),
    {
        let mut s = self.artist.clone();
        s.append(" - ");
        s.append(self.title.as_str());
        s.append(" (");
        s.append(self.date.as_str());
        s.append(") [Track ");
        push_decimal(&mut s, self.track_no);
        s.append("]");
        s
    }

    /// The three-line form shown under "Now Playing".
    pub fn display_card(&self) -> (r: String)
        ensures
            r@ == card_text(*self),
    {
        let mut s = self.artist.clone();
        s.append("\n");
        s.append(self.title.as_str());
        s.append("\n");
        s.append(self.album.as_str());
        s.append(" [Track ");
        push_decimal(&mut s, self.track_no);
        s.append("]");
        s
    }
}

/// No sequence comes before itself.
proof fn lemma_chars_irrefl(x: Seq<char>)
    ensures
        !chars_lt(x, x),
    decreases x.len(),
{
    if x.len() > 0 {
        lemma_chars_irrefl(x.drop_first());
    }
}

/// Of two sequences, at most one comes before the other.
proof fn lemma_chars_asym(x: Seq<char>, y: Seq<char>)
    ensures
        chars_lt(x, y) ==> !chars_lt(y, x),
    decreases x.len(),
{
    if x.len() > 0 && y.len() > 0 {
        lemma_chars_asym(x.drop_first(), y.drop_first());
    }
}

/// Of two different sequences, one comes before the other.
proof fn lemma_chars_total(x: Seq<char>, y: Seq<char>)
    ensures
        x != y ==> chars_lt(x, y) || chars_lt(y, x),
    decreases x.len(),
{
    if x.len() == 0 && y.len() == 0 {
        assert(x =~= y);
    }
    if x.len() > 0 && y.len() > 0 {
        lemma_chars_total(x.drop_first(), y.drop_first());
        vstd::utf8::char_u32_cast(x[0], x[0] as u32);
        vstd::utf8::char_u32_cast(y[0], y[0] as u32);
        if x != y && x[0] == y[0] && x.drop_first() == y.drop_first() {
            assert(x =~= seq![x[0]] + x.drop_first());
            assert(y =~= seq![y[0]] + y.drop_first());
        }
    }
}

/// The order of sequences is transitive.
proof fn lemma_chars_trans(x: Seq<char>, y: Seq<char>, z: Seq<char>)
    ensures
        chars_lt(x, y) && chars_lt(y, z) ==> chars_lt(x, z),
    decreases x.len(),
{
    if x.len() > 0 && y.len() > 0 && z.len() > 0 {
        lemma_chars_trans(x.drop_first(), y.drop_first(), z.drop_first());
    }
}

/// The facts of a strict total order, for three character sequences.
proof fn lemma_chars_order(x: Seq<char>, y: Seq<char>, z: Seq<char>)
    ensures
        !chars_lt(x, x),
        chars_lt(x, y) ==> !chars_lt(y, x),
        chars_lt(x, y) && chars_lt(y, z) ==> chars_lt(x, z),
        x != y ==> chars_lt(x, y) || chars_lt(y, x),
{
    lemma_chars_irrefl(x);
    lemma_chars_asym(x, y);
    lemma_chars_trans(x, y, z);
    lemma_chars_total(x, y);
}

/// The facts of a strict total order on three character sequences, all orders.
proof fn lemma_chars_order3(x: Seq<char>, y: Seq<char>, z: Seq<char>)
    ensures
        !chars_lt(x, x), !chars_lt(y, y), !chars_lt(z, z),
        chars_lt(x, y) ==> !chars_lt(y, x),
        chars_lt(y, z) ==> !chars_lt(z, y),
        chars_lt(x, z) ==> !chars_lt(z, x),
        chars_lt(x, y) && chars_lt(y, z) ==> chars_lt(x, z),
        chars_lt(z, y) && chars_lt(y, x) ==> chars_lt(z, x),
        chars_lt(y, x) && chars_lt(x, z) ==> chars_lt(y, z),
        chars_lt(z, x) && chars_lt(x, y) ==> chars_lt(z, y),
        chars_lt(x, z) && chars_lt(z, y) ==> chars_lt(x, y),
        chars_lt(y, z) && chars_lt(z, x) ==> chars_lt(y, x),
        x != y ==> chars_lt(x, y) || chars_lt(y, x),
        y != z ==> chars_lt(y, z) || chars_lt(z, y),
        x != z ==> chars_lt(x, z) || chars_lt(z, x),
{
    lemma_chars_order(x, y, z);
    lemma_chars_order(z, y, x);
    lemma_chars_order(y, x, z);
    lemma_chars_order(z, x, y);
    lemma_chars_order(x, z, y);
    lemma_chars_order(y, z, x);
}

/// `track_lt` is a strict total order up to `same_key`.
pub proof fn lemma_track_order(a: TrackDetails, b: TrackDetails, c: TrackDetails)
    ensures
        !track_lt(a, a),
        track_lt(a, b) ==> !track_lt(b, a),
        track_lt(a, b) && track_lt(b, c) ==> track_lt(a, c),
        !track_lt(a, b) && !track_lt(b, a) ==> same_key(a, b),
        track_lt(a, b) && !track_lt(c, b) ==> track_lt(a, c),
{
    lemma_chars_order3(a.artist@, b.artist@, c.artist@);
    lemma_chars_order3(a.album@, b.album@, c.album@);
    lemma_chars_order3(a.title@, b.title@, c.title@);
    lemma_chars_order3(a.date@, b.date@, c.date@);
    lemma_chars_order3(a.song_path@, b.song_path@, c.song_path@);
}

/// Whether `a[i..]` comes strictly before `b[i..]`.
fn chars_less_from(a: &Vec<char>, b: &Vec<char>, i: usize) -> (r: bool)
    requires
        i <= a.len(),
        i <= b.len(),
    ensures
        r == chars_lt(a@.skip(i as int), b@.skip(i as int)),
    decreases a.len() - i,
{
    if i == a.len() {
        i < b.len()
    } else if i == b.len() {
        false
    } else if a[i] != b[i] {
        (a[i] as u32) < (b[i] as u32)
    } else {
        assert(a@.skip(i as int).drop_first() =~= a@.skip(i + 1));
        assert(b@.skip(i as int).drop_first() =~= b@.skip(i + 1));
        chars_less_from(a, b, i + 1)
    }
}

/// Whether `a` comes strictly before `b` in `String`'s order.
pub fn str_less(a: &str, b: &str) -> (r: bool)
    ensures
        r == chars_lt(a@, b@),
{
    let va = chars_of(a);
    let vb = chars_of(b);
    assert(va@.skip(0) =~= va@);
    assert(vb@.skip(0) =~= vb@);
    chars_less_from(&va, &vb, 0)
}

/// Whether `a` comes strictly before `b` in the order of tracks.
pub fn track_less(a: &TrackDetails, b: &TrackDetails) -> (r: bool)
    ensures
        r == track_lt(*a, *b),
{
    if !(a.artist == b.artist) {
        str_less(a.artist.as_str(), b.artist.as_str())
    } else if !(a.album == b.album) {
        str_less(a.album.as_str(), b.album.as_str())
    } else if a.track_no != b.track_no {
        a.track_no < b.track_no
    } else if !(a.title == b.title) {
        str_less(a.title.as_str(), b.title.as_str())
    } else if !(a.date == b.date) {
        str_less(a.date.as_str(), b.date.as_str())
    } else if !(a.song_path == b.song_path) {
        str_less(a.song_path.as_str(), b.song_path.as_str())
    } else {
        a.duration < b.duration
    }
}

/// Inserting `x` into a sorted sequence after every element that `x` does not
/// precede, and before one that it does, keeps it sorted.
proof fn lemma_insert_sorted(s: Seq<TrackDetails>, x: TrackDetails, k: int)
    requires
        is_sorted(s),
        0 <= k <= s.len(),
        forall|j: int| 0 <= j < k ==> !track_lt(x, #[trigger] s[j]),
        k < s.len() ==> track_lt(x, s[k]),
    ensures
        is_sorted(s.insert(k, x)),
{
    let t = s.insert(k, x);
    assert forall|i: int, j: int| 0 <= i < j < t.len() implies !track_lt(#[trigger] t[j], #[trigger] t[i]) by {
        if j < k {
            assert(t[i] == s[i] && t[j] == s[j]);
        } else if j == k {
            assert(t[i] == s[i]);
            assert(!track_lt(x, s[i]));
        } else if i == k {
            assert(t[j] == s[j - 1]);
            lemma_track_order(x, s[k], s[j - 1]);
            lemma_track_order(s[j - 1], x, s[j - 1]);
        } else if i < k {
            assert(t[i] == s[i] && t[j] == s[j - 1]);
        } else {
            assert(t[i] == s[i - 1] && t[j] == s[j - 1]);
        }
    }
}

/// The tracks in order: each at or before every later one, none lost or added.
pub fn sort_tracks(tracks: &Vec<TrackDetails>) -> (r: Vec<TrackDetails>)
    ensures
        is_sorted(r@),
        r@.to_multiset() == tracks@.to_multiset(),
        r@.len() == tracks@.len(),
{
    broadcast use vstd::seq_lib::group_to_multiset_ensures;
    let mut r: Vec<TrackDetails> = Vec::new();
    let mut i: usize = 0;
    while i < tracks.len()
        invariant
            i <= tracks.len(),
            is_sorted(r@),
            r@.to_multiset() == tracks@.take(i as int).to_multiset(),
        decreases tracks.len() - i,
    {
        let x = tracks[i].clone();
        let mut k: usize = 0;
        while k < r.len() && !track_less(&x, &r[k])
            invariant
                k <= r.len(),
                forall|j: int| 0 <= j < k ==> !track_lt(x, #[trigger] r@[j]),
            decreases r.len() - k,
        {
            k = k + 1;
        }
        assert(x == tracks@[i as int]);
        proof {
            lemma_insert_sorted(r@, x, k as int);
            assert(tracks@.take(i + 1) =~= tracks@.take(i as int).push(tracks@[i as int]));
        }
        let ghost before = r@;
        r.insert(k, x);
        proof {
            vstd::seq_lib::to_multiset_insert(before, k as int, x);
            vstd::seq_lib::to_multiset_build(tracks@.take(i as int), x);
        }
        i = i + 1;
    }
    assert(tracks@.take(tracks.len() as int) =~= tracks@);
    assert(r@.to_multiset().len() == tracks@.to_multiset().len());
    r
}

/// A copy of a list of tracks.
pub fn clone_tracks(v: &Vec<TrackDetails>) -> (r: Vec<TrackDetails>)
    ensures
        r@ == v@,
{
    let mut r: Vec<TrackDetails> = Vec::new();
    let mut i: usize = 0;
    while i < v.len()
        invariant
            i <= v.len(),
            r@ == v@.take(i as int),
        decreases v.len() - i,
    {
        r.push(v[i].clone());
        assert(v@.take(i + 1) =~= v@.take(i as int).push(v@[i as int]));
        i = i + 1;
    }
    assert(v@.take(v.len() as int) =~= v@);
    r
}

} // verus!
