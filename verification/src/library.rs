//! Library reads: paging, searching, the rows a queue is built from, and the
//! tracks the database has never seen.
//!
//! The database and the sources are the caller's; how their answers are
//! windowed, matched, ordered and remembered is here.

use vstd::prelude::*;
use crate::artwork::ArtworkRef;
use crate::config::{copy_strings, AppConfig, MusicService, SavedLocalSource, Source};
use crate::error::{ApiError, ErrorCode};
use crate::text::{
    before_char, chars_of, concat2, concat3, contains_str, has_infix, is_blank, lowercase_of,
    owned, str_eq, string_of, to_lowercase, trimmed,
};

verus! {

// ---------------------------------------------------------------- wire rows

/// How many rows a page holds when the caller does not say.
pub const DEFAULT_PAGE_LIMIT: u32 = 200;

/// A window into a listing.
#[derive(Debug, Clone, Copy, PartialEq, Eq, Structural)]
pub struct Page {
    pub offset: u32,
    pub limit: u32,
}

impl Default for Page {
    fn default() -> (p: Page)
        ensures
            p == (Page { offset: 0, limit: DEFAULT_PAGE_LIMIT }),
    {
        Page { offset: 0, limit: DEFAULT_PAGE_LIMIT }
    }
}

/// One timed piece of a lyric line.
#[derive(Debug, Clone, PartialEq, Eq)]
pub struct LyricChunkView {
    pub start_ms: u64,
    pub text: String,
}

/// One lyric line, with its timing and its pieces where the provider has
/// them.
#[derive(Debug, Clone, PartialEq, Eq)]
pub struct LyricLineView {
    pub start_ms: u64,
    pub end_ms: Option<u64>,
    pub text: String,
    pub chunks: Vec<LyricChunkView>,
    pub parent_line_index: Option<u32>,
    pub background: bool,
    pub opposite_turn: bool,
}

/// Lyrics for one track: synced where timing exists, plain otherwise.
#[derive(Debug, Clone, PartialEq, Eq)]
pub struct LyricsView {
    pub plain: Option<String>,
    pub synced: Vec<LyricLineView>,
}

/// Listening stats: play counts by track uid.
#[derive(Debug, Clone, PartialEq, Eq)]
pub struct StatsView {
    pub listen_counts: Vec<(String, u64)>,
}

/// An album row.
#[derive(Debug, Clone, PartialEq, Eq)]
pub struct AlbumInfo {
    pub id: String,
    pub title: String,
    pub artist: String,
    pub genre: String,
    pub year: u16,
    pub artwork: Option<ArtworkRef>,
}

#[derive(Debug, Clone, PartialEq, Eq)]
pub struct AlbumPage {
    pub albums: Vec<AlbumInfo>,
    pub total: u32,
}

/// An artist and how many tracks the library holds for them.
#[derive(Debug, Clone, PartialEq, Eq)]
pub struct ArtistInfo {
    pub name: String,
    pub track_count: u32,
    pub artwork: Option<ArtworkRef>,
}

#[derive(Debug, Clone, PartialEq, Eq)]
pub struct ArtistPage {
    pub artists: Vec<ArtistInfo>,
    pub total: u32,
}

// ---------------------------------------------------------------- paging

/// The rows a page shows of `len`, as a range: `offset` on, at most `limit`.
pub open spec fn page_range(len: nat, page: Page) -> (int, int) {
    let start = if page.offset as nat <= len {
        page.offset as int
    } else {
        len as int
    };
    let end = if start + page.limit as nat <= len {
        start + page.limit as nat
    } else {
        len as int
    };
    (start, end)
}

/// Paging a fully materialized list: its total, and the window's rows, each
/// a clone of the row it shows.
pub fn window<T: Clone>(rows: &[T], page: Page) -> (r: (u32, Vec<T>))
    ensures
        r.0 == rows@.len() as u32,
        ({
            let (start, end) = page_range(rows@.len(), page);
            &&& r.1@.len() == end - start
            &&& forall|i: int| 0 <= i < r.1@.len() ==> cloned(rows@[start + i], #[trigger] r.1@[i])
        }),
{
    let total = rows.len() as u32;
    let len = rows.len();
    let offset = page.offset as usize;
    let start = if offset <= len {
        offset
    } else {
        len
    };
    let limit = page.limit as usize;
    let end = if limit <= len - start {
        start + limit
    } else {
        len
    };
    let mut items: Vec<T> = Vec::new();
    let mut i = start;
    while i < end
        invariant
            start <= i <= end <= rows@.len(),
            (start as int, end as int) == page_range(rows@.len(), page),
            items@.len() == i - start,
            forall|j: int| 0 <= j < items@.len() ==> cloned(rows@[start + j], #[trigger] items@[j]),
        decreases end - i,
    {
        let item = rows[i].clone();
        items.push(item);
        i += 1;
    }
    (total, items)
}

// ---------------------------------------------------------------- ids and matching

/// A server album id keeps its service and its own id, and nothing after.
pub open spec fn normalized_album(id: Seq<char>) -> Seq<char> {
    let scheme = before_char(id, ':');
    if id.contains(':') && (scheme == "subsonic"@ || scheme == "custom"@ || scheme == "jellyfin"@) {
        let rest = id.skip(scheme.len() + 1 as int);
        scheme + ":"@ + before_char(rest, ':')
    } else {
        id
    }
}

pub fn normalize_album_id(id: &str) -> (r: String)
    ensures
        r@ == normalized_album(id@),
{
    let cs = chars_of(id);
    if !crate::text::chars_contain(cs.as_slice(), ':') {
        return owned(id);
    }
    let scheme = crate::text::before_first(cs.as_slice(), ':');
    let scheme_s = string_of(scheme.as_slice());
    if !(str_eq(scheme_s.as_str(), "subsonic") || str_eq(scheme_s.as_str(), "custom") || str_eq(
        scheme_s.as_str(),
        "jellyfin",
    )) {
        return owned(id);
    }
    proof {
        crate::text::lemma_before_char_len(cs@, ':');
    }
    let total = cs.len();
    assert(scheme@.len() < total);
    let rest = crate::text::chars_from(cs.as_slice(), scheme.len() + 1);
    let second = crate::text::before_first(rest.as_slice(), ':');
    concat3(scheme_s.as_str(), ":", string_of(second.as_slice()).as_str())
}

/// Whether texts already lowercased match a lowercased needle: the title,
/// artist or album holds it.
pub open spec fn lowered_match(
    title: Seq<char>,
    artist: Seq<char>,
    album: Seq<char>,
    needle: Seq<char>,
) -> bool {
    has_infix(title, needle) || has_infix(artist, needle) || has_infix(album, needle)
}

/// Whether a track matches a search: its title, artist or album holds the
/// needle, ignoring case.
pub open spec fn matches_needle(
    title: Seq<char>,
    artist: Seq<char>,
    album: Seq<char>,
    needle: Seq<char>,
) -> bool {
    lowered_match(lowercase_of(title), lowercase_of(artist), lowercase_of(album), lowercase_of(needle))
}

/// A search matches a track exactly when one of its three texts holds the
/// needle: a hit in the title, the artist or the album is enough on its own,
/// and a needle none of them holds matches nothing. Case is ignored by
/// comparing the lowercased texts.
pub proof fn a_search_looks_in_title_artist_and_album(
    title: Seq<char>,
    artist: Seq<char>,
    album: Seq<char>,
    needle: Seq<char>,
)
    ensures
        has_infix(title, needle) ==> lowered_match(title, artist, album, needle),
        has_infix(artist, needle) ==> lowered_match(title, artist, album, needle),
        has_infix(album, needle) ==> lowered_match(title, artist, album, needle),
        !has_infix(title, needle) && !has_infix(artist, needle) && !has_infix(album, needle)
            ==> !lowered_match(title, artist, album, needle),
        has_infix(lowercase_of(album), lowercase_of(needle)) ==> matches_needle(
            title,
            artist,
            album,
            needle,
        ),
        has_infix(lowercase_of(title), lowercase_of(needle)) ==> matches_needle(
            title,
            artist,
            album,
            needle,
        ),
        has_infix(lowercase_of(artist), lowercase_of(needle)) ==> matches_needle(
            title,
            artist,
            album,
            needle,
        ),
        !has_infix(lowercase_of(title), lowercase_of(needle)) && !has_infix(
            lowercase_of(artist),
            lowercase_of(needle),
        ) && !has_infix(lowercase_of(album), lowercase_of(needle)) ==> !matches_needle(
            title,
            artist,
            album,
            needle,
        ),
{
}

/// The search test on texts that are already lowercased.
pub fn matches_lowered(title: &str, artist: &str, album: &str, needle: &str) -> (r: bool)
    ensures
        r == lowered_match(title@, artist@, album@, needle@),
{
    contains_str(title, needle) || contains_str(artist, needle) || contains_str(album, needle)
}

pub fn matches_search(title: &str, artist: &str, album: &str, needle: &str) -> (r: bool)
    ensures
        r == matches_needle(title@, artist@, album@, needle@),
{
    let needle = to_lowercase(needle);
    let title = to_lowercase(title);
    let artist = to_lowercase(artist);
    let album = to_lowercase(album);
    matches_lowered(title.as_str(), artist.as_str(), album.as_str(), needle.as_str())
}

// ---------------------------------------------------------------- tracks the database never saw

/// How many network rows are remembered.
pub const MAX_TRANSIENT_TRACKS: usize = 4096;

/// Tracks that exist but the database has never seen: a browse shelf, a
/// search hit from a remote catalog, a radio mix. Bounded, and the least
/// recently registered go first.
pub struct TransientTracks<T> {
    /// Keys, least recently registered first; each at most once.
    order: Vec<String>,
    /// The track under each key of `order`, at the same position.
    tracks: Vec<T>,
}

/// No key occurs twice.
pub open spec fn distinct_keys(order: Seq<String>) -> bool {
    forall|i: int, j: int| 0 <= i < j < order.len() ==> order[i]@ != order[j]@
}

/// The track under a key in a list of keys and a list of tracks.
pub open spec fn track_under<T>(order: Seq<String>, tracks: Seq<T>, key: Seq<char>) -> Option<T> {
    if exists|i: int| 0 <= i < order.len() && order[i]@ == key {
        let i = choose|i: int| 0 <= i < order.len() && order[i]@ == key;
        Some(tracks[i])
    } else {
        None
    }
}

/// Whether some position holds `t` under `k`.
pub open spec fn pair_held<T>(order: Seq<String>, tracks: Seq<T>, k: Seq<char>, t: T) -> bool {
    exists|m: int| 0 <= m < order.len() && order[m]@ == k && tracks[m] == t
}

proof fn lemma_under_held<T>(order: Seq<String>, tracks: Seq<T>, k: Seq<char>, t: T)
    requires
        order.len() == tracks.len(),
        distinct_keys(order),
    ensures
        (track_under(order, tracks, k) == Some(t)) == pair_held(order, tracks, k, t),
{
    if pair_held(order, tracks, k, t) {
        let m = choose|m: int| 0 <= m < order.len() && order[m]@ == k && tracks[m] == t;
        let c = choose|i: int| 0 <= i < order.len() && order[i]@ == k;
        if c < m {
            assert(order[c]@ != order[m]@);
        } else if m < c {
            assert(order[m]@ != order[c]@);
        }
    }
    if track_under(order, tracks, k) == Some(t) {
        let c = choose|i: int| 0 <= i < order.len() && order[i]@ == k;
        assert(order[c]@ == k && tracks[c] == t);
    }
}

proof fn lemma_remove_pair<T>(order: Seq<String>, tracks: Seq<T>, i: int, k: Seq<char>, t: T)
    requires
        order.len() == tracks.len(),
        0 <= i < order.len(),
        distinct_keys(order),
    ensures
        pair_held(order.remove(i), tracks.remove(i), k, t) == (pair_held(order, tracks, k, t) && k
            != order[i]@),
{
    let o2 = order.remove(i);
    let t2 = tracks.remove(i);
    if pair_held(o2, t2, k, t) {
        let m = choose|m: int| 0 <= m < o2.len() && o2[m]@ == k && t2[m] == t;
        let m2 = if m < i {
            m
        } else {
            m + 1
        };
        assert(o2[m] == order[m2] && t2[m] == tracks[m2]);
        if m2 < i {
            assert(order[m2]@ != order[i]@);
        } else {
            assert(order[i]@ != order[m2]@);
        }
    }
    if pair_held(order, tracks, k, t) && k != order[i]@ {
        let m = choose|m: int| 0 <= m < order.len() && order[m]@ == k && tracks[m] == t;
        let m2 = if m < i {
            m
        } else {
            m - 1
        };
        assert(o2[m2] == order[m] && t2[m2] == tracks[m]);
    }
}

proof fn lemma_remove_distinct(order: Seq<String>, i: int)
    requires
        0 <= i < order.len(),
        distinct_keys(order),
    ensures
        distinct_keys(order.remove(i)),
{
    let o2 = order.remove(i);
    assert forall|a: int, b: int| 0 <= a < b < o2.len() implies o2[a]@ != o2[b]@ by {
        let a2 = if a < i {
            a
        } else {
            a + 1
        };
        let b2 = if b < i {
            b
        } else {
            b + 1
        };
        assert(o2[a] == order[a2] && o2[b] == order[b2]);
    }
}

impl<T> TransientTracks<T> {
    /// One track per key, no key twice, and never more than the bound.
    pub closed spec fn wf(&self) -> bool {
        &&& self.order@.len() == self.tracks@.len()
        &&& self.order@.len() <= MAX_TRANSIENT_TRACKS
        &&& distinct_keys(self.order@)
    }

    /// The track under a key, if remembered.
    pub closed spec fn get_spec(&self, key: Seq<char>) -> Option<T> {
        track_under(self.order@, self.tracks@, key)
    }

    /// The keys remembered, least recently registered first.
    pub closed spec fn keys(&self) -> Seq<String> {
        self.order@
    }

    /// How many tracks are remembered.
    pub fn len(&self) -> (r: usize)
        ensures
            r == self.keys().len(),
    {
        self.order.len()
    }

    pub fn new() -> (r: TransientTracks<T>)
        ensures
            r.wf(),
            forall|k: Seq<char>| #[trigger] r.get_spec(k) is None,
    {
        TransientTracks { order: Vec::new(), tracks: Vec::new() }
    }

    fn position(&self, key: &String) -> (r: Option<usize>)
        requires
            self.wf(),
        ensures
            match r {
                Some(i) => i < self.order@.len() && self.order@[i as int]@ == key@,
                None => forall|i: int| 0 <= i < self.order@.len() ==> self.order@[i]@ != key@,
            },
    {
        let mut i: usize = 0;
        while i < self.order.len()
            invariant
                i <= self.order@.len(),
                forall|j: int| 0 <= j < i ==> self.order@[j]@ != key@,
            decreases self.order.len() - i,
        {
            if self.order[i] == *key {
                return Some(i);
            }
            i += 1;
        }
        None
    }

    /// The track remembered under a key.
    pub fn get(&self, key: &str) -> (r: Option<&T>)
        requires
            self.wf(),
        ensures
            match r {
                Some(t) => self.get_spec(key@) == Some(*t),
                None => self.get_spec(key@) is None,
            },
    {
        let owned_key = owned(key);
        match self.position(&owned_key) {
            Some(i) => {
                proof {
                    lemma_under_held(self.order@, self.tracks@, key@, self.tracks@[i as int]);
                }
                Some(&self.tracks[i])
            },
            None => None,
        }
    }

    /// Remember one track under its key: it becomes the most recent, replacing
    /// what the key held. When the cache is full and the key is new, the
    /// least recently registered one goes; every other key keeps its track.
    pub fn register(&mut self, key: String, track: T)
        requires
            old(self).wf(),
        ensures
            final(self).wf(),
            final(self).keys().last()@ == key@,
            final(self).get_spec(key@) == Some(track),
            forall|k: Seq<char>|
                k != key@ ==> #[trigger] final(self).get_spec(k) == (if old(
                    self,
                ).keys().len() == MAX_TRANSIENT_TRACKS && old(self).get_spec(key@) is None && k
                    == old(self).keys()[0]@ {
                    None
                } else {
                    old(self).get_spec(k)
                }),
    {
        let ghost o_order = self.order@;
        let ghost o_tracks = self.tracks@;
        let ghost key_view = key@;
        let found = self.position(&key);
        match found {
            Some(i) => {
                self.order.remove(i);
                self.tracks.remove(i);
                proof {
                    lemma_remove_distinct(o_order, i as int);
                    assert forall|k: Seq<char>, t: T|
                        pair_held(self.order@, self.tracks@, k, t) == (pair_held(
                            o_order,
                            o_tracks,
                            k,
                            t,
                        ) && k != key_view) by {
                        lemma_remove_pair(o_order, o_tracks, i as int, k, t);
                    }
                }
            },
            None => {
                proof {
                    assert forall|k: Seq<char>, t: T|
                        pair_held(self.order@, self.tracks@, k, t) == (pair_held(
                            o_order,
                            o_tracks,
                            k,
                            t,
                        ) && k != key_view) by {
                        if pair_held(o_order, o_tracks, k, t) && k == key_view {
                            let m = choose|m: int|
                                0 <= m < o_order.len() && o_order[m]@ == k && o_tracks[m] == t;
                            assert(o_order[m]@ != key_view);
                        }
                    }
                }
            },
        }
        let ghost mid_order = self.order@;
        let ghost mid_tracks = self.tracks@;
        self.order.push(key);
        self.tracks.push(track);
        proof {
            assert forall|a: int, b: int|
                0 <= a < b < self.order@.len() implies self.order@[a]@ != self.order@[b]@ by {
                assert(self.order@[a] == mid_order[a]);
                if b == self.order@.len() - 1 {
                    assert(!pair_held(mid_order, mid_tracks, key_view, mid_tracks[a]));
                } else {
                    assert(self.order@[b] == mid_order[b]);
                }
            }
            assert forall|k: Seq<char>, t: T|
                pair_held(self.order@, self.tracks@, k, t) == ((pair_held(o_order, o_tracks, k, t)
                    && k != key_view) || (k == key_view && t == track)) by {
                if pair_held(self.order@, self.tracks@, k, t) {
                    let m = choose|m: int|
                        0 <= m < self.order@.len() && self.order@[m]@ == k && self.tracks@[m] == t;
                    if m < mid_order.len() {
                        assert(self.order@[m] == mid_order[m] && self.tracks@[m] == mid_tracks[m]);
                        assert(pair_held(mid_order, mid_tracks, k, t));
                    }
                }
                if pair_held(mid_order, mid_tracks, k, t) {
                    let m = choose|m: int|
                        0 <= m < mid_order.len() && mid_order[m]@ == k && mid_tracks[m] == t;
                    assert(self.order@[m] == mid_order[m] && self.tracks@[m] == mid_tracks[m]);
                }
                if k == key_view && t == track {
                    let m = self.order@.len() - 1;
                    assert(self.order@[m]@ == k && self.tracks@[m] == t);
                }
            }
        }
        let ghost pushed_order = self.order@;
        let ghost pushed_tracks = self.tracks@;
        if self.order.len() > MAX_TRANSIENT_TRACKS {
            proof {
                assert(found is None);
                assert(pushed_order[0] == o_order[0]);
            }
            self.order.remove(0);
            self.tracks.remove(0);
            proof {
                lemma_remove_distinct(pushed_order, 0);
                assert forall|k: Seq<char>, t: T|
                    pair_held(self.order@, self.tracks@, k, t) == (pair_held(
                        pushed_order,
                        pushed_tracks,
                        k,
                        t,
                    ) && k != o_order[0]@) by {
                    lemma_remove_pair(pushed_order, pushed_tracks, 0, k, t);
                }
            }
        }
        proof {
            let evicted = o_order.len() == MAX_TRANSIENT_TRACKS && track_under(
                o_order,
                o_tracks,
                key_view,
            ) is None;
            assert(evicted == (pushed_order.len() > MAX_TRANSIENT_TRACKS)) by {
                if found is Some {
                    let i = found->0;
                    assert(o_order[i as int]@ == key_view);
                }
            }
            lemma_under_held(self.order@, self.tracks@, key_view, track);
            assert(self.order@.last() == pushed_order.last());
            assert forall|k: Seq<char>|
                k != key_view implies #[trigger] track_under(self.order@, self.tracks@, k) == (
                if evicted && k == o_order[0]@ {
                    None
                } else {
                    track_under(o_order, o_tracks, k)
                }) by {
                match track_under(o_order, o_tracks, k) {
                    Some(t) => {
                        lemma_under_held(o_order, o_tracks, k, t);
                        lemma_under_held(self.order@, self.tracks@, k, t);
                    },
                    None => {},
                }
                match track_under(self.order@, self.tracks@, k) {
                    Some(t) => {
                        lemma_under_held(o_order, o_tracks, k, t);
                        lemma_under_held(self.order@, self.tracks@, k, t);
                    },
                    None => {},
                }
            }
        }
    }
}

// ---------------------------------------------------------------- building a queue by keys

/// A list of strings as texts.
pub open spec fn texts(v: Seq<String>) -> Seq<Seq<char>> {
    v.map_values(|s: String| s@)
}

/// The index of the last entry under a key, or -1.
pub open spec fn last_found<T>(found: Seq<(String, T)>, key: Seq<char>) -> int
    decreases found.len(),
{
    if found.len() == 0 {
        -1
    } else if found.last().0@ == key {
        found.len() - 1
    } else {
        last_found(found.drop_last(), key)
    }
}

/// The rows a queue by keys gets: for each key in order, the track found
/// under it (the last find of that key, as a later find replaces an earlier
/// one); a key named twice gets its track the first time only, and a key
/// nothing was found for is skipped.
pub open spec fn by_keys<T>(keys: Seq<Seq<char>>, found: Seq<(String, T)>) -> Seq<T>
    decreases keys.len(),
{
    if keys.len() == 0 {
        Seq::empty()
    } else {
        let earlier = keys.drop_last();
        let k = keys.last();
        let j = last_found(found, k);
        if j >= 0 && !earlier.contains(k) {
            by_keys(earlier, found).push(found[j].1)
        } else {
            by_keys(earlier, found)
        }
    }
}

proof fn lemma_last_found<T>(found: Seq<(String, T)>, key: Seq<char>)
    ensures
        -1 <= last_found(found, key) < found.len(),
        last_found(found, key) >= 0 ==> found[last_found(found, key)].0@ == key,
        forall|j: int|
            last_found(found, key) < j < found.len() ==> #[trigger] found[j].0@ != key,
    decreases found.len(),
{
    if found.len() > 0 {
        lemma_last_found(found.drop_last(), key);
        assert forall|j: int| last_found(found, key) < j < found.len() implies #[trigger] found[j].0@
            != key by {
            if j < found.len() - 1 {
                assert(found.drop_last()[j] == found[j]);
            }
        }
    }
}

proof fn lemma_last_found_take<T>(found: Seq<(String, T)>, key: Seq<char>, i: int)
    requires
        0 <= i <= found.len(),
        forall|j: int| i <= j < found.len() ==> #[trigger] found[j].0@ != key,
    ensures
        last_found(found, key) == last_found(found.take(i), key),
    decreases found.len(),
{
    if found.len() > i {
        assert(found.drop_last().take(i) =~= found.take(i));
        lemma_last_found_take(found.drop_last(), key, i);
    } else {
        assert(found.take(i) =~= found);
    }
}

/// Where the last entry under `key` sits, given the entries' names.
fn last_index<T>(names: &Vec<String>, key: &str, Ghost(all): Ghost<Seq<(String, T)>>) -> (r: Option<usize>)
    requires
        names@.len() == all.len(),
        forall|j: int| 0 <= j < all.len() ==> names@[j]@ == #[trigger] all[j].0@,
    ensures
        match r {
            Some(j) => j < all.len() && j as int == last_found(all, key@),
            None => last_found(all, key@) == -1,
        },
{
    let mut i = names.len();
    while i > 0
        invariant
            i <= names@.len(),
            names@.len() == all.len(),
            forall|j: int| 0 <= j < all.len() ==> names@[j]@ == #[trigger] all[j].0@,
            forall|j: int| i <= j < all.len() ==> #[trigger] all[j].0@ != key@,
        decreases i,
    {
        if str_eq(names[i - 1].as_str(), key) {
            proof {
                lemma_last_found_take(all, key@, i as int);
                assert(all.take(i as int).last() == all[i - 1]);
            }
            return Some(i - 1);
        }
        i -= 1;
    }
    proof {
        lemma_last_found_take(all, key@, 0);
    }
    None
}

/// Whether the key at `i` was named before it.
fn named_before(keys: &Vec<String>, i: usize) -> (r: bool)
    requires
        i < keys@.len(),
    ensures
        r == texts(keys@).take(i as int).contains(keys@[i as int]@),
{
    let ghost kv = texts(keys@);
    let mut j: usize = 0;
    while j < i
        invariant
            j <= i < keys@.len(),
            kv == texts(keys@),
            forall|m: int| 0 <= m < j ==> #[trigger] keys@[m]@ != keys@[i as int]@,
        decreases i - j,
    {
        if str_eq(keys[j].as_str(), keys[i].as_str()) {
            proof {
                assert(kv.take(i as int)[j as int] == keys@[i as int]@);
            }
            return true;
        }
        j += 1;
    }
    proof {
        assert forall|m: int| 0 <= m < kv.take(i as int).len() implies #[trigger] kv.take(
            i as int,
        )[m] != keys@[i as int]@ by {
            assert(kv.take(i as int)[m] == keys@[m]@);
        }
    }
    false
}

/// Put a queue together from the rows found for its keys, in the keys'
/// order.
pub fn assemble<T>(keys: &Vec<String>, found: Vec<(String, T)>) -> (r: Vec<T>)
    ensures
        r@ == by_keys(texts(keys@), found@),
{
    let ghost all = found@;
    let ghost kv = texts(keys@);
    let mut found = found;
    let mut names: Vec<String> = Vec::new();
    let mut slots: Vec<Option<T>> = Vec::new();
    while found.len() > 0
        invariant
            names@.len() == slots@.len(),
            names@.len() + found@.len() == all.len(),
            found@ == all.skip(names@.len() as int),
            forall|j: int| 0 <= j < names@.len() ==> names@[j]@ == #[trigger] all[j].0@,
            forall|j: int| 0 <= j < names@.len() ==> #[trigger] slots@[j] == Some(all[j].1),
        decreases found.len(),
    {
        let ghost n: int = names@.len() as int;
        let (name, track) = found.remove(0);
        assert(all[n] == (name, track));
        assert(found@ =~= all.skip(n + 1 as int));
        names.push(name);
        slots.push(Some(track));
    }
    let mut out: Vec<T> = Vec::new();
    let mut i: usize = 0;
    while i < keys.len()
        invariant
            i <= keys@.len(),
            kv == texts(keys@),
            names@.len() == all.len(),
            slots@.len() == all.len(),
            forall|j: int| 0 <= j < all.len() ==> names@[j]@ == #[trigger] all[j].0@,
            forall|j: int|
                0 <= j < all.len() ==> #[trigger] slots@[j] == (if kv.take(i as int).contains(
                    all[j].0@,
                ) && j == last_found(all, all[j].0@) {
                    None
                } else {
                    Some(all[j].1)
                }),
            out@ == by_keys(kv.take(i as int), all),
        decreases keys.len() - i,
    {
        let ghost before = kv.take(i as int);
        let ghost k = kv[i as int];
        proof {
            assert(kv.take(i + 1).drop_last() =~= before);
            assert(kv.take(i + 1).last() == k);
            assert(kv.take(i + 1) =~= before.push(k));
            assert forall|x: Seq<char>| x != k implies (kv.take(i + 1).contains(x)
                == before.contains(x)) by {
                if kv.take(i + 1).contains(x) {
                    let m = choose|m: int| 0 <= m < kv.take(i + 1).len() && #[trigger] kv.take(i + 1)[m] == x;
                    assert(before[m] == x);
                }
                if before.contains(x) {
                    let m = choose|m: int| 0 <= m < before.len() && #[trigger] before[m] == x;
                    assert(kv.take(i + 1)[m] == x);
                }
            }
            assert(kv.take(i + 1).contains(k)) by {
                assert(kv.take(i + 1)[i as int] == k);
            }
            lemma_last_found(all, k);
        }
        if !named_before(keys, i) {
            match last_index::<T>(&names, keys[i].as_str(), Ghost(all)) {
                Some(j) => {
                    let ghost old_slots = slots@;
                    let slot = slots.remove(j);
                    slots.insert(j, None);
                    assert(slots@ =~= old_slots.update(j as int, None));
                    match slot {
                        Some(t) => {
                            out.push(t);
                        },
                        None => {
                            assert(false);
                        },
                    }
                },
                None => {},
            }
        }
        i += 1;
    }
    proof {
        assert(kv.take(keys@.len() as int) =~= kv);
    }
    out
}

// ---------------------------------------------------------------- recents

/// The first row under a key, or -1.
pub open spec fn first_row(rows: Seq<Seq<char>>, key: Seq<char>) -> int
    decreases rows.len(),
{
    if rows.len() == 0 {
        -1
    } else if first_row(rows.drop_last(), key) >= 0 {
        first_row(rows.drop_last(), key)
    } else if rows.last() == key {
        rows.len() - 1
    } else {
        -1
    }
}

/// The rows in the keys' order: for each key, the first row under it; a key
/// no row answers is skipped.
pub open spec fn ordered_rows(keys: Seq<Seq<char>>, rows: Seq<Seq<char>>) -> Seq<int>
    decreases keys.len(),
{
    if keys.len() == 0 {
        Seq::empty()
    } else {
        let j = first_row(rows, keys.last());
        if j >= 0 {
            ordered_rows(keys.drop_last(), rows).push(j)
        } else {
            ordered_rows(keys.drop_last(), rows)
        }
    }
}

proof fn lemma_first_row_prefix(rows: Seq<Seq<char>>, key: Seq<char>, n: int)
    requires
        0 <= n <= rows.len(),
        first_row(rows.take(n), key) >= 0,
    ensures
        first_row(rows, key) == first_row(rows.take(n), key),
    decreases rows.len(),
{
    if rows.len() > n {
        assert(rows.drop_last().take(n) =~= rows.take(n));
        lemma_first_row_prefix(rows.drop_last(), key, n);
    } else {
        assert(rows.take(n) =~= rows);
    }
}

/// Where the first row under `key` sits.
fn first_index(rows: &Vec<String>, key: &str) -> (r: Option<usize>)
    ensures
        match r {
            Some(j) => j as int == first_row(texts(rows@), key@),
            None => first_row(texts(rows@), key@) == -1,
        },
{
    let ghost rv = texts(rows@);
    let mut i: usize = 0;
    while i < rows.len()
        invariant
            i <= rows@.len(),
            rv == texts(rows@),
            first_row(rv.take(i as int), key@) == -1,
        decreases rows.len() - i,
    {
        proof {
            assert(rv.take(i + 1).drop_last() =~= rv.take(i as int));
        }
        if str_eq(rows[i].as_str(), key) {
            proof {
                lemma_first_row_prefix(rv, key@, i + 1);
            }
            return Some(i);
        }
        i += 1;
    }
    proof {
        assert(rv.take(rows@.len() as int) =~= rv);
    }
    None
}

/// The row indices of a key list, in its order: recents come back from the
/// database unordered and are put back into play order here.
pub fn order_by_keys(keys: &Vec<String>, row_keys: &Vec<String>) -> (r: Vec<usize>)
    ensures
        r@.len() == ordered_rows(
            texts(keys@),
            texts(row_keys@),
        ).len(),
        forall|i: int|
            0 <= i < r@.len() ==> r@[i] as int == #[trigger] ordered_rows(
                texts(keys@),
                texts(row_keys@),
            )[i],
{
    let ghost kv = texts(keys@);
    let ghost rv = texts(row_keys@);
    let mut out: Vec<usize> = Vec::new();
    let mut i: usize = 0;
    while i < keys.len()
        invariant
            i <= keys@.len(),
            kv == texts(keys@),
            rv == texts(row_keys@),
            out@.len() == ordered_rows(kv.take(i as int), rv).len(),
            forall|m: int|
                0 <= m < out@.len() ==> out@[m] as int == #[trigger] ordered_rows(
                    kv.take(i as int),
                    rv,
                )[m],
        decreases keys.len() - i,
    {
        proof {
            assert(kv.take(i + 1).drop_last() =~= kv.take(i as int));
            assert(kv.take(i + 1).last() == keys@[i as int]@);
        }
        match first_index(row_keys, keys[i].as_str()) {
            Some(j) => {
                out.push(j);
            },
            None => {},
        }
        i += 1;
    }
    proof {
        assert(kv.take(keys@.len() as int) =~= kv);
    }
    out
}

/// A page of recents: the total in play order, and the window's row indices.
pub fn recent_rows(keys: &Vec<String>, row_keys: &Vec<String>, page: Page) -> (r: (u32, Vec<usize>))
    ensures
        ({
            let ordered = ordered_rows(
                texts(keys@),
                texts(row_keys@),
            );
            let (start, end) = page_range(ordered.len(), page);
            &&& r.0 == ordered.len() as u32
            &&& r.1@.len() == end - start
            &&& forall|i: int| 0 <= i < r.1@.len() ==> #[trigger] r.1@[i] as int == ordered[start + i]
        }),
{
    let ordered = order_by_keys(keys, row_keys);
    window(ordered.as_slice(), page)
}

// ---------------------------------------------------------------- narrowed listings

/// What a narrowed listing reads of a row.
pub struct RowFacts {
    pub key: String,
    pub title: String,
    pub artist: String,
    pub album: String,
}

/// Whether a row stays in a narrowed listing: it matches the search, where
/// one is given and not empty, and its favorite status is the one asked
/// for, where one is.
pub open spec fn row_kept(
    row: RowFacts,
    search: Option<Seq<char>>,
    favorite: Option<bool>,
    favorites: Seq<Seq<char>>,
) -> bool {
    &&& match search {
        Some(s) => s.len() == 0 || matches_needle(row.title@, row.artist@, row.album@, s),
        None => true,
    }
    &&& match favorite {
        Some(f) => favorites.contains(row.key@) == f,
        None => true,
    }
}

/// The indices of the rows kept, in order.
pub open spec fn kept_rows(
    rows: Seq<RowFacts>,
    search: Option<Seq<char>>,
    favorite: Option<bool>,
    favorites: Seq<Seq<char>>,
) -> Seq<int>
    decreases rows.len(),
{
    if rows.len() == 0 {
        Seq::empty()
    } else {
        let before = kept_rows(rows.drop_last(), search, favorite, favorites);
        if row_kept(rows.last(), search, favorite, favorites) {
            before.push(rows.len() - 1)
        } else {
            before
        }
    }
}

proof fn lemma_kept_rows(
    rows: Seq<RowFacts>,
    search: Option<Seq<char>>,
    favorite: Option<bool>,
    favorites: Seq<Seq<char>>,
)
    ensures
        forall|a: int, b: int|
            0 <= a < b < kept_rows(rows, search, favorite, favorites).len() ==> kept_rows(
                rows,
                search,
                favorite,
                favorites,
            )[a] < kept_rows(rows, search, favorite, favorites)[b],
        forall|a: int|
            0 <= a < kept_rows(rows, search, favorite, favorites).len() ==> 0 <= #[trigger] kept_rows(
                rows,
                search,
                favorite,
                favorites,
            )[a] < rows.len(),
        forall|i: int|
            0 <= i < rows.len() ==> (kept_rows(rows, search, favorite, favorites).contains(i)
                <==> row_kept(#[trigger] rows[i], search, favorite, favorites)),
    decreases rows.len(),
{
    if rows.len() > 0 {
        let before = rows.drop_last();
        lemma_kept_rows(before, search, favorite, favorites);
        let k = kept_rows(rows, search, favorite, favorites);
        let kb = kept_rows(before, search, favorite, favorites);
        assert forall|i: int| 0 <= i < rows.len() implies (k.contains(i) <==> row_kept(
            #[trigger] rows[i],
            search,
            favorite,
            favorites,
        )) by {
            if i < rows.len() - 1 {
                assert(before[i] == rows[i]);
                if kb.contains(i) {
                    let a = choose|a: int| 0 <= a < kb.len() && kb[a] == i;
                    assert(k[a] == i);
                }
                if k.contains(i) {
                    let a = choose|a: int| 0 <= a < k.len() && k[a] == i;
                    if a < kb.len() {
                        assert(kb[a] == i);
                    }
                }
            } else {
                if row_kept(rows.last(), search, favorite, favorites) {
                    assert(k[k.len() - 1] == i);
                } else if k.contains(i) {
                    let a = choose|a: int| 0 <= a < k.len() && k[a] == i;
                    assert(kb[a] < before.len());
                }
            }
        }
    }
}

/// A narrowed listing keeps, in their order, exactly the rows that match:
/// a row stays when a search that is given and not empty finds its needle
/// in the row's title, artist or album, case aside, and when its favorite
/// status is the one asked for, where one is.
pub proof fn a_narrowed_listing_keeps_exactly_the_matching_rows(
    rows: Seq<RowFacts>,
    search: Option<Seq<char>>,
    favorite: Option<bool>,
    favorites: Seq<Seq<char>>,
    i: int,
)
    requires
        0 <= i < rows.len(),
    ensures
        kept_rows(rows, search, favorite, favorites).contains(i) <==> ({
            let row = rows[i];
            &&& match search {
                Some(s) => s.len() == 0 || has_infix(lowercase_of(row.title@), lowercase_of(s))
                    || has_infix(lowercase_of(row.artist@), lowercase_of(s)) || has_infix(
                    lowercase_of(row.album@),
                    lowercase_of(s),
                ),
                None => true,
            }
            &&& match favorite {
                Some(f) => favorites.contains(row.key@) == f,
                None => true,
            }
        }),
        forall|a: int, b: int|
            0 <= a < b < kept_rows(rows, search, favorite, favorites).len() ==> kept_rows(
                rows,
                search,
                favorite,
                favorites,
            )[a] < kept_rows(rows, search, favorite, favorites)[b],
{
    lemma_kept_rows(rows, search, favorite, favorites);
    let row = rows[i];
    assert(kept_rows(rows, search, favorite, favorites).contains(i) <==> row_kept(
        row,
        search,
        favorite,
        favorites,
    ));
    if let Some(s) = search {
        assert(matches_needle(row.title@, row.artist@, row.album@, s) == (has_infix(
            lowercase_of(row.title@),
            lowercase_of(s),
        ) || has_infix(lowercase_of(row.artist@), lowercase_of(s)) || has_infix(
            lowercase_of(row.album@),
            lowercase_of(s),
        )));
    }
}

/// The text of a search, if one is given.
pub open spec fn search_text(search: Option<&str>) -> Option<Seq<char>> {
    match search {
        Some(s) => Some(s@),
        None => None,
    }
}

fn names_contain(names: &Vec<String>, key: &str) -> (r: bool)
    ensures
        r == texts(names@).contains(key@),
{
    let ghost nv = texts(names@);
    let mut i: usize = 0;
    while i < names.len()
        invariant
            i <= names@.len(),
            nv == texts(names@),
            forall|m: int| 0 <= m < i ==> #[trigger] names@[m]@ != key@,
        decreases names.len() - i,
    {
        if str_eq(names[i].as_str(), key) {
            proof {
                assert(nv[i as int] == key@);
            }
            return true;
        }
        i += 1;
    }
    proof {
        assert forall|m: int| 0 <= m < nv.len() implies #[trigger] nv[m] != key@ by {
            assert(nv[m] == names@[m]@);
        }
    }
    false
}

/// Whether a row whose texts are lowercased stays in a narrowed listing:
/// it matches the lowercased needle, where a search is in force, and its
/// favorite status is the one asked for, where one is.
pub open spec fn lowered_row_kept(
    row: RowFacts,
    needle: Option<Seq<char>>,
    favorite: Option<bool>,
    favorites: Seq<Seq<char>>,
) -> bool {
    &&& match needle {
        Some(n) => lowered_match(row.title@, row.artist@, row.album@, n),
        None => true,
    }
    &&& match favorite {
        Some(f) => favorites.contains(row.key@) == f,
        None => true,
    }
}

/// The indices of the lowercased rows kept, in order.
pub open spec fn kept_lowered_rows(
    rows: Seq<RowFacts>,
    needle: Option<Seq<char>>,
    favorite: Option<bool>,
    favorites: Seq<Seq<char>>,
) -> Seq<int>
    decreases rows.len(),
{
    if rows.len() == 0 {
        Seq::empty()
    } else {
        let before = kept_lowered_rows(rows.drop_last(), needle, favorite, favorites);
        if lowered_row_kept(rows.last(), needle, favorite, favorites) {
            before.push(rows.len() - 1)
        } else {
            before
        }
    }
}

/// `lowered` is `rows` with the title, artist and album lowercased.
pub open spec fn lowered_rows(rows: Seq<RowFacts>, lowered: Seq<RowFacts>) -> bool {
    &&& lowered.len() == rows.len()
    &&& forall|i: int|
        0 <= i < rows.len() ==> {
            &&& (#[trigger] lowered[i]).key@ == rows[i].key@
            &&& lowered[i].title@ == lowercase_of(rows[i].title@)
            &&& lowered[i].artist@ == lowercase_of(rows[i].artist@)
            &&& lowered[i].album@ == lowercase_of(rows[i].album@)
        }
}

/// The needle a search puts in force: none for no search or an empty one,
/// else the search lowercased.
pub open spec fn needle_of(search: Option<Seq<char>>) -> Option<Seq<char>> {
    match search {
        Some(s) => if s.len() == 0 {
            None
        } else {
            Some(lowercase_of(s))
        },
        None => None,
    }
}

proof fn lemma_kept_lowered(
    rows: Seq<RowFacts>,
    lowered: Seq<RowFacts>,
    search: Option<Seq<char>>,
    favorite: Option<bool>,
    favorites: Seq<Seq<char>>,
)
    requires
        lowered_rows(rows, lowered),
    ensures
        kept_lowered_rows(lowered, needle_of(search), favorite, favorites) == kept_rows(
            rows,
            search,
            favorite,
            favorites,
        ),
    decreases rows.len(),
{
    if rows.len() > 0 {
        let n = rows.len() - 1;
        assert(lowered_rows(rows.drop_last(), lowered.drop_last())) by {
            assert forall|i: int| 0 <= i < n implies #[trigger] lowered.drop_last()[i] == lowered[i] by {}
        }
        lemma_kept_lowered(rows.drop_last(), lowered.drop_last(), search, favorite, favorites);
        assert(lowered[n].key@ == rows[n].key@);
        assert(lowered_row_kept(lowered.last(), needle_of(search), favorite, favorites) == row_kept(
            rows.last(),
            search,
            favorite,
            favorites,
        ));
    }
}

/// Narrow rows whose texts are already lowercased by a lowercased needle,
/// where a search is in force, and by the listing's favorite filter.
pub fn narrow_lowered(
    rows: &Vec<RowFacts>,
    needle: Option<&str>,
    favorite: Option<bool>,
    favorites: &Vec<String>,
) -> (r: Vec<usize>)
    ensures
        r@.len() == kept_lowered_rows(rows@, search_text(needle), favorite, texts(favorites@)).len(),
        forall|i: int|
            0 <= i < r@.len() ==> r@[i] as int == #[trigger] kept_lowered_rows(
                rows@,
                search_text(needle),
                favorite,
                texts(favorites@),
            )[i],
{
    let ghost nv = search_text(needle);
    let ghost fv = texts(favorites@);
    let mut out: Vec<usize> = Vec::new();
    let mut i: usize = 0;
    while i < rows.len()
        invariant
            i <= rows@.len(),
            nv == search_text(needle),
            fv == texts(favorites@),
            out@.len() == kept_lowered_rows(rows@.take(i as int), nv, favorite, fv).len(),
            forall|m: int|
                0 <= m < out@.len() ==> out@[m] as int == #[trigger] kept_lowered_rows(
                    rows@.take(i as int),
                    nv,
                    favorite,
                    fv,
                )[m],
        decreases rows.len() - i,
    {
        proof {
            assert(rows@.take(i + 1).drop_last() =~= rows@.take(i as int));
            assert(rows@.take(i + 1).last() == rows@[i as int]);
        }
        let row = &rows[i];
        let searched = match needle {
            Some(n) => matches_lowered(row.title.as_str(), row.artist.as_str(), row.album.as_str(), n),
            None => true,
        };
        let favored = match favorite {
            Some(f) => names_contain(favorites, row.key.as_str()) == f,
            None => true,
        };
        if searched && favored {
            out.push(i);
        }
        i += 1;
    }
    proof {
        assert(rows@.take(rows@.len() as int) =~= rows@);
    }
    out
}

/// Narrow an album's, artist's or genre's rows by the listing's search and
/// favorite filter.
pub fn narrow_rows(
    rows: &Vec<RowFacts>,
    search: Option<&str>,
    favorite: Option<bool>,
    favorites: &Vec<String>,
) -> (r: Vec<usize>)
    ensures
        r@.len() == kept_rows(
            rows@,
            search_text(search),
            favorite,
            texts(favorites@),
        ).len(),
        forall|i: int|
            0 <= i < r@.len() ==> r@[i] as int == #[trigger] kept_rows(
                rows@,
                search_text(search),
                favorite,
                texts(favorites@),
            )[i],
{
    let mut lowered: Vec<RowFacts> = Vec::new();
    let mut i: usize = 0;
    while i < rows.len()
        invariant
            i <= rows@.len(),
            lowered_rows(rows@.take(i as int), lowered@),
        decreases rows.len() - i,
    {
        let row = &rows[i];
        let l = RowFacts {
            key: row.key.clone(),
            title: to_lowercase(row.title.as_str()),
            artist: to_lowercase(row.artist.as_str()),
            album: to_lowercase(row.album.as_str()),
        };
        lowered.push(l);
        proof {
            assert forall|m: int| 0 <= m < i + 1 implies {
                &&& (#[trigger] lowered@[m]).key@ == rows@.take(i + 1)[m].key@
                &&& lowered@[m].title@ == lowercase_of(rows@.take(i + 1)[m].title@)
                &&& lowered@[m].artist@ == lowercase_of(rows@.take(i + 1)[m].artist@)
                &&& lowered@[m].album@ == lowercase_of(rows@.take(i + 1)[m].album@)
            } by {
                if m < i {
                    assert(rows@.take(i as int)[m] == rows@.take(i + 1)[m]);
                }
            }
        }
        i += 1;
    }
    proof {
        assert(rows@.take(rows@.len() as int) =~= rows@);
        lemma_kept_lowered(rows@, lowered@, search_text(search), favorite, texts(favorites@));
    }
    let needle = match search {
        Some(s) => if s.is_empty() {
            None
        } else {
            Some(to_lowercase(s))
        },
        None => None,
    };
    let r = match &needle {
        Some(n) => narrow_lowered(&lowered, Some(n.as_str()), favorite, favorites),
        None => narrow_lowered(&lowered, None, favorite, favorites),
    };
    r
}

// ---------------------------------------------------------------- radio

/// The title and artist a radio row falls back to.
pub const LIVE_RADIO: &'static str = "Live Radio";

/// What the station registry knows of a station.
pub struct StationFacts {
    pub name: String,
    /// The artist line its static metadata gives for the stream, if it has
    /// static metadata.
    pub static_artist: Option<String>,
    /// Its streams, as (id, name).
    pub streams: Vec<(String, String)>,
}

/// The row a radio stream plays as.
pub struct RadioTrack {
    pub key: String,
    pub title: String,
    pub artist: String,
    pub album: String,
    pub duration: u64,
}

/// The facts behind a borrowed station.
pub open spec fn facts_of(station: Option<&StationFacts>) -> Option<StationFacts> {
    match station {
        Some(s) => Some(*s),
        None => None,
    }
}

/// The name of the first stream with an id, if any.
pub open spec fn stream_named(streams: Seq<(String, String)>, id: Seq<char>) -> Option<Seq<char>>
    decreases streams.len(),
{
    if streams.len() == 0 {
        None
    } else if streams[0].0@ == id {
        Some(streams[0].1@)
    } else {
        stream_named(streams.drop_first(), id)
    }
}

/// A radio row's title: the station's name where it is not blank, else the
/// stream id.
pub open spec fn radio_title(station: Option<StationFacts>, stream_id: Seq<char>) -> Seq<char> {
    match station {
        Some(st) => if trimmed(st.name@).len() > 0 {
            st.name@
        } else {
            stream_id
        },
        None => stream_id,
    }
}

/// A radio row's artist: the static metadata's line, else the stream's name,
/// and "Live Radio" where that is missing or blank.
pub open spec fn radio_artist(station: Option<StationFacts>, stream_id: Seq<char>) -> Seq<char> {
    let named = match station {
        Some(st) => match st.static_artist {
            Some(a) => Some(a@),
            None => stream_named(st.streams@, stream_id),
        },
        None => None,
    };
    match named {
        Some(a) => if trimmed(a).len() > 0 {
            a
        } else {
            LIVE_RADIO@
        },
        None => LIVE_RADIO@,
    }
}

fn stream_name<'a>(streams: &'a Vec<(String, String)>, id: &str) -> (r: Option<&'a String>)
    ensures
        match (r, stream_named(streams@, id@)) {
            (Some(a), Some(b)) => a@ == b,
            (None, None) => true,
            _ => false,
        },
{
    let mut i: usize = 0;
    assert(streams@.skip(0) =~= streams@);
    while i < streams.len()
        invariant
            i <= streams@.len(),
            stream_named(streams@, id@) == stream_named(streams@.skip(i as int), id@),
        decreases streams.len() - i,
    {
        assert(streams@.skip(i as int).drop_first() =~= streams@.skip(i + 1));
        if str_eq(streams[i].0.as_str(), id) {
            return Some(&streams[i].1);
        }
        i += 1;
    }
    None
}

/// The synthetic row for a radio stream, seeded from what the registry knows
/// so no client sees raw ids while the first metadata update is in flight.
/// Its duration is `u64::MAX`, the sentinel the wire reads as radio.
pub fn radio_track(station_id: &str, stream_id: &str, station: Option<&StationFacts>) -> (r: RadioTrack)
    ensures
        r.key@ == "radio:"@ + station_id@ + ":"@ + stream_id@,
        r.title@ == radio_title(facts_of(station), stream_id@),
        r.artist@ == radio_artist(facts_of(station), stream_id@),
        r.album@ == LIVE_RADIO@,
        r.duration == u64::MAX,
{
    proof {
        reveal_strlit("radio:");
        reveal_strlit(":");
    }
    let key = concat2(concat3("radio:", station_id, ":").as_str(), stream_id);
    let title = match station {
        Some(st) => if is_blank(st.name.as_str()) {
            owned(stream_id)
        } else {
            st.name.clone()
        },
        None => owned(stream_id),
    };
    let named: Option<&String> = match station {
        Some(st) => match &st.static_artist {
            Some(a) => Some(a),
            None => stream_name(&st.streams, stream_id),
        },
        None => None,
    };
    let artist = match named {
        Some(a) => if is_blank(a.as_str()) {
            owned(LIVE_RADIO)
        } else {
            a.clone()
        },
        None => owned(LIVE_RADIO),
    };
    RadioTrack { key, title, artist, album: owned(LIVE_RADIO), duration: u64::MAX }
}

// ---------------------------------------------------------------- a queue by keys

/// Where the keys a queue asks for, beyond those the database returned, are
/// read from: the positions the registry of unseen tracks holds, then those
/// left for the files on disk, each in the order asked.
pub open spec fn missing_plan<T>(
    keys: Seq<String>,
    known: Seq<Seq<char>>,
    held: TransientTracks<T>,
) -> (Seq<int>, Seq<int>)
    decreases keys.len(),
{
    if keys.len() == 0 {
        (Seq::empty(), Seq::empty())
    } else {
        let (from_registry, from_disk) = missing_plan(keys.drop_last(), known, held);
        let k = keys.last()@;
        let i = keys.len() - 1;
        if known.contains(k) {
            (from_registry, from_disk)
        } else if held.get_spec(k) is Some {
            (from_registry.push(i), from_disk)
        } else {
            (from_registry, from_disk.push(i))
        }
    }
}

/// Sort the keys a queue asks for that the database did not return (`known`
/// is what it returned): those the registry of unseen tracks holds, and
/// those to be read from disk, by their positions among `keys`.
pub fn plan_missing<T>(keys: &Vec<String>, known: &Vec<String>, held: &TransientTracks<T>) -> (r: (
    Vec<usize>,
    Vec<usize>,
))
    requires
        held.wf(),
    ensures
        r.0@.map_values(|i: usize| i as int) == missing_plan(keys@, texts(known@), *held).0,
        r.1@.map_values(|i: usize| i as int) == missing_plan(keys@, texts(known@), *held).1,
{
    let ghost kv = texts(known@);
    let mut from_registry: Vec<usize> = Vec::new();
    let mut from_disk: Vec<usize> = Vec::new();
    let mut i: usize = 0;
    while i < keys.len()
        invariant
            i <= keys@.len(),
            held.wf(),
            kv == texts(known@),
            from_registry@.map_values(|j: usize| j as int) == missing_plan(keys@.take(i as int), kv, *held).0,
            from_disk@.map_values(|j: usize| j as int) == missing_plan(keys@.take(i as int), kv, *held).1,
        decreases keys.len() - i,
    {
        proof {
            assert(keys@.take(i + 1).drop_last() =~= keys@.take(i as int));
            assert(keys@.take(i + 1).last() == keys@[i as int]);
        }
        let key = keys[i].as_str();
        if !names_contain(known, key) {
            match held.get(key) {
                Some(_) => {
                    from_registry.push(i);
                    assert(from_registry@.map_values(|j: usize| j as int) =~= missing_plan(
                        keys@.take(i as int),
                        kv,
                        *held,
                    ).0.push(i as int));
                },
                None => {
                    from_disk.push(i);
                    assert(from_disk@.map_values(|j: usize| j as int) =~= missing_plan(
                        keys@.take(i as int),
                        kv,
                        *held,
                    ).1.push(i as int));
                },
            }
        }
        i += 1;
    }
    proof {
        assert(keys@.take(keys@.len() as int) =~= keys@);
    }
    (from_registry, from_disk)
}

// ---------------------------------------------------------------- playlists

/// Which of the stored playlists a queue built from playlist `id` plays: the
/// first whose id it is, by its place among `ids`, or "playlist not found".
pub fn playlist_index(ids: &Vec<String>, id: &str) -> (r: Result<usize, ApiError>)
    ensures
        match r {
            Ok(i) => i < ids@.len() && ids@[i as int]@ == id@
                && forall|j: int| 0 <= j < i ==> #[trigger] ids@[j]@ != id@,
            Err(e) => e.code == ErrorCode::NotFound && e.message@ == "playlist not found"@
                && forall|j: int| 0 <= j < ids@.len() ==> #[trigger] ids@[j]@ != id@,
        },
{
    let mut i: usize = 0;
    while i < ids.len()
        invariant
            i <= ids@.len(),
            forall|j: int| 0 <= j < i ==> #[trigger] ids@[j]@ != id@,
        decreases ids.len() - i,
    {
        if str_eq(ids[i].as_str(), id) {
            return Ok(i);
        }
        i += 1;
    }
    Err(ApiError::not_found("playlist not found"))
}

// ---------------------------------------------------------------- lyrics

/// Whether a track's words may be looked up: the key must name a track, in
/// the library or among those the database never saw, given here by its
/// duration; and a radio stream has none by construction.
pub fn lyrics_target(duration: Option<u64>) -> (r: Result<(), ApiError>)
    ensures
        match duration {
            None => r matches Err(e) && e.code == ErrorCode::NotFound && e.message@
                == "unknown track key"@,
            Some(d) => if d == u64::MAX {
                r matches Err(e) && e.code == ErrorCode::InvalidInput && e.message@
                    == "radio streams have no lyrics"@
            } else {
                r is Ok
            },
        },
{
    match duration {
        None => Err(ApiError::not_found("unknown track key")),
        Some(d) => if d == u64::MAX {
            Err(ApiError::invalid_input("radio streams have no lyrics"))
        } else {
            Ok(())
        },
    }
}

/// The Apple Music catalog id a lookup signs for: only for an Apple Music
/// server holding a token, and only for one of its own keys.
pub fn apple_catalog_id(service: Option<MusicService>, has_token: bool, key: &str) -> (r: Option<String>)
    ensures
        r.deep_view() == (if service == Some(MusicService::AppleMusic) && has_token
            && crate::text::has_prefix(key@, "applemusic:"@) {
            Some(key@.skip(11))
        } else {
            None
        }),
{
    if service != Some(MusicService::AppleMusic) || !has_token || !crate::text::starts_with(key, "applemusic:") {
        return None;
    }
    proof {
        reveal_strlit("applemusic:");
    }
    let cs = chars_of(key);
    let rest = crate::text::chars_from(cs.as_slice(), 11);
    Some(string_of(rest.as_slice()))
}

/// A lookup that found nothing is refused as not found.
pub fn lyrics_found(found: Option<LyricsView>) -> (r: Result<LyricsView, ApiError>)
    ensures
        match found {
            Some(l) => r == Ok::<LyricsView, ApiError>(l),
            None => r matches Err(e) && e.code == ErrorCode::NotFound && e.message@
                == "no lyrics found"@,
        },
{
    match found {
        Some(l) => Ok(l),
        None => Err(ApiError::not_found("no lyrics found")),
    }
}

// ---------------------------------------------------------------- scan roots

/// The roots a scan walks: the default library's folders first, then each
/// named local library's, in order.
pub open spec fn scan_roots_of(config: AppConfig) -> Seq<(Source, Seq<Seq<char>>)> {
    seq![(Source::Local, config.music_directory.deep_view())] + config.local_sources@.map_values(
        |s: SavedLocalSource| (Source::LocalLibrary(s.id), s.directories.deep_view()),
    )
}

pub fn scan_roots(config: &AppConfig) -> (r: Vec<(Source, Vec<String>)>)
    ensures
        r@.len() == scan_roots_of(*config).len(),
        forall|i: int|
            0 <= i < r@.len() ==> {
                let (s, d) = #[trigger] r@[i];
                let (t, e) = scan_roots_of(*config)[i];
                &&& s == t
                &&& d.deep_view() == e
            },
{
    let mut out: Vec<(Source, Vec<String>)> = Vec::new();
    out.push((Source::Local, copy_strings(&config.music_directory)));
    let mut i: usize = 0;
    while i < config.local_sources.len()
        invariant
            i <= config.local_sources@.len(),
            out@.len() == i + 1,
            forall|m: int|
                0 <= m < out@.len() ==> {
                    let (s, d) = #[trigger] out@[m];
                    let (t, e) = scan_roots_of(*config)[m];
                    &&& s == t
                    &&& d.deep_view() == e
                },
        decreases config.local_sources.len() - i,
    {
        let src = &config.local_sources[i];
        out.push((Source::LocalLibrary(src.id.clone()), copy_strings(&src.directories)));
        i += 1;
    }
    out
}

} // verus!
