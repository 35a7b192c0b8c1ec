//! Discord Rich Presence: what an activity says, where its cover comes from,
//! and when the connection is trusted, retried or thrown away.
//!
//! The connection is made lazily and re-made automatically: if Discord is not
//! running when the app starts, the first update after it launches connects;
//! if Discord restarts, the broken pipe drops the client and the next update
//! reconnects. The pipe and the network are the caller's; times are
//! milliseconds on a clock the caller reads.

use vstd::prelude::*;
use crate::text::{
    before_char, chars_of, concat2, concat3, decimal, has_prefix, joined, owned, push_char,
    push_str, starts_with, str_eq, string_of, trimmed, two_digit, two_digit_string,
    u64_to_string,
};

verus! {

/// Connection attempts are throttled so a closed Discord is not hammered on
/// every player tick.
pub const RECONNECT_THROTTLE_MS: u64 = 5000;

/// How long a connection may sit unused before it is thrown away rather than
/// trusted: nothing here can tell a live pipe from a dead one, and a dead one
/// swallows updates while reporting success.
pub const IDLE_RECONNECT_MS: u64 = 60_000;

/// The state of the link to Discord.
pub struct PresenceLink {
    /// A client is connected.
    pub connected: bool,
    /// When a connection was last attempted.
    pub last_attempt: Option<u64>,
    /// When the pipe last carried a successful write.
    pub last_used: Option<u64>,
}

/// What getting a live client takes.
#[derive(Debug, Clone, Copy, PartialEq, Eq, Structural)]
pub enum ConnectStep {
    /// A client is connected already.
    Connected,
    /// The last attempt was too recent.
    Throttled,
    /// Try to connect now.
    Attempt,
}

impl PresenceLink {
    /// No connection yet: it is made on the first update, since a connection
    /// nobody writes to is the kind that dies quietly.
    pub fn new() -> (r: PresenceLink)
        ensures
            !r.connected && r.last_attempt is None && r.last_used is None,
    {
        PresenceLink { connected: false, last_attempt: None, last_used: None }
    }

    /// Throw away a connection idle for too long at `now_ms`, so the next
    /// call builds a fresh one at once. Answers whether a client is to be
    /// closed.
    pub fn drop_if_stale(&mut self, now_ms: u64) -> (r: bool)
        ensures
            ({
                let stale = match old(self).last_used {
                    None => true,
                    Some(t) => now_ms > t + IDLE_RECONNECT_MS,
                };
                &&& r == (stale && old(self).connected)
                &&& *final(self) == if r {
                    PresenceLink { connected: false, last_attempt: None, ..*old(self) }
                } else {
                    *old(self)
                }
            }),
    {
        let stale = match self.last_used {
            None => true,
            Some(t) => (now_ms as u128) > (t as u128) + (IDLE_RECONNECT_MS as u128),
        };
        if !stale || !self.connected {
            return false;
        }
        self.connected = false;
        self.last_attempt = None;
        true
    }

    /// Whether to connect at `now_ms`. An attempt is recorded as it is
    /// decided.
    pub fn ensure_connected(&mut self, now_ms: u64) -> (r: ConnectStep)
        ensures
            old(self).connected ==> r == ConnectStep::Connected && *final(self) == *old(self),
            !old(self).connected ==> match old(self).last_attempt {
                Some(t) if now_ms < t + RECONNECT_THROTTLE_MS => r == ConnectStep::Throttled
                    && *final(self) == *old(self),
                _ => r == ConnectStep::Attempt && *final(self) == (PresenceLink {
                    last_attempt: Some(now_ms),
                    ..*old(self)
                }),
            },
    {
        if self.connected {
            return ConnectStep::Connected;
        }
        if let Some(t) = self.last_attempt {
            if (now_ms as u128) < (t as u128) + (RECONNECT_THROTTLE_MS as u128) {
                return ConnectStep::Throttled;
            }
        }
        self.last_attempt = Some(now_ms);
        ConnectStep::Attempt
    }

    /// An attempt succeeded or failed.
    pub fn connect_result(&mut self, ok: bool)
        ensures
            *final(self) == (PresenceLink { connected: ok, ..*old(self) }),
    {
        self.connected = ok;
    }

    /// A write went through at `now_ms`, or failed: a failure means the pipe
    /// died, so the client goes and the next call reconnects.
    pub fn wrote(&mut self, ok: bool, now_ms: u64)
        ensures
            *final(self) == if ok {
                PresenceLink { last_used: Some(now_ms), ..*old(self) }
            } else {
                PresenceLink { connected: false, ..*old(self) }
            },
    {
        if ok {
            self.last_used = Some(now_ms);
        } else {
            self.connected = false;
        }
    }

    /// A diagnostic forces a real reconnect attempt.
    pub fn force_attempt(&mut self)
        ensures
            *final(self) == (PresenceLink { last_attempt: None, ..*old(self) }),
    {
        self.last_attempt = None;
    }

    /// The client was closed on purpose.
    pub fn disconnect(&mut self)
        ensures
            *final(self) == (PresenceLink { connected: false, ..*old(self) }),
    {
        self.connected = false;
    }

    /// True while a live connection is held; never connects.
    pub fn is_connected(&self) -> (r: bool)
        ensures
            r == self.connected,
    {
        self.connected
    }
}

// ---------------------------------------------------------------- what an activity says

/// `m:ss`, or `h:mm:ss` past the hour: the shape a player shows.
pub open spec fn clock(total: nat) -> Seq<char> {
    let h = total / 3600;
    let m = (total % 3600) / 60;
    let s = total % 60;
    if h > 0 {
        decimal(h) + ":"@ + two_digit(m) + ":"@ + two_digit(s)
    } else {
        decimal(m) + ":"@ + two_digit(s)
    }
}

/// A position as a player shows it, so a paused position reads as a
/// position and not as a raw number.
pub fn format_clock(total_secs: u64) -> (r: String)
    ensures
        r@ == clock(total_secs as nat),
{
    let h = total_secs / 3600;
    let m = (total_secs % 3600) / 60;
    let s = total_secs % 60;
    if h > 0 {
        let mut r = u64_to_string(h);
        push_str(&mut r, ":");
        push_str(&mut r, two_digit_string(m).as_str());
        push_str(&mut r, ":");
        push_str(&mut r, two_digit_string(s).as_str());
        r
    } else {
        let mut r = u64_to_string(m);
        push_str(&mut r, ":");
        push_str(&mut r, two_digit_string(s).as_str());
        r
    }
}

/// What a paused activity's second line says: the artist, and the frozen
/// position with the duration where it is known.
pub open spec fn paused_line(artist: Seq<char>, elapsed: nat, duration: u64) -> Seq<char> {
    let position = if duration == 0 || duration == u64::MAX {
        clock(elapsed)
    } else {
        clock(elapsed) + " / "@ + clock(duration as nat)
    };
    artist + " \u{2022} \u{23f8} "@ + position
}

/// Discord cannot freeze a progress bar, so a paused activity carries no
/// timestamps and holds its position in this text.
pub fn paused_state(artist: &str, elapsed_secs: u64, duration_secs: u64) -> (r: String)
    ensures
        r@ == paused_line(artist@, elapsed_secs as nat, duration_secs),
{
    let position = if duration_secs == 0 || duration_secs == u64::MAX {
        format_clock(elapsed_secs)
    } else {
        concat3(
            format_clock(elapsed_secs).as_str(),
            " / ",
            format_clock(duration_secs).as_str(),
        )
    };
    concat3(artist, " \u{2022} \u{23f8} ", position.as_str())
}

/// The timestamps of a playing activity, in seconds since the epoch: it
/// started `elapsed` ago and ends after `duration`, unless the duration is
/// the radio's endless marker.
pub fn playing_timestamps(now_secs: i64, elapsed_secs: u64, duration_secs: u64) -> (r: (
    i64,
    Option<i64>,
))
    ensures
        r.0 == now_secs.wrapping_sub(elapsed_secs as i64),
        r.1 == if duration_secs == u64::MAX {
            None
        } else {
            Some(r.0.wrapping_add(duration_secs as i64))
        },
{
    let start = now_secs.wrapping_sub(elapsed_secs as i64);
    if duration_secs == u64::MAX {
        (start, None)
    } else {
        (start, Some(start.wrapping_add(duration_secs as i64)))
    }
}

// ---------------------------------------------------------------- covers

pub const COVER_ART_ARCHIVE: &'static str = "https://coverartarchive.org";

/// A release's front cover on the Cover Art Archive.
pub fn cover_art_url(release_mbid: &str) -> (r: String)
    ensures
        r@ == COVER_ART_ARCHIVE@ + "/release/"@ + release_mbid@ + "/front"@,
{
    let mut r = concat3(COVER_ART_ARCHIVE, "/release/", release_mbid);
    push_str(&mut r, "/front");
    r
}

/// A character a YouTube video id may hold.
pub open spec fn video_id_char(c: char) -> bool {
    ('a' <= c && c <= 'z') || ('A' <= c && c <= 'Z') || ('0' <= c && c <= '9') || c == '_' || c
        == '-'
}

/// The public cover a track's own source gives, with no guessing: a YouTube
/// video's thumbnail (the 16:9 frame without letterboxing).
pub open spec fn direct_cover(path: Seq<char>) -> Option<Seq<char>> {
    if has_prefix(path, "ytmusic:"@) {
        let vid = before_char(path.skip(8), ':');
        if vid.len() > 0 && forall|i: int| 0 <= i < vid.len() ==> video_id_char(#[trigger] vid[i]) {
            Some("https://i.ytimg.com/vi/"@ + vid + "/mqdefault.jpg"@)
        } else {
            None
        }
    } else {
        None
    }
}

/// A correct, public cover URL derived straight from a track's path, for the
/// sources that have one; `None` falls back to the metadata lookup.
pub fn direct_cover_url(track_path: &str) -> (r: Option<String>)
    ensures
        r.deep_view() == direct_cover(track_path@),
{
    if !starts_with(track_path, "ytmusic:") {
        return None;
    }
    proof {
        reveal_strlit("ytmusic:");
    }
    let cs = chars_of(track_path);
    let rest = crate::text::chars_from(cs.as_slice(), 8);
    let vid = crate::text::before_first(rest.as_slice(), ':');
    if vid.len() == 0 {
        return None;
    }
    let mut i: usize = 0;
    while i < vid.len()
        invariant
            i <= vid.len(),
            vid@.len() > 0,
            cs@ == track_path@,
            rest@ == cs@.skip(8),
            vid@ == before_char(rest@, ':'),
            has_prefix(track_path@, "ytmusic:"@),
            forall|j: int| 0 <= j < i ==> video_id_char(#[trigger] vid@[j]),
        decreases vid.len() - i,
    {
        let c = vid[i];
        if !(('a' <= c && c <= 'z') || ('A' <= c && c <= 'Z') || ('0' <= c && c <= '9') || c == '_'
            || c == '-') {
            assert(!video_id_char(vid@[i as int]));
            return None;
        }
        i += 1;
    }
    let id = string_of(vid.as_slice());
    let mut r = concat2("https://i.ytimg.com/vi/", id.as_str());
    push_str(&mut r, "/mqdefault.jpg");
    Some(r)
}

/// A character Lucene's query syntax gives a meaning.
pub open spec fn lucene_special(c: char) -> bool {
    c == '\\' || c == '+' || c == '-' || c == '!' || c == '(' || c == ')' || c == ':' || c == '^'
        || c == '[' || c == ']' || c == '"' || c == '{' || c == '}' || c == '~' || c == '*' || c
        == '?' || c == '|' || c == '&' || c == '/'
}

/// Text with every special character escaped by a backslash.
pub open spec fn escaped(s: Seq<char>) -> Seq<char>
    decreases s.len(),
{
    if s.len() == 0 {
        Seq::empty()
    } else {
        escaped(s.drop_last()) + if lucene_special(s.last()) {
            seq!['\\', s.last()]
        } else {
            seq![s.last()]
        }
    }
}

/// Escape text for a Lucene query.
pub fn escape_lucene(input: &str) -> (r: String)
    ensures
        r@ == escaped(input@),
{
    let cs = chars_of(input);
    let mut out = String::new();
    let mut i: usize = 0;
    while i < cs.len()
        invariant
            i <= cs.len(),
            cs@ == input@,
            out@ == escaped(cs@.take(i as int)),
        decreases cs.len() - i,
    {
        let ch = cs[i];
        assert(cs@.take(i + 1).drop_last() =~= cs@.take(i as int));
        if ch == '\\' || ch == '+' || ch == '-' || ch == '!' || ch == '(' || ch == ')' || ch == ':'
            || ch == '^' || ch == '[' || ch == ']' || ch == '"' || ch == '{' || ch == '}' || ch
            == '~' || ch == '*' || ch == '?' || ch == '|' || ch == '&' || ch == '/' {
            push_char(&mut out, '\\');
        }
        push_char(&mut out, ch);
        assert(out@ =~= escaped(cs@.take(i + 1)));
        i += 1;
    }
    assert(cs@.take(cs.len() as int) =~= cs@);
    out
}

/// The MusicBrainz release query for an artist and an album; `None` when
/// there is neither.
pub open spec fn release_query(artist: Seq<char>, album: Seq<char>) -> Option<Seq<char>> {
    if artist.len() == 0 && album.len() == 0 {
        None
    } else {
        let parts = (if album.len() > 0 {
            seq!["release:\""@ + escaped(album) + "\""@]
        } else {
            Seq::empty()
        }) + (if artist.len() > 0 {
            seq!["artist:\""@ + escaped(artist) + "\""@]
        } else {
            Seq::empty()
        });
        Some(joined(parts, " AND "@))
    }
}

pub fn build_release_query(artist: &str, album: &str) -> (r: Option<String>)
    ensures
        r.deep_view() == release_query(artist@, album@),
{
    if artist.is_empty() && album.is_empty() {
        return None;
    }
    let mut parts: Vec<String> = Vec::new();
    if !album.is_empty() {
        let mut p = concat2("release:\"", escape_lucene(album).as_str());
        push_str(&mut p, "\"");
        crate::text::push_deep(&mut parts, p);
    }
    if !artist.is_empty() {
        let mut p = concat2("artist:\"", escape_lucene(artist).as_str());
        push_str(&mut p, "\"");
        crate::text::push_deep(&mut parts, p);
    }
    proof {
        let want = (if album@.len() > 0 {
            seq!["release:\""@ + escaped(album@) + "\""@]
        } else {
            Seq::empty()
        }) + (if artist@.len() > 0 {
            seq!["artist:\""@ + escaped(artist@) + "\""@]
        } else {
            Seq::empty()
        });
        assert(parts.deep_view() =~= want);
    }
    Some(crate::text::join(&parts, " AND "))
}

/// A search's top release is trusted only above this score.
pub const MIN_RELEASE_SCORE: u8 = 80;

/// Whether a release search's top result is good enough to use.
pub fn score_accepted(score: Option<u8>) -> (r: bool)
    ensures
        r == match score {
            Some(s) => s >= MIN_RELEASE_SCORE,
            None => false,
        },
{
    match score {
        Some(s) => s >= MIN_RELEASE_SCORE,
        None => false,
    }
}

/// Without an album the lookup would guess by artist alone, which returns
/// whatever release ranks first: better no cover than the wrong one.
pub fn worth_guessing(album: &str) -> (r: bool)
    ensures
        r == (trimmed(album@).len() > 0),
{
    !crate::text::is_blank(album)
}

/// How a cover is looked for: the release id the track carries is tried
/// first, when it carries a non-empty one; the guesses by artist and album
/// (a release search, then iTunes) follow only where an album is named. The
/// first lookup that finds an image ends the search.
pub fn cover_plan(mbid: Option<&str>, album: &str) -> (r: (Option<String>, bool))
    ensures
        r.0.deep_view() == (match mbid {
            Some(id) => if id@.len() > 0 { Some(id@) } else { None },
            None => None,
        }),
        r.1 == (trimmed(album@).len() > 0),
{
    let embedded = match mbid {
        Some(id) => if crate::text::chars_of(id).len() > 0 { Some(crate::text::owned(id)) } else { None },
        None => None,
    };
    (embedded, worth_guessing(album))
}

/// `s` with every non-overlapping `pat`, left to right, replaced by `rep`,
/// as `str::replace`.
pub open spec fn replaced(s: Seq<char>, pat: Seq<char>, rep: Seq<char>) -> Seq<char>
    recommends
        pat.len() > 0,
    decreases s.len(),
{
    if s.len() == 0 || pat.len() == 0 {
        s
    } else if has_prefix(s, pat) {
        rep + replaced(s.skip(pat.len() as int), pat, rep)
    } else {
        seq![s[0]] + replaced(s.drop_first(), pat, rep)
    }
}

/// The large version of an iTunes artwork URL.
pub fn itunes_hires(url: &str) -> (r: String)
    ensures
        r@ == replaced(url@, "100x100bb"@, "600x600bb"@),
{
    let cs = chars_of(url);
    let pat = chars_of("100x100bb");
    let ghost p = "100x100bb"@;
    let ghost q = "600x600bb"@;
    proof {
        reveal_strlit("100x100bb");
    }
    assert(p.len() == 9);
    let mut out = String::new();
    let mut i: usize = 0;
    assert(cs@.skip(0) =~= url@);
    assert(out@ + replaced(cs@.skip(0), p, q) =~= replaced(url@, p, q));
    while i < cs.len()
        invariant
            i <= cs.len(),
            cs@ == url@,
            pat@ == p,
            p.len() == 9,
            q == "600x600bb"@,
            out@ + replaced(cs@.skip(i as int), p, q) == replaced(url@, p, q),
        decreases cs.len() - i,
    {
        let ghost rest = cs@.skip(i as int);
        let mut matches = cs.len() - i >= 9;
        let mut k: usize = 0;
        while matches && k < 9
            invariant
                k <= 9,
                matches ==> i + 9 <= cs.len(),
                pat@ == p,
                p.len() == 9,
                matches ==> forall|j: int| 0 <= j < k ==> cs@[i + j] == p[j],
                !matches ==> (cs.len() < i + 9 || exists|j: int| 0 <= j < 9 && cs@[i + j] != p[j]),
            decreases 9 - k,
        {
            if cs[i + k] != pat[k] {
                assert(cs@[i + k] != p[k as int]);
                matches = false;
            }
            k += 1;
        }
        let ghost before = out@;
        if matches {
            assert(rest.take(9) =~= p);
            assert(has_prefix(rest, p));
            assert(rest.skip(9) =~= cs@.skip(i + 9));
            assert(replaced(rest, p, q) == q + replaced(rest.skip(9), p, q));
            push_str(&mut out, "600x600bb");
            assert(out@ + replaced(cs@.skip(i + 9), p, q) =~= before + replaced(rest, p, q));
            i += 9;
        } else {
            assert(!has_prefix(rest, p)) by {
                if has_prefix(rest, p) {
                    assert(i + 9 <= cs.len());
                    assert forall|j: int| 0 <= j < 9 implies cs@[i + j] == p[j] by {
                        assert(rest.take(9)[j] == rest[j]);
                        assert(rest[j] == cs@[i + j]);
                    }
                }
            }
            assert(rest.drop_first() =~= cs@.skip(i + 1));
            assert(replaced(rest, p, q) == seq![rest[0]] + replaced(rest.drop_first(), p, q));
            push_char(&mut out, cs[i]);
            assert(out@ + replaced(cs@.skip(i + 1), p, q) =~= before + replaced(rest, p, q));
            i += 1;
        }
    }
    assert(replaced(cs@.skip(cs.len() as int), p, q) =~= Seq::<char>::empty());
    assert(out@ =~= replaced(url@, p, q));
    out
}

} // verus!
