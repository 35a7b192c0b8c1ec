//! The decisions of the player's tick: what to record, what to prefetch,
//! when to tell Discord and a Jellyfin server, when to crossfade, and when a
//! track that "finished" is really a stream that died.
//!
//! The caller runs the loop every quarter second, reads the clocks and the
//! player, performs what is decided here and hands the outcome back.

use vstd::prelude::*;
use crate::text::{before_char, before_first, chars_from, chars_of, has_prefix, starts_with, string_of};

verus! {

/// A position change larger than this, against where Discord draws the bar,
/// is a seek.
pub const SEEK_JUMP_SECS: u64 = 3;
/// Minimum seconds between seek-triggered presence pushes.
pub const SEEK_RESEND_COOLDOWN: u64 = 3;
/// How often the paused activity is re-sent to hold the bar still.
pub const PAUSED_REANCHOR: u64 = 8;
/// How far ahead of the queue's end the autoradio continuation is fetched.
pub const AUTORADIO_PREFETCH_LEAD_SECS: u64 = 30;
/// How many early deaths in a row stop playback.
pub const MAX_DEAD_TRACKS: u32 = 3;
/// How often a Jellyfin server is pinged.
pub const JELLYFIN_PING_SECS: u64 = 30;
/// How often playback progress is reported to a Jellyfin server.
pub const JELLYFIN_PROGRESS_SECS: u64 = 5;

// ---------------------------------------------------------------- paths

/// The second `:`-separated piece of a text, where it has a `:`.
pub open spec fn second_piece(p: Seq<char>) -> Option<Seq<char>> {
    if p.contains(':') {
        Some(before_char(p.skip(before_char(p, ':').len() + 1 as int), ':'))
    } else {
        None
    }
}

fn second_piece_of(p: &str) -> (r: Option<String>)
    ensures
        r.deep_view() == second_piece(p@),
{
    let cs = chars_of(p);
    if !crate::text::chars_contain(cs.as_slice(), ':') {
        return None;
    }
    let head = before_first(cs.as_slice(), ':');
    proof {
        crate::text::lemma_before_char_len(cs@, ':');
    }
    let total = cs.len();
    assert(head@.len() < total);
    let rest = chars_from(cs.as_slice(), head.len() + 1);
    let second = before_first(rest.as_slice(), ':');
    Some(string_of(second.as_slice()))
}

/// Whether a queue path names a track on a server.
pub open spec fn server_path(p: Seq<char>) -> bool {
    has_prefix(p, "jellyfin:"@) || has_prefix(p, "subsonic:"@) || has_prefix(p, "ytmusic:"@)
}

/// What a play is recorded under among the recents: a server track by its
/// item id, a local one by its path.
pub open spec fn recent_of(p: Seq<char>) -> (Seq<char>, bool) {
    if server_path(p) {
        (
            match second_piece(p) {
                Some(id) => id,
                None => p,
            },
            true,
        )
    } else {
        (p, false)
    }
}

pub fn recent_entry(path: &str) -> (r: (String, bool))
    ensures
        (r.0@, r.1) == recent_of(path@),
{
    let is_server = starts_with(path, "jellyfin:") || starts_with(path, "subsonic:") || starts_with(
        path,
        "ytmusic:",
    );
    if is_server {
        match second_piece_of(path) {
            Some(id) => (id, true),
            None => (crate::text::owned(path), true),
        }
    } else {
        (crate::text::owned(path), false)
    }
}

/// Whether the playing track is new to the recents: it plays, and it is not
/// the one last recorded.
pub fn recent_due(path: Option<&str>, playing: bool, last: Option<&str>) -> (r: bool)
    ensures
        r == (match path {
            Some(p) => playing && match last {
                Some(l) => l@ != p@,
                None => true,
            },
            None => false,
        }),
{
    match path {
        Some(p) => playing && match last {
            Some(l) => !crate::text::str_eq(l, p),
            None => true,
        },
        None => false,
    }
}

/// The next track's stream to warm up: a YouTube Music track not warmed
/// already. `None` is nothing to do; `Some(v)` is "remember this path", with
/// the video id to warm where the path names a non-empty one.
pub fn stream_prefetch(next_path: &str, last: Option<&str>) -> (r: Option<Option<String>>)
    ensures
        r is Some <==> (has_prefix(next_path@, "ytmusic:"@) && match last {
            Some(l) => l@ != next_path@,
            None => true,
        }),
        r matches Some(v) ==> v.deep_view() == (match second_piece(next_path@) {
            Some(id) => if id.len() > 0 {
                Some(id)
            } else {
                None
            },
            None => None,
        }),
{
    if !starts_with(next_path, "ytmusic:") {
        return None;
    }
    let fresh = match last {
        Some(l) => !crate::text::str_eq(l, next_path),
        None => true,
    };
    if !fresh {
        return None;
    }
    match second_piece_of(next_path) {
        Some(id) => if id.as_str().is_empty() {
            Some(None)
        } else {
            Some(Some(id))
        },
        None => Some(None),
    }
}

// ---------------------------------------------------------------- crossfade and autoradio

/// What the progress bar shows while a crossfade is pending.
#[derive(Debug, Clone, Copy, PartialEq, Eq, Structural)]
pub enum CrossfadeUi {
    /// The outgoing track is done: switch the display to the incoming one.
    Commit,
    /// Keep showing the outgoing track at this position.
    Show(u64),
}

pub fn crossfade_display(
    elapsed: u64,
    switch_after: u64,
    outgoing_progress: u64,
    outgoing_duration: u64,
) -> (r: CrossfadeUi)
    ensures
        r == (if elapsed >= switch_after {
            CrossfadeUi::Commit
        } else if outgoing_progress + elapsed > u64::MAX || outgoing_progress + elapsed
            > outgoing_duration {
            CrossfadeUi::Show(outgoing_duration)
        } else {
            CrossfadeUi::Show((outgoing_progress + elapsed) as u64)
        }),
{
    if elapsed >= switch_after {
        return CrossfadeUi::Commit;
    }
    let shown = outgoing_progress.saturating_add(elapsed);
    if shown > outgoing_duration {
        CrossfadeUi::Show(outgoing_duration)
    } else {
        CrossfadeUi::Show(shown)
    }
}

/// Whether the autoradio continuation should be fetched now: autoradio is
/// on, nothing loops, the last queued track plays, it is not endless, and it
/// is near its end (or its length is still unknown); once per generation and
/// queue length.
pub open spec fn autoradio_due_spec(
    autoradio: bool,
    loop_none: bool,
    queue_len: nat,
    index: nat,
    duration: nat,
    pos: nat,
    generation: nat,
    prefetched_for: Option<(usize, usize)>,
) -> bool {
    let remaining = if duration >= pos {
        duration - pos
    } else {
        0
    };
    &&& autoradio
    &&& loop_none
    &&& queue_len > 0 && index + 1 >= queue_len
    &&& duration != u64::MAX
    &&& (duration == 0 || remaining <= AUTORADIO_PREFETCH_LEAD_SECS)
    &&& prefetched_for != Some((generation as usize, queue_len as usize))
}

pub fn autoradio_prefetch_due(
    autoradio: bool,
    loop_none: bool,
    queue_len: usize,
    index: usize,
    duration: u64,
    pos_secs: u64,
    generation: usize,
    prefetched_for: Option<(usize, usize)>,
) -> (r: bool)
    ensures
        r == autoradio_due_spec(
            autoradio,
            loop_none,
            queue_len as nat,
            index as nat,
            duration as nat,
            pos_secs as nat,
            generation as nat,
            prefetched_for,
        ),
{
    let is_last = queue_len > 0 && index >= queue_len - 1;
    let remaining = duration.saturating_sub(pos_secs);
    let near_end = duration == 0 || remaining <= AUTORADIO_PREFETCH_LEAD_SECS;
    let fresh = match prefetched_for {
        Some((g, l)) => !(g == generation && l == queue_len),
        None => true,
    };
    autoradio && loop_none && is_last && duration != u64::MAX && near_end && fresh
}

/// Whether to start the crossfade into the next track now.
pub fn crossfade_due(
    duration: u64,
    pos_secs: u64,
    crossfade_on: bool,
    has_next: bool,
    crossfade_seconds: u64,
    triggered_for: Option<usize>,
    generation: usize,
    loading: bool,
    skipping: bool,
) -> (r: bool)
    ensures
        r == (duration > 0 && pos_secs < duration && crossfade_on && has_next && duration - pos_secs
            <= crossfade_seconds && triggered_for != Some(generation) && !loading && !skipping),
{
    duration > 0 && pos_secs < duration && crossfade_on && has_next && duration - pos_secs
        <= crossfade_seconds && triggered_for != Some(generation) && !loading && !skipping
}

// ---------------------------------------------------------------- the end of a track

/// Whether the playing track is over: the player says so, or the position
/// ran five seconds past a known length. A radio stream never is.
pub fn skip_due(duration: u64, complete: bool, pos_secs: u64) -> (r: bool)
    ensures
        r == (duration != u64::MAX && (complete || (duration > 0 && pos_secs >= duration + 5
            || duration > 0 && duration + 5 > u64::MAX && pos_secs == u64::MAX))),
{
    if duration == u64::MAX {
        false
    } else {
        complete || (duration > 0 && pos_secs >= duration.saturating_add(5))
    }
}

/// Whether a finish came in the first seconds of a song that is really
/// longer: its stream died.
pub open spec fn died_early(duration: u64, played: u64) -> bool {
    duration > 5 && played < 3
}

/// What to do about a track that is over.
#[derive(Debug, Clone, Copy, PartialEq, Eq, Structural)]
pub enum EndStep {
    /// Leave it: it is loading, a skip is under way, or playback was halted
    /// on this generation.
    Wait,
    /// Too many streams died in a row: pause and say so.
    Halt,
    /// Go on to the next track, recording the play when it was heard through.
    Advance { record: bool },
}

/// How many tracks in a row have died early, and the generation playback was
/// halted on, if it was.
pub struct EndGuard {
    pub consecutive_dead: u32,
    pub halted_on: Option<usize>,
}

/// One tick's end-of-track decision. A halted generation stays halted; an
/// early death is counted and the third in a row halts; any real finish
/// resets the count.
pub open spec fn end_next(
    g: EndGuard,
    should_skip: bool,
    generation: usize,
    duration: u64,
    played: u64,
    loading: bool,
    skipping: bool,
) -> (EndGuard, EndStep) {
    if !should_skip || g.halted_on == Some(generation) || loading || skipping {
        (g, EndStep::Wait)
    } else if died_early(duration, played) {
        if g.consecutive_dead + 1 >= MAX_DEAD_TRACKS {
            (EndGuard { consecutive_dead: 0, halted_on: Some(generation) }, EndStep::Halt)
        } else {
            (
                EndGuard { consecutive_dead: (g.consecutive_dead + 1) as u32, halted_on: g.halted_on },
                EndStep::Advance { record: false },
            )
        }
    } else {
        (EndGuard { consecutive_dead: 0, halted_on: g.halted_on }, EndStep::Advance { record: true })
    }
}

impl EndGuard {
    pub open spec fn wf(&self) -> bool {
        self.consecutive_dead < MAX_DEAD_TRACKS
    }

    pub fn new() -> (r: EndGuard)
        ensures
            r.wf(),
            r.consecutive_dead == 0,
            r.halted_on is None,
    {
        EndGuard { consecutive_dead: 0, halted_on: None }
    }

    pub fn on_end(
        &mut self,
        should_skip: bool,
        generation: usize,
        duration: u64,
        played: u64,
        loading: bool,
        skipping: bool,
    ) -> (r: EndStep)
        requires
            old(self).wf(),
        ensures
            final(self).wf(),
            (*final(self), r) == end_next(
                *old(self),
                should_skip,
                generation,
                duration,
                played,
                loading,
                skipping,
            ),
    {
        if !should_skip || self.halted_on == Some(generation) || loading || skipping {
            return EndStep::Wait;
        }
        let early = duration > 5 && played < 3;
        if early {
            let count = self.consecutive_dead + 1;
            if count >= MAX_DEAD_TRACKS {
                self.halted_on = Some(generation);
                self.consecutive_dead = 0;
                EndStep::Halt
            } else {
                self.consecutive_dead = count;
                EndStep::Advance { record: false }
            }
        } else {
            self.consecutive_dead = 0;
            EndStep::Advance { record: true }
        }
    }
}

/// Streams that die early three times in a row are skipped twice, unrecorded,
/// and the third halts playback; the halted generation is then left alone,
/// however often it reports that it is over.
pub proof fn dead_streams_halt_on_the_third(
    g0: EndGuard,
    gens: (usize, usize, usize),
    duration: u64,
    played: (u64, u64, u64),
)
    requires
        g0.consecutive_dead == 0,
        g0.halted_on != Some(gens.0),
        g0.halted_on != Some(gens.1),
        g0.halted_on != Some(gens.2),
        died_early(duration, played.0),
        died_early(duration, played.1),
        died_early(duration, played.2),
    ensures
        ({
            let (g1, s1) = end_next(g0, true, gens.0, duration, played.0, false, false);
            let (g2, s2) = end_next(g1, true, gens.1, duration, played.1, false, false);
            let (g3, s3) = end_next(g2, true, gens.2, duration, played.2, false, false);
            &&& s1 == (EndStep::Advance { record: false })
            &&& s2 == (EndStep::Advance { record: false })
            &&& s3 == EndStep::Halt
            &&& forall|later: u64|
                #[trigger] end_next(g3, true, gens.2, duration, later, false, false).1
                    == EndStep::Wait
        }),
{
}

/// What one end-of-track decision does to the guard. A track heard through
/// is advanced past and recorded, and clears the count of dead streams; an
/// early death below the cap is advanced past unrecorded and counted; the
/// death that reaches the cap halts on its generation and clears the count;
/// while the track is loading, being skipped, not over, or its generation
/// is halted, nothing changes.
pub proof fn an_end_moves_the_guard(
    g: EndGuard,
    should_skip: bool,
    generation: usize,
    duration: u64,
    played: u64,
    loading: bool,
    skipping: bool,
)
    requires
        g.wf(),
    ensures
        ({
            let (next, step) = end_next(g, should_skip, generation, duration, played, loading, skipping);
            let live = should_skip && g.halted_on != Some(generation) && !loading && !skipping;
            let early = duration > 5 && played < 3;
            &&& !live ==> step == EndStep::Wait && next == g
            &&& live && !early ==> step == (EndStep::Advance { record: true })
                && next.consecutive_dead == 0 && next.halted_on == g.halted_on
            &&& live && early && g.consecutive_dead + 1 < 3 ==> step == (EndStep::Advance {
                record: false,
            }) && next.consecutive_dead == g.consecutive_dead + 1 && next.halted_on == g.halted_on
            &&& live && early && g.consecutive_dead + 1 >= 3 ==> step == EndStep::Halt
                && next.consecutive_dead == 0 && next.halted_on == Some(generation)
            &&& step == (EndStep::Advance { record: true }) ==> next.consecutive_dead == 0
            &&& next.wf()
        }),
{
}

/// A track heard through between dead streams starts the count again: two
/// deaths, a real finish, then two more deaths never halt.
pub proof fn a_real_finish_resets_the_dead_count(
    g0: EndGuard,
    gens: (usize, usize, usize, usize, usize),
    duration: u64,
    played: (u64, u64, u64, u64, u64),
)
    requires
        g0.consecutive_dead == 0,
        g0.halted_on is None,
        duration > 5,
        played.0 < 3,
        played.1 < 3,
        played.2 >= 3,
        played.3 < 3,
        played.4 < 3,
    ensures
        ({
            let (g1, s1) = end_next(g0, true, gens.0, duration, played.0, false, false);
            let (g2, s2) = end_next(g1, true, gens.1, duration, played.1, false, false);
            let (g3, s3) = end_next(g2, true, gens.2, duration, played.2, false, false);
            let (g4, s4) = end_next(g3, true, gens.3, duration, played.3, false, false);
            let (g5, s5) = end_next(g4, true, gens.4, duration, played.4, false, false);
            &&& s1 == (EndStep::Advance { record: false })
            &&& s2 == (EndStep::Advance { record: false })
            &&& s3 == (EndStep::Advance { record: true })
            &&& s4 == (EndStep::Advance { record: false })
            &&& s5 == (EndStep::Advance { record: false })
            &&& g5.halted_on is None
        }),
{
}

// ---------------------------------------------------------------- Discord

/// Whether the position has drifted from where Discord draws the bar: the
/// bar sits at the last sent position plus the seconds since that send.
/// Radio has no position, and a drift is acted on only once the cooldown
/// since the last send is over.
pub open spec fn seek_spec(duration: u64, since_send: Option<u64>, sent_progress: u64, pos: u64) -> bool {
    &&& duration != u64::MAX
    &&& match since_send {
        Some(since) => {
            let predicted: int = if sent_progress + since > u64::MAX {
                u64::MAX as int
            } else {
                sent_progress + since
            };
            &&& since >= SEEK_RESEND_COOLDOWN
            &&& (pos - predicted > SEEK_JUMP_SECS || predicted - pos > SEEK_JUMP_SECS)
        },
        None => false,
    }
}

pub fn seek_detected(duration: u64, since_send: Option<u64>, sent_progress: u64, pos: u64) -> (r: bool)
    ensures
        r == seek_spec(duration, since_send, sent_progress, pos),
{
    if duration == u64::MAX {
        return false;
    }
    match since_send {
        Some(since) => {
            let predicted = sent_progress.saturating_add(since);
            let diff = if pos >= predicted {
                pos - predicted
            } else {
                predicted - pos
            };
            since >= SEEK_RESEND_COOLDOWN && diff > SEEK_JUMP_SECS
        },
        None => false,
    }
}

/// What to do with the Discord activity on a tick.
#[derive(Debug, Clone, Copy, PartialEq, Eq, Structural)]
pub enum PresenceStep {
    Nothing,
    Send,
    Clear,
}

pub open spec fn playing_step(
    enabled: bool,
    was_enabled: bool,
    song_changed: bool,
    resumed: bool,
    cover_unsent: bool,
    retry_pending: bool,
    seeked: bool,
) -> PresenceStep {
    if enabled {
        if song_changed || resumed || !was_enabled || cover_unsent || retry_pending || seeked {
            PresenceStep::Send
        } else {
            PresenceStep::Nothing
        }
    } else if was_enabled {
        PresenceStep::Clear
    } else {
        PresenceStep::Nothing
    }
}

/// While playing: send when presence is on and the song changed, playback
/// resumed, presence was just switched on, a cover resolved that was not
/// sent, a send is pending after a failure, or a seek moved the bar; take
/// the activity down when presence was just switched off.
pub fn playing_presence(
    enabled: bool,
    was_enabled: bool,
    song_changed: bool,
    resumed: bool,
    cover_unsent: bool,
    retry_pending: bool,
    seeked: bool,
) -> (r: PresenceStep)
    ensures
        r == playing_step(enabled, was_enabled, song_changed, resumed, cover_unsent, retry_pending, seeked),
{
    if enabled {
        if song_changed || resumed || !was_enabled || cover_unsent || retry_pending || seeked {
            PresenceStep::Send
        } else {
            PresenceStep::Nothing
        }
    } else if was_enabled {
        PresenceStep::Clear
    } else {
        PresenceStep::Nothing
    }
}

/// While paused: with presence and "show while paused" on, send on the
/// play-to-pause edge, when presence was just switched on, while a send is
/// pending, and every few seconds to hold the bar still, as long as there is
/// a title; otherwise take the activity down on the pause edge or when
/// presence was just switched off.
pub fn paused_presence(
    enabled: bool,
    paused_enabled: bool,
    was_enabled: bool,
    was_playing: bool,
    retry_pending: bool,
    since_send: Option<u64>,
    has_title: bool,
) -> (r: PresenceStep)
    ensures
        r == (if enabled && paused_enabled {
            if (was_playing || !was_enabled || retry_pending || match since_send {
                Some(s) => s >= PAUSED_REANCHOR,
                None => true,
            }) && has_title {
                PresenceStep::Send
            } else {
                PresenceStep::Nothing
            }
        } else if was_playing || (!enabled && was_enabled) {
            PresenceStep::Clear
        } else {
            PresenceStep::Nothing
        }),
{
    let reanchor = match since_send {
        Some(s) => s >= PAUSED_REANCHOR,
        None => true,
    };
    if enabled && paused_enabled {
        if (was_playing || !was_enabled || retry_pending || reanchor) && has_title {
            PresenceStep::Send
        } else {
            PresenceStep::Nothing
        }
    } else if was_playing || (!enabled && was_enabled) {
        PresenceStep::Clear
    } else {
        PresenceStep::Nothing
    }
}

/// A failed send stays pending, so the next tick retries it; a sent one is
/// no longer pending.
pub proof fn a_failed_send_is_retried(
    enabled: bool,
    was_enabled: bool,
    song_changed: bool,
    resumed: bool,
    cover_unsent: bool,
    seeked: bool,
)
    ensures
        enabled ==> playing_step(
            enabled,
            was_enabled,
            song_changed,
            resumed,
            cover_unsent,
            true,
            seeked,
        ) == PresenceStep::Send,
{
}

// ---------------------------------------------------------------- Jellyfin

/// The item a Jellyfin queue path names.
pub open spec fn jellyfin_item_of(p: Seq<char>) -> Option<Seq<char>> {
    if has_prefix(p, "jellyfin:"@) {
        second_piece(p)
    } else {
        None
    }
}

/// What to report to a Jellyfin server when the playing item is looked at.
pub struct JellyfinStep {
    /// Report this item stopped.
    pub stopped: Option<String>,
    /// Report this item started.
    pub started: Option<String>,
}

/// The item last reported as playing.
pub struct JellyfinTracker {
    pub last: Option<String>,
}

impl JellyfinTracker {
    pub fn new() -> (r: JellyfinTracker)
        ensures
            r.last is None,
    {
        JellyfinTracker { last: None }
    }

    /// Look at the playing track's path: a new Jellyfin item stops the old
    /// one and starts itself; anything else stops what was playing.
    pub fn on_track(&mut self, path: Option<&str>) -> (r: JellyfinStep)
        ensures
            match path {
                Some(p) => match jellyfin_item_of(p@) {
                    Some(id) => if old(self).last.deep_view() == Some(id) {
                        r.stopped is None && r.started is None && final(self).last.deep_view()
                            == old(self).last.deep_view()
                    } else {
                        &&& r.stopped.deep_view() == old(self).last.deep_view()
                        &&& r.started.deep_view() == Some(id)
                        &&& final(self).last.deep_view() == Some(id)
                    },
                    None => r.stopped.deep_view() == old(self).last.deep_view() && r.started is None
                        && final(self).last is None,
                },
                None => r.stopped.deep_view() == old(self).last.deep_view() && r.started is None
                    && final(self).last is None,
            },
    {
        let item = match path {
            Some(p) => if starts_with(p, "jellyfin:") {
                second_piece_of(p)
            } else {
                None
            },
            None => None,
        };
        match item {
            Some(id) => {
                let same = match &self.last {
                    Some(l) => crate::text::str_eq(l.as_str(), id.as_str()),
                    None => false,
                };
                if same {
                    JellyfinStep { stopped: None, started: None }
                } else {
                    let stopped = self.last.take();
                    let started = id.clone();
                    self.last = Some(id);
                    JellyfinStep { stopped, started: Some(started) }
                }
            },
            None => {
                let stopped = self.last.take();
                JellyfinStep { stopped, started: None }
            },
        }
    }
}

/// Whether progress is due to a Jellyfin server: every few seconds, and
/// whenever playback starts or stops.
pub fn jellyfin_progress_due(since_report: u64, playing: bool, was_playing: bool) -> (r: bool)
    ensures
        r == (since_report >= JELLYFIN_PROGRESS_SECS || playing != was_playing),
{
    since_report >= JELLYFIN_PROGRESS_SECS || playing != was_playing
}

/// Jellyfin counts in ticks of a tenth of a microsecond.
pub fn jellyfin_ticks(micros: u64) -> (r: u64)
    requires
        micros * 10 <= u64::MAX,
    ensures
        r == micros * 10,
{
    micros * 10
}

} // verus!
