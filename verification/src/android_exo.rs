//! The Android playback engine's decisions.
//!
//! On Android playback runs in the platform's ExoPlayer service so it survives
//! the activity being stopped. A dedicated engine thread keeps the queue
//! model, resolves stream URLs, feeds ExoPlayer a rolling look-ahead window,
//! and drains ExoPlayer's own events to refill that window itself. The state
//! that thread keeps, and what it decides on each command and event, is here;
//! resolving a track and talking to ExoPlayer are the caller's, which performs
//! the [`ExoAction`] each step answers.

use vstd::prelude::*;
use crate::config::OfflineTrack;
use crate::text::{
    chars_of, concat3, owned, parse_usize, push_deep, starts_with, string_of, u64_to_string,
    unsigned_value,
};

verus! {

// ---------------------------------------------------------------- tuning

/// Upcoming tracks kept resolved ahead of the current one in ExoPlayer's
/// playlist: the app's only defence against Android's background rules,
/// since a refill attempted while backgrounded can simply fail.
pub const WINDOW_AHEAD: usize = 20;

/// How many resolved items are handed to ExoPlayer at a time while filling.
pub const FLUSH_EVERY: usize = 3;

/// Attempts a look-ahead slot gets before it is written off as unplayable.
pub const MAX_RESOLVE_ATTEMPTS: u32 = 3;

/// How many slots a refill resolves back to back before it starts pacing.
pub const BURST_FREE: usize = 3;

/// How far the fast-start scan walks looking for a playable track.
pub const MAX_FAST_START_SCAN: usize = 12;

/// Gap between stall retries, in milliseconds, and how many to make.
pub const STALL_RETRY_MS: u64 = 12_000;
pub const MAX_STALL_RETRIES: u32 = 20;

/// Start the autoradio prefetch this many milliseconds before the last
/// track's end.
pub const AUTORADIO_PREFETCH_LEAD_MS: i64 = 30_000;

// ---------------------------------------------------------------- events

/// What ExoPlayer reports.
#[derive(Debug, Clone, PartialEq, Eq)]
pub enum ExoEvent {
    /// Playback moved to another item; its media id is its queue slot.
    Transition { media_id: String },
    /// Position and duration, and whether it is playing.
    State { playing: bool, position_ms: i64, duration_ms: i64 },
    /// ExoPlayer ran out of items.
    Ended,
    /// An item failed to play.
    Error { media_id: String, code: i32 },
}

impl ExoEvent {
    pub open spec fn is_transition(self) -> bool {
        self is Transition
    }

    pub open spec fn is_state(self) -> bool {
        self is State
    }

    /// An end or an error: a happening that a later transition supersedes.
    pub open spec fn is_terminal(self) -> bool {
        self is Ended || self is Error
    }
}

/// The position of the last transition, or -1.
pub open spec fn last_transition(events: Seq<ExoEvent>) -> int
    decreases events.len(),
{
    if events.len() == 0 {
        -1
    } else if events.last().is_transition() {
        events.len() - 1
    } else {
        last_transition(events.drop_last())
    }
}

/// The position of the newest state report, or -1.
pub open spec fn last_state(events: Seq<ExoEvent>) -> int
    decreases events.len(),
{
    if events.len() == 0 {
        -1
    } else if events.last().is_state() {
        events.len() - 1
    } else {
        last_state(events.drop_last())
    }
}

/// Whether the event at `i` still describes reality: the last transition, and
/// any end or error after it.
pub open spec fn still_current(events: Seq<ExoEvent>, i: int) -> bool {
    let t = last_transition(events);
    ||| (events[i].is_transition() && i == t)
    ||| (events[i].is_terminal() && i > t)
}

/// The events of `events[..n]` that are still current, in order.
pub open spec fn current_prefix(events: Seq<ExoEvent>, n: int) -> Seq<ExoEvent>
    decreases n,
{
    if n <= 0 {
        Seq::empty()
    } else if still_current(events, n - 1) {
        current_prefix(events, n - 1).push(events[n - 1])
    } else {
        current_prefix(events, n - 1)
    }
}

/// A batch of buffered events reduced to the ones that still describe
/// reality, with the newest state last.
pub open spec fn coalesced(events: Seq<ExoEvent>) -> Seq<ExoEvent> {
    let s = last_state(events);
    current_prefix(events, events.len() as int) + if s >= 0 {
        seq![events[s]]
    } else {
        Seq::empty()
    }
}

proof fn lemma_last_transition(events: Seq<ExoEvent>)
    ensures
        -1 <= last_transition(events) < events.len(),
        last_transition(events) >= 0 ==> events[last_transition(events)].is_transition(),
        forall|j: int|
            last_transition(events) < j < events.len() ==> !(#[trigger] events[j]).is_transition(),
    decreases events.len(),
{
    if events.len() > 0 && !events.last().is_transition() {
        let rest = events.drop_last();
        lemma_last_transition(rest);
        assert forall|j: int|
            last_transition(events) < j < events.len() implies !(#[trigger] events[j]).is_transition() by {
            if j < events.len() - 1 {
                assert(events[j] == rest[j]);
            }
        }
    }
}

proof fn lemma_last_state(events: Seq<ExoEvent>)
    ensures
        -1 <= last_state(events) < events.len(),
        last_state(events) >= 0 ==> events[last_state(events)].is_state(),
        forall|j: int| last_state(events) < j < events.len() ==> !(#[trigger] events[j]).is_state(),
    decreases events.len(),
{
    if events.len() > 0 && !events.last().is_state() {
        let rest = events.drop_last();
        lemma_last_state(rest);
        assert forall|j: int| last_state(events) < j < events.len() implies !(
        #[trigger] events[j]).is_state() by {
            if j < events.len() - 1 {
                assert(events[j] == rest[j]);
            }
        }
    }
}

proof fn lemma_current_prefix(events: Seq<ExoEvent>, n: int)
    requires
        0 <= n <= events.len(),
    ensures
        forall|k: int|
            0 <= k < current_prefix(events, n).len() ==> !(#[trigger] current_prefix(
                events,
                n,
            )[k]).is_state(),
        forall|k: int|
            0 <= k < current_prefix(events, n).len() && (#[trigger] current_prefix(
                events,
                n,
            )[k]).is_transition() ==> current_prefix(events, n)[k] == events[last_transition(events)],
        last_transition(events) < n && last_transition(events) >= 0 ==> current_prefix(
            events,
            n,
        ).contains(events[last_transition(events)]),
        n <= last_transition(events) ==> forall|k: int|
            0 <= k < current_prefix(events, n).len() ==> !(#[trigger] current_prefix(
                events,
                n,
            )[k]).is_transition(),
        forall|a: int, b: int|
            0 <= a < current_prefix(events, n).len() && 0 <= b < current_prefix(events, n).len()
                && (#[trigger] current_prefix(events, n)[a]).is_transition() && (
            #[trigger] current_prefix(events, n)[b]).is_transition() ==> a == b,
    decreases n,
{
    lemma_last_transition(events);
    if n > 0 {
        lemma_current_prefix(events, n - 1);
        let p = current_prefix(events, n - 1);
        if still_current(events, n - 1) {
            assert forall|k: int| 0 <= k < p.push(events[n - 1]).len() implies !(
            #[trigger] p.push(events[n - 1])[k]).is_state() by {
                if k < p.len() {
                    assert(p.push(events[n - 1])[k] == p[k]);
                }
            }
            if last_transition(events) < n - 1 && last_transition(events) >= 0 {
                let w = choose|k: int| 0 <= k < p.len() && p[k] == events[last_transition(events)];
                assert(p.push(events[n - 1])[w] == events[last_transition(events)]);
            }
            if last_transition(events) == n - 1 {
                assert(p.push(events[n - 1])[p.len() as int] == events[n - 1]);
            }
            let q = p.push(events[n - 1]);
            assert forall|k: int| 0 <= k < p.len() implies q[k] == p[k] by {}
            assert forall|a: int, b: int|
                0 <= a < q.len() && 0 <= b < q.len() && (#[trigger] q[a]).is_transition() && (
                #[trigger] q[b]).is_transition() implies a == b by {
                if a < p.len() && b < p.len() {
                    assert(q[a] == p[a] && q[b] == p[b]);
                } else if a < p.len() {
                    assert(q[a] == p[a]);
                } else if b < p.len() {
                    assert(q[b] == p[b]);
                }
            }
        }
    }
}

/// Coalescing keeps exactly what still describes reality: no transition but
/// the last one, and that one whenever there was any; the newest state
/// report, last, and no other.
pub proof fn coalescing_keeps_the_present(events: Seq<ExoEvent>)
    ensures
        forall|k: int|
            0 <= k < coalesced(events).len() && (#[trigger] coalesced(events)[k]).is_transition()
                ==> coalesced(events)[k] == events[last_transition(events)],
        forall|a: int, b: int|
            0 <= a < coalesced(events).len() && 0 <= b < coalesced(events).len() && (
            #[trigger] coalesced(events)[a]).is_transition() && (
            #[trigger] coalesced(events)[b]).is_transition() ==> a == b,
        last_transition(events) >= 0 ==> coalesced(events).contains(
            events[last_transition(events)],
        ),
        last_state(events) >= 0 ==> coalesced(events).last() == events[last_state(events)],
        forall|k: int|
            0 <= k < coalesced(events).len() && (#[trigger] coalesced(events)[k]).is_state() ==> k
                == coalesced(events).len() - 1 && last_state(events) >= 0,
{
    lemma_last_transition(events);
    lemma_last_state(events);
    let n = events.len() as int;
    lemma_current_prefix(events, n);
    let p = current_prefix(events, n);
    let c = coalesced(events);
    assert forall|k: int| 0 <= k < p.len() implies c[k] == p[k] by {}
    if last_transition(events) >= 0 {
        let w = choose|k: int| 0 <= k < p.len() && p[k] == events[last_transition(events)];
        assert(c[w] == events[last_transition(events)]);
    }
}

/// Reduce a batch of buffered ExoPlayer events to the ones that still
/// describe reality.
///
/// While the app is backgrounded Android throttles the engine thread, so
/// ExoPlayer's callbacks pile up unread. Only the last transition describes
/// where playback is; an end or an error before it is history, one after it is
/// still live. A state report is pure position and duration, so only the
/// newest matters, and it goes last.
pub fn coalesce_events(events: Vec<ExoEvent>) -> (r: Vec<ExoEvent>)
    ensures
        r@ == coalesced(events@),
{
    let ghost all = events@;
    let mut last_t: Option<usize> = None;
    let mut i: usize = 0;
    while i < events.len()
        invariant
            i <= events.len(),
            all == events@,
            match last_t {
                Some(t) => t < i && last_transition(all.take(i as int)) == t,
                None => last_transition(all.take(i as int)) == -1,
            },
        decreases events.len() - i,
    {
        assert(all.take(i + 1).drop_last() =~= all.take(i as int));
        if let ExoEvent::Transition { .. } = &events[i] {
            last_t = Some(i);
        }
        i += 1;
    }
    assert(all.take(events.len() as int) =~= all);
    proof {
        lemma_last_transition(all);
        lemma_last_state(all);
    }
    let mut out: Vec<ExoEvent> = Vec::new();
    let mut newest_state: Option<usize> = None;
    let mut k: usize = 0;
    while k < events.len()
        invariant
            k <= events.len(),
            all == events@,
            match last_t {
                Some(t) => last_transition(all) == t,
                None => last_transition(all) == -1,
            },
            out@ == current_prefix(all, k as int),
            match newest_state {
                Some(s) => s < k && last_state(all.take(k as int)) == s,
                None => last_state(all.take(k as int)) == -1,
            },
        decreases events.len() - k,
    {
        assert(all.take(k + 1).drop_last() =~= all.take(k as int));
        let keep = match &events[k] {
            ExoEvent::State { .. } => {
                newest_state = Some(k);
                false
            },
            ExoEvent::Transition { .. } => match last_t {
                Some(t) => t == k,
                None => false,
            },
            ExoEvent::Ended | ExoEvent::Error { .. } => match last_t {
                Some(t) => k > t,
                None => true,
            },
        };
        if keep {
            out.push(events[k].duplicate());
        }
        k += 1;
    }
    assert(all.take(events.len() as int) =~= all);
    if let Some(s) = newest_state {
        out.push(events[s].duplicate());
    }
    assert(out@ =~= coalesced(all));
    out
}

impl ExoEvent {
    /// A copy of an event.
    pub fn duplicate(&self) -> (r: ExoEvent)
        ensures
            r == *self,
    {
        match self {
            ExoEvent::Transition { media_id } => ExoEvent::Transition { media_id: media_id.clone() },
            ExoEvent::State { playing, position_ms, duration_ms } => ExoEvent::State {
                playing: *playing,
                position_ms: *position_ms,
                duration_ms: *duration_ms,
            },
            ExoEvent::Ended => ExoEvent::Ended,
            ExoEvent::Error { media_id, code } => ExoEvent::Error {
                media_id: media_id.clone(),
                code: *code,
            },
        }
    }
}

// ---------------------------------------------------------------- the engine's state

/// What the engine asks ExoPlayer to do directly.
#[derive(Debug, Clone, Copy, PartialEq, Eq, Structural)]
pub enum ExoCall {
    Clear,
    Pause,
    Resume,
    Next,
    Prev,
    Seek(i64),
    Stop,
}

/// What the engine thread is asked to do next.
#[derive(Debug, Clone, Copy, PartialEq, Eq, Structural)]
pub enum Cmd {
    /// Resolve the current track and the look-ahead window, and start
    /// playback at this position.
    PlayFrom { position_ms: i64 },
    /// A URL went stale: re-resolve the window fresh and restart it.
    Reresolve { position_ms: i64 },
    /// Shuffle toggled: keep the current track, swap only the upcoming items.
    ReorderUpcoming,
}

/// A snapshot for the UI to reconcile: `current_index` only when the playing
/// track changed since the last read, `ended` once when the queue finished,
/// and `new_queue` once when the engine seeded a queue itself.
#[derive(Debug, Clone, PartialEq, Eq)]
pub struct UiUpdate {
    pub current_index: Option<usize>,
    pub playing: bool,
    pub position_ms: i64,
    pub duration_ms: i64,
    pub ended: bool,
    /// The engine replaced the queue itself (an autoradio continuation); the
    /// driver adopts it as the new UI queue.
    pub new_queue: Option<Vec<String>>,
}

/// What the engine keeps: its mirror of the queue (each track by its path),
/// the retry bookkeeping, and the state it publishes to the driver.
pub struct ExoState {
    /// The queue, by track path.
    tracks: Vec<String>,
    /// The slot of the track playing now.
    index: usize,
    /// The highest slot already handed to ExoPlayer.
    resolved_upto: usize,
    /// Failed resolves per slot, so a transient failure is retried and a dead
    /// track eventually skipped.
    attempts: Vec<u32>,
    /// Moves whenever the queue is replaced, so a fill in flight notices.
    queue_gen: u64,
    /// When to retry a stalled queue, in milliseconds, and which attempt that
    /// is.
    stall: Option<(u64, u32)>,
    /// The media id failing now, and how many times in a row.
    err_media: String,
    err_count: u32,
    /// Whether end-of-queue autoradio is on.
    autoradio_on: bool,
    /// The playing slot as last published, and whether the driver has read it.
    cur_index: usize,
    index_dirty: bool,
    playing: bool,
    position_ms: i64,
    /// ExoPlayer's duration for the current item; 0 until it knows.
    duration_ms: i64,
    /// The queue truly ended and the driver has not heard yet.
    ended_dirty: bool,
    /// A queue the engine seeded itself that the driver has not taken yet.
    new_queue: Option<Vec<String>>,
    /// The queue tail an autoradio prefetch was last started for.
    prefetch_attempted: Option<String>,
    prefetch_inflight: bool,
}

/// What the engine keeps, as a value: the fields of `ExoState`.
pub struct ExoStateV {
    pub tracks: Vec<String>,
    pub index: usize,
    pub resolved_upto: usize,
    pub attempts: Vec<u32>,
    pub queue_gen: u64,
    pub stall: Option<(u64, u32)>,
    pub err_media: String,
    pub err_count: u32,
    pub autoradio_on: bool,
    pub cur_index: usize,
    pub index_dirty: bool,
    pub playing: bool,
    pub position_ms: i64,
    pub duration_ms: i64,
    pub ended_dirty: bool,
    pub new_queue: Option<Vec<String>>,
    pub prefetch_attempted: Option<String>,
    pub prefetch_inflight: bool,
}

impl View for ExoState {
    type V = ExoStateV;

    closed spec fn view(&self) -> ExoStateV {
        ExoStateV {
            tracks: self.tracks,
            index: self.index,
            resolved_upto: self.resolved_upto,
            attempts: self.attempts,
            queue_gen: self.queue_gen,
            stall: self.stall,
            err_media: self.err_media,
            err_count: self.err_count,
            autoradio_on: self.autoradio_on,
            cur_index: self.cur_index,
            index_dirty: self.index_dirty,
            playing: self.playing,
            position_ms: self.position_ms,
            duration_ms: self.duration_ms,
            ended_dirty: self.ended_dirty,
            new_queue: self.new_queue,
            prefetch_attempted: self.prefetch_attempted,
            prefetch_inflight: self.prefetch_inflight,
        }
    }
}

/// The longest queue the slot arithmetic allows: a slot plus the look-ahead
/// window must fit in a `usize`. No queue of strings comes near it, since no
/// allocation exceeds `isize::MAX` bytes.
pub const MAX_QUEUE: usize = usize::MAX - 64;

impl ExoState {
    /// The invariant: one attempt counter per slot, the playing slot and the
    /// resolved mark inside the queue (both 0 for an empty one).
    pub closed spec fn wf(&self) -> bool {
        &&& self.attempts@.len() == self.tracks@.len()
        &&& self.tracks@.len() <= MAX_QUEUE
        &&& if self.tracks@.len() == 0 {
            self.index == 0 && self.resolved_upto == 0
        } else {
            self.index < self.tracks@.len() && self.resolved_upto < self.tracks@.len()
        }
    }

    /// The slot a clamped start lands on.
    pub open spec fn clamped(start: usize, len: nat) -> usize {
        if len == 0 {
            0
        } else if start < len {
            start
        } else {
            (len - 1) as usize
        }
    }

    /// The queue, the playing slot, the resolved mark and the retry counts,
    /// and what was last published of playback, as the driver reads them.
    pub fn tracks(&self) -> (r: &Vec<String>)
        ensures
            *r == self@.tracks,
    {
        &self.tracks
    }

    pub fn index(&self) -> (r: usize)
        ensures
            r == self@.index,
    {
        self.index
    }

    pub fn resolved_upto(&self) -> (r: usize)
        ensures
            r == self@.resolved_upto,
    {
        self.resolved_upto
    }

    pub fn attempts(&self) -> (r: &Vec<u32>)
        ensures
            *r == self@.attempts,
    {
        &self.attempts
    }

    pub fn playing(&self) -> (r: bool)
        ensures
            r == self@.playing,
    {
        self.playing
    }

    pub fn position_ms(&self) -> (r: i64)
        ensures
            r == self@.position_ms,
    {
        self.position_ms
    }

    pub fn duration_ms(&self) -> (r: i64)
        ensures
            r == self@.duration_ms,
    {
        self.duration_ms
    }

    pub fn autoradio_on(&self) -> (r: bool)
        ensures
            r == self@.autoradio_on,
    {
        self.autoradio_on
    }

    pub fn ended_dirty(&self) -> (r: bool)
        ensures
            r == self@.ended_dirty,
    {
        self.ended_dirty
    }

    /// A fresh engine: nothing queued, nothing playing, autoradio on.
    pub fn new() -> (r: ExoState)
        ensures
            r.wf(),
            r@.tracks@.len() == 0,
            r@.autoradio_on,
            !r@.playing && !r@.ended_dirty && !r@.index_dirty,
            r@.stall is None,
            r@.new_queue is None,
    {
        ExoState {
            tracks: Vec::new(),
            index: 0,
            resolved_upto: 0,
            attempts: Vec::new(),
            queue_gen: 0,
            stall: None,
            err_media: String::new(),
            err_count: 0,
            autoradio_on: true,
            cur_index: 0,
            index_dirty: false,
            playing: false,
            position_ms: 0,
            duration_ms: 0,
            ended_dirty: false,
            new_queue: None,
            prefetch_attempted: None,
            prefetch_inflight: false,
        }
    }

    fn publish_index(&mut self, i: usize)
        ensures
            *final(self) == (ExoState { cur_index: i, index_dirty: true, ..*old(self) }),
    {
        self.cur_index = i;
        self.index_dirty = true;
    }

    /// What the driver reads of a state.
    pub closed spec fn ui_update_of(s: ExoState) -> UiUpdate {
        UiUpdate {
            current_index: if s.index_dirty {
                Some(s.cur_index)
            } else {
                None
            },
            playing: s.playing,
            position_ms: s.position_ms,
            duration_ms: s.duration_ms,
            ended: s.ended_dirty,
            new_queue: s.new_queue,
        }
    }

    /// The state once the driver has read it: what is reported once is
    /// spent.
    pub closed spec fn after_take(s: ExoState) -> ExoState {
        ExoState { index_dirty: false, ended_dirty: false, new_queue: None, ..s }
    }

    /// Read the latest playback state, as the driver does on its own thread.
    /// A changed index, a finished queue and a seeded queue are each reported
    /// once.
    pub fn take_ui_update(&mut self) -> (r: UiUpdate)
        ensures
            r == Self::ui_update_of(*old(self)),
            *final(self) == Self::after_take(*old(self)),
    {
        let current_index = if self.index_dirty {
            Some(self.cur_index)
        } else {
            None
        };
        let ended = self.ended_dirty;
        let new_queue = self.new_queue.take();
        self.index_dirty = false;
        self.ended_dirty = false;
        UiUpdate {
            current_index,
            playing: self.playing,
            position_ms: self.position_ms,
            duration_ms: self.duration_ms,
            ended,
            new_queue,
        }
    }

    pub fn set_autoradio(&mut self, on: bool)
        ensures
            final(self)@ == (ExoStateV { autoradio_on: on, ..old(self)@ }),
    {
        self.autoradio_on = on;
    }

    /// A paused user is not a stalled queue: retrying stops too.
    pub fn pause(&mut self) -> (r: ExoCall)
        ensures
            r == ExoCall::Pause,
            final(self)@ == (ExoStateV { playing: false, stall: None, ..old(self)@ }),
    {
        self.playing = false;
        self.stall = None;
        ExoCall::Pause
    }

    pub fn resume(&mut self) -> (r: ExoCall)
        ensures
            r == ExoCall::Resume,
            final(self)@ == (ExoStateV { playing: true, ..old(self)@ }),
    {
        self.playing = true;
        ExoCall::Resume
    }

    pub fn next(&self) -> (r: ExoCall)
        ensures
            r == ExoCall::Next,
    {
        ExoCall::Next
    }

    pub fn prev(&self) -> (r: ExoCall)
        ensures
            r == ExoCall::Prev,
    {
        ExoCall::Prev
    }

    /// Seek; the published position never goes below zero.
    pub fn seek_ms(&mut self, ms: i64) -> (r: ExoCall)
        ensures
            r == ExoCall::Seek(ms),
            final(self)@ == (ExoStateV {
                position_ms: if ms < 0 {
                    0
                } else {
                    ms
                },
                ..old(self)@
            }),
    {
        self.position_ms = if ms < 0 {
            0
        } else {
            ms
        };
        ExoCall::Seek(ms)
    }

    pub fn stop(&mut self) -> (r: ExoCall)
        ensures
            r == ExoCall::Stop,
            final(self)@ == (ExoStateV { playing: false, stall: None, ..old(self)@ }),
    {
        self.playing = false;
        self.stall = None;
        ExoCall::Stop
    }
}

/// A counter for each of `n` slots, all zero.
fn zeros(n: usize) -> (r: Vec<u32>)
    ensures
        r@ == Seq::new(n as nat, |_i: int| 0u32),
{
    let mut r: Vec<u32> = Vec::new();
    let mut i: usize = 0;
    while i < n
        invariant
            i <= n,
            r@ == Seq::new(i as nat, |_i: int| 0u32),
        decreases n - i,
    {
        r.push(0);
        assert(r@ =~= Seq::new((i + 1) as nat, |_i: int| 0u32));
        i += 1;
    }
    r
}

impl ExoState {
    /// Replace the queue: the mirror takes `tracks` with the playing slot
    /// clamped into it, nothing resolved past it and no failures counted, and
    /// the generation moves so a fill in flight gives up.
    fn replace_queue(&mut self, tracks: Vec<String>, current: usize)
        requires
            tracks@.len() <= MAX_QUEUE,
        ensures
            final(self).wf(),
            final(self).tracks == tracks,
            final(self).index == Self::clamped(current, tracks@.len()),
            final(self).resolved_upto == final(self).index,
            final(self).attempts@ == Seq::new(tracks@.len(), |_i: int| 0u32),
            final(self).queue_gen == old(self).queue_gen.wrapping_add(1),
            *final(self) == (ExoState {
                tracks: final(self).tracks,
                index: final(self).index,
                resolved_upto: final(self).resolved_upto,
                attempts: final(self).attempts,
                queue_gen: final(self).queue_gen,
                ..*old(self)
            }),
    {
        self.queue_gen = self.queue_gen.wrapping_add(1);
        let len = tracks.len();
        let index = if len == 0 {
            0
        } else if current < len {
            current
        } else {
            len - 1
        };
        self.attempts = zeros(len);
        self.tracks = tracks;
        self.index = index;
        self.resolved_upto = index;
    }

    /// Start (or restart) playback of `tracks` from `start_index`. The old
    /// track stops at once when starting from the top, so it does not play on
    /// while the new one resolves: the answer says whether to clear ExoPlayer.
    pub fn play(&mut self, tracks: Vec<String>, start_index: usize, position_ms: i64) -> (r: (
        bool,
        Cmd,
    ))
        requires
            tracks@.len() <= MAX_QUEUE,
        ensures
            final(self).wf(),
            final(self)@.tracks == tracks,
            final(self)@.index == Self::clamped(start_index, tracks@.len()),
            final(self)@.resolved_upto == final(self)@.index,
            final(self)@.attempts@ == Seq::new(tracks@.len(), |_i: int| 0u32),
            final(self)@.queue_gen == old(self)@.queue_gen.wrapping_add(1),
            final(self)@.stall is None,
            final(self)@.duration_ms == 0,
            final(self)@.position_ms == if position_ms <= 0 {
                0
            } else {
                old(self)@.position_ms
            },
            r == (position_ms <= 0, Cmd::PlayFrom { position_ms }),
    {
        self.replace_queue(tracks, start_index);
        self.stall = None;
        self.duration_ms = 0;
        let clear = position_ms <= 0;
        if clear {
            self.position_ms = 0;
        }
        (clear, Cmd::PlayFrom { position_ms })
    }

    /// Shuffle toggled during playback: the mirror takes the new play order
    /// with the current track at `current_idx`, and only the upcoming items
    /// are rebuilt.
    pub fn reorder_upcoming(&mut self, tracks: Vec<String>, current_idx: usize) -> (r: Cmd)
        requires
            tracks@.len() <= MAX_QUEUE,
        ensures
            final(self).wf(),
            final(self)@.tracks == tracks,
            final(self)@.index == Self::clamped(current_idx, tracks@.len()),
            final(self)@.resolved_upto == final(self)@.index,
            final(self)@.queue_gen == old(self)@.queue_gen.wrapping_add(1),
            r == Cmd::ReorderUpcoming,
    {
        self.replace_queue(tracks, current_idx);
        Cmd::ReorderUpcoming
    }

    /// The engine seeded an autoradio continuation itself: it becomes the
    /// queue, from its first track.
    pub fn adopt_radio(&mut self, radio: Vec<String>) -> (r: Cmd)
        requires
            radio@.len() <= MAX_QUEUE,
        ensures
            final(self).wf(),
            final(self)@.tracks == radio,
            final(self)@.index == 0 && final(self)@.resolved_upto == 0,
            final(self)@.duration_ms == 0,
            final(self)@.queue_gen == old(self)@.queue_gen.wrapping_add(1),
            final(self)@.new_queue matches Some(q) && q.deep_view() == radio.deep_view(),
            r == (Cmd::PlayFrom { position_ms: 0 }),
    {
        let handed = crate::config::copy_strings(&radio);
        self.replace_queue(radio, 0);
        self.duration_ms = 0;
        self.new_queue = Some(handed);
        Cmd::PlayFrom { position_ms: 0 }
    }

    // ------------------------------------------------------------ stall retries

    /// Schedule the next stall retry, `STALL_RETRY_MS` after `now_ms`, and
    /// answer its attempt number.
    pub fn arm_stall_retry(&mut self, now_ms: u64) -> (r: u32)
        ensures
            r == match old(self)@.stall {
                Some((_, n)) => if n < u32::MAX {
                    (n + 1) as u32
                } else {
                    n
                },
                None => 1,
            },
            final(self)@ == (ExoStateV {
                stall: Some((now_ms.saturating_add(STALL_RETRY_MS), r)),
                ..old(self)@
            }),
    {
        let attempt = match self.stall {
            Some((_, n)) => if n < u32::MAX {
                n + 1
            } else {
                n
            },
            None => 1,
        };
        self.stall = Some((now_ms.saturating_add(STALL_RETRY_MS), attempt));
        attempt
    }

    pub fn clear_stall_retry(&mut self)
        ensures
            final(self)@ == (ExoStateV { stall: None, ..old(self)@ }),
    {
        self.stall = None;
    }

    /// Whether the pending stall retry is due at `now_ms`; a due retry is
    /// re-armed, so a retry that itself hangs cannot spin the engine loop.
    pub fn stall_retry_due(&mut self, now_ms: u64) -> (r: bool)
        ensures
            r == match old(self)@.stall {
                Some((at, _)) => at <= now_ms,
                None => false,
            },
            final(self)@ == if r {
                ExoStateV {
                    stall: Some((now_ms.saturating_add(STALL_RETRY_MS), match old(self)@.stall {
                        Some((_, n)) => n,
                        None => 0,
                    })),
                    ..old(self)@
                }
            } else {
                old(self)@
            },
    {
        match self.stall {
            Some((at, n)) => {
                if at > now_ms {
                    return false;
                }
                self.stall = Some((now_ms.saturating_add(STALL_RETRY_MS), n));
                true
            },
            None => false,
        }
    }

    // ------------------------------------------------------------ starting playback

    /// Where the fast-start scan stops: a run this long of unresolvable
    /// tracks is a systemic failure, which the stall retry recovers from.
    pub fn scan_end(&self) -> (r: usize)
        requires
            self.wf(),
        ensures
            r == if self@.index + MAX_FAST_START_SCAN < self@.tracks@.len() {
                self@.index + MAX_FAST_START_SCAN
            } else {
                self@.tracks@.len() as int
            },
    {
        let end = self.index + MAX_FAST_START_SCAN;
        if end < self.tracks.len() {
            end
        } else {
            self.tracks.len()
        }
    }

    /// Nothing in the scan resolved. That is usually temporary while the app
    /// is backgrounded, so a retry is scheduled; past the retry limit the
    /// queue is given up as ended.
    pub fn fast_start_failed(&mut self, now_ms: u64)
        ensures
            !final(self)@.playing,
            ({
                let attempt = match old(self)@.stall {
                    Some((_, n)) => if n < u32::MAX {
                        (n + 1) as u32
                    } else {
                        n
                    },
                    None => 1,
                };
                if attempt > MAX_STALL_RETRIES {
                    final(self)@.stall is None && final(self)@.ended_dirty
                } else {
                    final(self)@.stall == Some((now_ms.saturating_add(STALL_RETRY_MS), attempt))
                        && final(self)@.ended_dirty == old(self)@.ended_dirty
                }
            }),
            final(self)@ == (ExoStateV {
                playing: false,
                stall: final(self)@.stall,
                ended_dirty: final(self)@.ended_dirty,
                ..old(self)@
            }),
    {
        let attempt = self.arm_stall_retry(now_ms);
        self.playing = false;
        if attempt > MAX_STALL_RETRIES {
            self.stall = None;
            self.ended_dirty = true;
        }
    }

    /// The track at `first` resolved and is playing: the window behind it is
    /// filled next, over the answered range of slots.
    pub fn fast_started(&mut self, first: usize) -> (r: (usize, usize))
        requires
            old(self).wf(),
            first < old(self)@.tracks@.len(),
        ensures
            final(self).wf(),
            final(self)@.index == first && final(self)@.resolved_upto == first,
            final(self)@.cur_index == first && final(self)@.index_dirty,
            final(self)@.playing,
            final(self)@.stall is None,
            r.0 == first + 1 && r.1 == first + WINDOW_AHEAD,
            final(self)@ == (ExoStateV {
                index: first,
                resolved_upto: first,
                cur_index: first,
                index_dirty: true,
                playing: true,
                stall: None,
                ..old(self)@
            }),
    {
        self.stall = None;
        self.index = first;
        self.resolved_upto = first;
        self.publish_index(first);
        self.playing = true;
        (first + 1, first + WINDOW_AHEAD)
    }

    /// The range a shuffle re-order refills: the window after the current
    /// track.
    pub fn reorder_range(&self) -> (r: (usize, usize))
        requires
            self.wf(),
        ensures
            r.0 == self@.index + 1 && r.1 == self@.index + 1 + WINDOW_AHEAD,
    {
        (self.index + 1, self.index + 1 + WINDOW_AHEAD)
    }

    // ------------------------------------------------------------ filling the window

    /// The last slot a refill up to `to` may touch.
    pub fn refill_end(&self, to: usize) -> (r: usize)
        ensures
            r == if self@.tracks@.len() == 0 {
                0
            } else if to < self@.tracks@.len() {
                to
            } else {
                (self@.tracks@.len() - 1) as usize
            },
    {
        let last = if self.tracks.len() == 0 {
            0
        } else {
            self.tracks.len() - 1
        };
        if to < last {
            to
        } else {
            last
        }
    }

    /// A slot resolved and was handed over: its failures are forgotten and the
    /// resolved mark reaches it.
    pub fn slot_resolved(&mut self, i: usize)
        requires
            old(self).wf(),
            i < old(self)@.tracks@.len(),
        ensures
            final(self).wf(),
            final(self)@.attempts@ == old(self)@.attempts@.update(i as int, 0),
            final(self)@.resolved_upto == if old(self)@.resolved_upto < i {
                i
            } else {
                old(self)@.resolved_upto
            },
            final(self)@ == (ExoStateV {
                attempts: final(self)@.attempts,
                resolved_upto: final(self)@.resolved_upto,
                ..old(self)@
            }),
    {
        self.attempts.set(i, 0);
        if self.resolved_upto < i {
            self.resolved_upto = i;
        }
    }

    /// A slot failed to resolve. Answers whether the fill should stop and
    /// retry it on the next pass; a slot that has used up its attempts is
    /// skipped for good instead, the resolved mark passing it.
    pub fn slot_failed(&mut self, i: usize) -> (retry: bool)
        requires
            old(self).wf(),
            i < old(self)@.tracks@.len(),
        ensures
            final(self).wf(),
            ({
                let n = old(self)@.attempts@[i as int];
                let tries = if n < u32::MAX {
                    (n + 1) as u32
                } else {
                    n
                };
                &&& final(self)@.attempts@ == old(self)@.attempts@.update(i as int, tries)
                &&& retry == (tries < MAX_RESOLVE_ATTEMPTS)
                &&& final(self)@.resolved_upto == if retry || old(self)@.resolved_upto >= i {
                    old(self)@.resolved_upto
                } else {
                    i
                }
            }),
            final(self)@ == (ExoStateV {
                attempts: final(self)@.attempts,
                resolved_upto: final(self)@.resolved_upto,
                ..old(self)@
            }),
    {
        let n = self.attempts[i];
        let tries = if n < u32::MAX {
            n + 1
        } else {
            n
        };
        self.attempts.set(i, tries);
        if tries < MAX_RESOLVE_ATTEMPTS {
            return true;
        }
        if self.resolved_upto < i {
            self.resolved_upto = i;
        }
        false
    }

    /// Whether a fill started at generation `at_start` is stale.
    pub fn queue_replaced(&self, at_start: u64) -> (r: bool)
        ensures
            r == (self@.queue_gen != at_start),
    {
        self.queue_gen != at_start
    }
}

/// Whether a fill paces its next resolve: everything past the first few
/// waits.
pub fn paced(resolved_in_pass: usize) -> (r: bool)
    ensures
        r == (resolved_in_pass >= BURST_FREE),
{
    resolved_in_pass >= BURST_FREE
}

/// Whether a batch of resolved items is due to be handed over.
pub fn flush_due(pending: usize) -> (r: bool)
    ensures
        r == (pending >= FLUSH_EVERY),
{
    pending >= FLUSH_EVERY
}

// ---------------------------------------------------------------- events

/// The queue slot a media id names, where it is one: media ids are slot
/// numbers, unique where a track's path is not.
pub open spec fn slot_named(media_id: Seq<char>, len: nat) -> Option<usize> {
    match unsigned_value(media_id) {
        Some(v) => if v < len {
            Some(v as usize)
        } else {
            None
        },
        None => None,
    }
}

/// Read a media id as a slot of a queue this long.
pub fn parse_slot(media_id: &str, len: usize) -> (r: Option<usize>)
    ensures
        r == slot_named(media_id@, len as nat),
{
    match parse_usize(media_id) {
        Some(v) => if v < len {
            Some(v)
        } else {
            None
        },
        None => None,
    }
}

/// What an `Ended` calls for.
#[derive(Debug, Clone, Copy, PartialEq, Eq, Structural)]
pub enum EndedStep {
    /// The look-ahead window had not been handed over yet: resolve and play
    /// from the current slot again.
    Refill,
    /// Tracks remain after the current one: move on and play from there.
    Advance,
    /// The queue truly ended and autoradio is on: try to seed a continuation.
    TryAutoradio,
    /// The queue truly ended.
    Finished,
}

/// What an `Error` calls for.
#[derive(Debug, Clone, Copy, PartialEq, Eq, Structural)]
pub enum ErrorStep {
    /// First failure of this item: drop its cached URL (for the slot, where
    /// the media id names one) and re-resolve from the position reached.
    Reresolve { slot: Option<usize>, position_ms: i64 },
    /// Failed again: skip to the next slot and play from there.
    Skip,
    /// Failed again and it was the last track.
    Finished,
}

/// The signature of a queue's tail, its length and last path: it changes
/// whenever the queue is replaced or grows.
pub open spec fn tail_key(tracks: Seq<String>) -> Seq<char> {
    decimal_nat(tracks.len()) + ":"@ + if tracks.len() > 0 {
        tracks.last()@
    } else {
        Seq::empty()
    }
}

pub open spec fn decimal_nat(n: nat) -> Seq<char> {
    crate::text::decimal(n)
}

/// The tail key of a queue.
pub fn radio_seed_key(tracks: &Vec<String>) -> (r: String)
    ensures
        r@ == tail_key(tracks@),
{
    let last = if tracks.len() > 0 {
        tracks[tracks.len() - 1].as_str()
    } else {
        ""
    };
    proof {
        reveal_strlit("");
    }
    concat3(u64_to_string(tracks.len() as u64).as_str(), ":", last)
}

impl ExoState {
    /// Playback moved to another item. The mirror follows the slot the media
    /// id names, the previous duration is forgotten, the failure run ends only
    /// if it landed somewhere else, and the answer is the window ahead that
    /// still needs resolving, if any.
    pub fn on_transition(&mut self, media_id: &str) -> (r: Option<(usize, usize)>)
        requires
            old(self).wf(),
        ensures
            final(self).wf(),
            ({
                let len = old(self)@.tracks@.len();
                let q = slot_named(media_id@, len);
                let index = match q {
                    Some(s) => s,
                    None => old(self)@.index,
                };
                let target = if len == 0 {
                    0
                } else if index + WINDOW_AHEAD < len - 1 {
                    index + WINDOW_AHEAD
                } else {
                    len - 1
                };
                let from = if old(self)@.resolved_upto + 1 > index + 1 {
                    old(self)@.resolved_upto + 1
                } else {
                    index + 1
                };
                let landed = match q {
                    Some(s) => decimal_nat(s as nat),
                    None => Seq::<char>::empty(),
                };
                &&& final(self)@.index == index
                &&& final(self)@.duration_ms == 0
                &&& (q matches Some(s) ==> final(self)@.cur_index == s && final(self)@.index_dirty)
                &&& (q is None ==> final(self)@.cur_index == old(self)@.cur_index
                    && final(self)@.index_dirty == old(self)@.index_dirty)
                &&& if old(self)@.err_media@ != landed {
                    final(self)@.err_media@ == Seq::<char>::empty() && final(self)@.err_count == 0
                } else {
                    final(self)@.err_media == old(self)@.err_media && final(self)@.err_count == old(self)@.err_count
                }
                &&& r == if target >= from {
                    Some((from as usize, target as usize))
                } else {
                    None
                }
            }),
            final(self)@ == (ExoStateV {
                index: final(self)@.index,
                duration_ms: 0,
                cur_index: final(self)@.cur_index,
                index_dirty: final(self)@.index_dirty,
                err_media: final(self)@.err_media,
                err_count: final(self)@.err_count,
                ..old(self)@
            }),
    {
        self.duration_ms = 0;
        let len = self.tracks.len();
        let q = parse_slot(media_id, len);
        if let Some(s) = q {
            self.index = s;
        }
        let target = if len == 0 {
            0
        } else if self.index + WINDOW_AHEAD < len - 1 {
            self.index + WINDOW_AHEAD
        } else {
            len - 1
        };
        let from = if self.resolved_upto + 1 > self.index + 1 {
            self.resolved_upto + 1
        } else {
            self.index + 1
        };
        if let Some(s) = q {
            self.publish_index(s);
        }
        let landed = match q {
            Some(s) => u64_to_string(s as u64),
            None => String::new(),
        };
        if !crate::text::str_eq(self.err_media.as_str(), landed.as_str()) {
            self.err_media = String::new();
            self.err_count = 0;
        }
        if target >= from {
            Some((from, target))
        } else {
            None
        }
    }

    /// A position tick. Playing, position (when known) and duration (when
    /// known) are taken in. When the last queued track is within the lead of
    /// its end and autoradio is on, the answer is the queue tail to prefetch a
    /// continuation for: once per tail, and never while one is in flight.
    pub fn on_state(&mut self, playing: bool, position_ms: i64, duration_ms: i64) -> (r: Option<
        String,
    >)
        requires
            old(self).wf(),
        ensures
            final(self).wf(),
            final(self)@.playing == playing,
            final(self)@.position_ms == if position_ms >= 0 {
                position_ms
            } else {
                old(self)@.position_ms
            },
            final(self)@.duration_ms == if duration_ms > 0 {
                duration_ms
            } else {
                old(self)@.duration_ms
            },
            ({
                let due = old(self)@.autoradio_on && duration_ms > 0 && duration_ms - position_ms
                    <= AUTORADIO_PREFETCH_LEAD_MS && !old(self)@.prefetch_inflight
                    && old(self)@.tracks@.len() > 0 && old(self)@.index + 1 >= old(self)@.tracks@.len() && old(self)@.prefetch_attempted.deep_view() != Some(
                    tail_key(old(self)@.tracks@),
                );
                match r {
                    Some(key) => due && key@ == tail_key(old(self)@.tracks@) && final(self)@.prefetch_attempted == Some(key) && final(self)@.prefetch_inflight,
                    None => !due && final(self)@.prefetch_attempted == old(self)@.prefetch_attempted
                        && final(self)@.prefetch_inflight == old(self)@.prefetch_inflight,
                }
            }),
            final(self)@ == (ExoStateV {
                playing,
                position_ms: final(self)@.position_ms,
                duration_ms: final(self)@.duration_ms,
                prefetch_attempted: final(self)@.prefetch_attempted,
                prefetch_inflight: final(self)@.prefetch_inflight,
                ..old(self)@
            }),
    {
        self.playing = playing;
        if position_ms >= 0 {
            self.position_ms = position_ms;
        }
        if duration_ms > 0 {
            self.duration_ms = duration_ms;
        }
        if !self.autoradio_on || duration_ms <= 0 {
            return None;
        }
        let remaining: i128 = duration_ms as i128 - position_ms as i128;
        if remaining > AUTORADIO_PREFETCH_LEAD_MS as i128 || self.prefetch_inflight {
            return None;
        }
        if self.tracks.len() == 0 || self.index + 1 < self.tracks.len() {
            return None;
        }
        let key = radio_seed_key(&self.tracks);
        let seen = match &self.prefetch_attempted {
            Some(k) => crate::text::str_eq(k.as_str(), key.as_str()),
            None => false,
        };
        if seen {
            return None;
        }
        self.prefetch_attempted = Some(key.clone());
        self.prefetch_inflight = true;
        Some(key)
    }

    /// A prefetch finished, found something or not.
    pub fn prefetch_done(&mut self)
        ensures
            final(self)@ == (ExoStateV { prefetch_inflight: false, ..old(self)@ }),
    {
        self.prefetch_inflight = false;
    }

    /// ExoPlayer ran out of items. Whether that is the queue's end is read
    /// from real state: while slots past the resolved mark remain, the window
    /// was still filling; while tracks remain past the current one, playback
    /// recovers from the next; only then is it the end.
    pub fn on_ended(&mut self) -> (r: EndedStep)
        requires
            old(self).wf(),
        ensures
            final(self).wf(),
            old(self)@.resolved_upto + 1 < old(self)@.tracks@.len() ==> r == EndedStep::Refill
                && *final(self) == *old(self),
            !(old(self)@.resolved_upto + 1 < old(self)@.tracks@.len()) && old(self)@.index + 1 < old(self)@.tracks@.len() ==> r == EndedStep::Advance && final(self)@ == (ExoStateV {
                index: (old(self)@.index + 1) as usize,
                ..old(self)@
            }),
            !(old(self)@.resolved_upto + 1 < old(self)@.tracks@.len()) && !(old(self)@.index + 1 < old(self)@.tracks@.len()) ==> if old(self)@.autoradio_on {
                r == EndedStep::TryAutoradio && *final(self) == *old(self)
            } else {
                r == EndedStep::Finished && final(self)@ == (ExoStateV {
                    playing: false,
                    ended_dirty: true,
                    ..old(self)@
                })
            },
    {
        if self.resolved_upto + 1 < self.tracks.len() {
            return EndedStep::Refill;
        }
        if self.index + 1 < self.tracks.len() {
            self.index = self.index + 1;
            return EndedStep::Advance;
        }
        if self.autoradio_on {
            return EndedStep::TryAutoradio;
        }
        self.queue_finished();
        EndedStep::Finished
    }

    /// The queue is over for good: nothing plays, and the driver hears once.
    pub fn queue_finished(&mut self)
        ensures
            final(self)@ == (ExoStateV { playing: false, ended_dirty: true, ..old(self)@ }),
    {
        self.playing = false;
        self.ended_dirty = true;
    }

    /// An item failed to play. The first failure of an item re-resolves it
    /// (a stale URL usually plays fine once fetched again); a second failure
    /// in a row skips it, or ends the queue when it was the last track.
    pub fn on_error(&mut self, media_id: &str) -> (r: ErrorStep)
        requires
            old(self).wf(),
        ensures
            final(self).wf(),
            final(self)@.err_media@ == media_id@,
            final(self)@.err_count >= 1,
            final(self)@.err_count == if old(self)@.err_media@ == media_id@ {
                if old(self)@.err_count < u32::MAX {
                    (old(self)@.err_count + 1) as u32
                } else {
                    old(self)@.err_count
                }
            } else {
                1
            },
            old(self)@.err_media@ == media_id@ && old(self)@.err_count >= 1 ==> !(r is Reresolve),
            ({
                let len = old(self)@.tracks@.len();
                let idx = match slot_named(media_id@, len) {
                    Some(s) => s as int,
                    None => old(self)@.index as int,
                };
                match r {
                    ErrorStep::Reresolve { slot, position_ms } => final(self)@.err_count <= 1
                        && slot == slot_named(media_id@, len) && position_ms == old(self)@.position_ms && final(self)@.index == old(self)@.index && final(self)@.playing
                        == old(self)@.playing && final(self)@.ended_dirty == old(self)@.ended_dirty,
                    ErrorStep::Skip => final(self)@.err_count > 1 && idx + 1 < len && final(self)@.index == idx + 1 && final(self)@.playing == old(self)@.playing && final(self)@.ended_dirty == old(self)@.ended_dirty,
                    ErrorStep::Finished => final(self)@.err_count > 1 && !(idx + 1 < len) && final(self)@.index == old(self)@.index && !final(self)@.playing && final(self)@.ended_dirty,
                }
            }),
            final(self)@ == (ExoStateV {
                err_media: final(self)@.err_media,
                err_count: final(self)@.err_count,
                index: final(self)@.index,
                playing: final(self)@.playing,
                ended_dirty: final(self)@.ended_dirty,
                ..old(self)@
            }),
    {
        if crate::text::str_eq(self.err_media.as_str(), media_id) {
            if self.err_count < u32::MAX {
                self.err_count = self.err_count + 1;
            }
        } else {
            self.err_media = owned(media_id);
            self.err_count = 1;
        }
        let len = self.tracks.len();
        let slot = parse_slot(media_id, len);
        if self.err_count <= 1 {
            return ErrorStep::Reresolve { slot, position_ms: self.position_ms };
        }
        let idx = match slot {
            Some(s) => s,
            None => self.index,
        };
        if idx + 1 < len {
            self.index = idx + 1;
            ErrorStep::Skip
        } else {
            self.queue_finished();
            ErrorStep::Finished
        }
    }
}

// ---------------------------------------------------------------- track paths

/// The YouTube video id of a `ytmusic:<id>:...` path: the segment after the
/// scheme, if not empty.
pub open spec fn video_id_of(path: Seq<char>) -> Option<Seq<char>> {
    if has_prefix_spec(path, "ytmusic:"@) {
        let id = crate::text::before_char(path.skip(8), ':');
        if id.len() > 0 {
            Some(id)
        } else {
            None
        }
    } else {
        None
    }
}

pub open spec fn has_prefix_spec(s: Seq<char>, p: Seq<char>) -> bool {
    crate::text::has_prefix(s, p)
}

/// The video id of a YouTube Music track, by its path.
pub fn video_id(path: &str) -> (r: Option<String>)
    ensures
        r.deep_view() == video_id_of(path@),
{
    if !starts_with(path, "ytmusic:") {
        return None;
    }
    proof {
        reveal_strlit("ytmusic:");
    }
    let cs = chars_of(path);
    let rest = crate::text::chars_from(cs.as_slice(), 8);
    let id = crate::text::before_first(rest.as_slice(), ':');
    if id.len() == 0 {
        None
    } else {
        Some(string_of(id.as_slice()))
    }
}

/// The key a track's downloaded copy is filed under: the first segment after
/// the scheme, for both `ytmusic:<vid>:...` and `soundcloud:<hex>`.
pub open spec fn offline_key_of(path: Seq<char>) -> Option<Seq<char>> {
    if path.contains(':') {
        let rest = path.skip(crate::text::before_char(path, ':').len() + 1 as int);
        let id = crate::text::before_char(rest, ':');
        if id.len() > 0 {
            Some(id)
        } else {
            None
        }
    } else {
        None
    }
}

pub fn offline_key(path: &str) -> (r: Option<String>)
    ensures
        r.deep_view() == offline_key_of(path@),
{
    let cs = chars_of(path);
    if !crate::text::chars_contain(cs.as_slice(), ':') {
        return None;
    }
    let scheme = crate::text::before_first(cs.as_slice(), ':');
    proof {
        crate::text::lemma_before_char_len(cs@, ':');
    }
    let total = cs.len();
    assert(scheme@.len() < total);
    let rest = crate::text::chars_from(cs.as_slice(), scheme.len() + 1);
    let id = crate::text::before_first(rest.as_slice(), ':');
    if id.len() == 0 {
        None
    } else {
        Some(string_of(id.as_slice()))
    }
}

/// The downloaded copy registered for a track, by its path: the last
/// registration under its offline key.
pub open spec fn offline_copy_of(path: Seq<char>, offline: Seq<(Seq<char>, Seq<char>)>) -> Option<Seq<char>> {
    match offline_key_of(path) {
        Some(k) => if crate::config_service::offline_map(offline).dom().contains(k) {
            Some(crate::config_service::offline_map(offline)[k])
        } else {
            None
        },
        None => None,
    }
}

/// Where the registered downloaded copy of a track is, if it has one.
pub fn offline_copy(path: &str, offline: &Vec<OfflineTrack>) -> (r: Option<String>)
    ensures
        r.deep_view() == offline_copy_of(path@, offline.deep_view()),
{
    let key = match offline_key(path) {
        Some(k) => k,
        None => return None,
    };
    let ghost all = offline.deep_view();
    let mut found: Option<String> = None;
    let mut i: usize = 0;
    while i < offline.len()
        invariant
            i <= offline.len(),
            all == offline.deep_view(),
            match found {
                Some(p) => crate::config_service::offline_map(all.take(i as int)).dom().contains(key@)
                    && crate::config_service::offline_map(all.take(i as int))[key@] == p@,
                None => !crate::config_service::offline_map(all.take(i as int)).dom().contains(key@),
            },
        decreases offline.len() - i,
    {
        assert(all.take(i + 1).drop_last() =~= all.take(i as int));
        assert(all[i as int] == offline[i as int].deep_view());
        if crate::text::str_eq(offline[i].item_id.as_str(), key.as_str()) {
            found = Some(offline[i].path.clone());
        }
        i += 1;
    }
    assert(all.take(offline.len() as int) =~= all);
    found
}

/// Where a queued track is played from.
#[derive(Debug, Clone, PartialEq, Eq)]
pub enum ItemSource {
    /// A file on this device, as a `file://` URL's path.
    File(String),
    /// A YouTube video, by id, to resolve to a stream.
    YouTube(String),
    /// A SoundCloud track, by its path, to resolve natively.
    SoundCloud(String),
    /// Nothing plays it.
    Unplayable,
}

/// A downloaded copy wins over streaming, as it needs no network and keeps
/// resolving in the background; then a YouTube video; then SoundCloud; then
/// the path itself where it is a file. `downloaded` is the registered copy,
/// where that file exists, and `path_is_file` whether the path is one.
pub fn item_source(path: &str, downloaded: Option<&str>, path_is_file: bool) -> (r: ItemSource)
    ensures
        match (r, downloaded, video_id_of(path@)) {
            (ItemSource::File(f), Some(d), _) => f@ == d@,
            (ItemSource::YouTube(v), None, Some(w)) => v@ == w,
            (ItemSource::SoundCloud(p), None, None) => p@ == path@ && has_prefix_spec(path@, "soundcloud:"@),
            (ItemSource::File(f), None, None) => f@ == path@ && !has_prefix_spec(path@, "soundcloud:"@) && path_is_file,
            (ItemSource::Unplayable, None, None) => !has_prefix_spec(path@, "soundcloud:"@) && !path_is_file,
            _ => false,
        },
{
    match downloaded {
        Some(d) => ItemSource::File(owned(d)),
        None => match video_id(path) {
            Some(v) => ItemSource::YouTube(v),
            None => if starts_with(path, "soundcloud:") {
                ItemSource::SoundCloud(owned(path))
            } else if path_is_file {
                ItemSource::File(owned(path))
            } else {
                ItemSource::Unplayable
            },
        },
    }
}

/// A track change, a finished queue and a queue the engine seeded itself
/// are each reported to exactly one read: a second read with nothing written
/// in between reports none of them, and the same playback position.
pub proof fn each_change_is_reported_once(s: ExoState)
    ensures
        ({
            let u1 = ExoState::ui_update_of(s);
            let u2 = ExoState::ui_update_of(ExoState::after_take(s));
            &&& u2.current_index is None
            &&& !u2.ended
            &&& u2.new_queue is None
            &&& u2.playing == u1.playing
            &&& u2.position_ms == u1.position_ms
            &&& u2.duration_ms == u1.duration_ms
        }),
{
}

} // verus!
