//! What a frontend still decides for itself: which way a heart turns, which
//! tracks a bulk heart touches, what the source indicator shows, what the
//! add-a-server form keeps and offers, whether a lyrics answer is still
//! wanted, how a device-code sign-in paces itself, where a playlist row
//! moves, and which device a picker marks.

use vstd::prelude::*;
use crate::error::ErrorCode;
use crate::schema::{answer_of, FieldKind, FieldSpec, FieldValue, FieldValueV};
use crate::sources::{DraftCheck, SignInKind};
use crate::library::texts;
use crate::sources::{ServiceInfo, SourceInfo, SourceKind};
use crate::spotify::ExternalDevice;
use crate::text::{is_blank, str_eq, trimmed};

verus! {

// ---------------------------------------------------------------- favorites

fn listed(refs: &Vec<String>, key: &str) -> (r: bool)
    ensures
        r == texts(refs@).contains(key@),
{
    let ghost rv = texts(refs@);
    let mut i: usize = 0;
    while i < refs.len()
        invariant
            i <= refs@.len(),
            rv == texts(refs@),
            forall|m: int| 0 <= m < i ==> #[trigger] refs@[m]@ != key@,
        decreases refs.len() - i,
    {
        if str_eq(refs[i].as_str(), key) {
            proof {
                assert(rv[i as int] == key@);
            }
            return true;
        }
        i += 1;
    }
    proof {
        assert forall|m: int| 0 <= m < rv.len() implies #[trigger] rv[m] != key@ by {
            assert(rv[m] == refs@[m]@);
        }
    }
    false
}

/// The state one heart sets a track to: the opposite of what it is now.
/// A blank key touches nothing.
pub fn toggle_target(key: &str, current: &Vec<String>) -> (r: Option<bool>)
    ensures
        r == (if trimmed(key@).len() == 0 {
            None
        } else {
            Some(!texts(current@).contains(key@))
        }),
{
    if is_blank(key) {
        None
    } else {
        Some(!listed(current, key))
    }
}

/// The keys a bulk heart has to change, in order: those not already in the
/// target state. Pushing the others again would at best waste requests and
/// at worst revert a correct state on a rejection.
pub open spec fn to_change(keys: Seq<Seq<char>>, current: Seq<Seq<char>>, on: bool) -> Seq<Seq<char>>
    decreases keys.len(),
{
    if keys.len() == 0 {
        Seq::empty()
    } else {
        let before = to_change(keys.drop_last(), current, on);
        if current.contains(keys.last()) == on {
            before
        } else {
            before.push(keys.last())
        }
    }
}

pub fn favorites_to_change(keys: &Vec<String>, current: &Vec<String>, on: bool) -> (r: Vec<String>)
    ensures
        texts(r@) == to_change(texts(keys@), texts(current@), on),
{
    let ghost kv = texts(keys@);
    let mut out: Vec<String> = Vec::new();
    let mut i: usize = 0;
    while i < keys.len()
        invariant
            i <= keys@.len(),
            kv == texts(keys@),
            texts(out@) == to_change(kv.take(i as int), texts(current@), on),
        decreases keys.len() - i,
    {
        proof {
            assert(kv.take(i + 1).drop_last() =~= kv.take(i as int));
            assert(kv.take(i + 1).last() == keys@[i as int]@);
        }
        if listed(current, keys[i].as_str()) != on {
            let ghost before = out@;
            out.push(keys[i].clone());
            proof {
                assert(texts(out@) =~= texts(before).push(keys@[i as int]@));
            }
        }
        i += 1;
    }
    proof {
        assert(kv.take(keys@.len() as int) =~= kv);
    }
    out
}

// ---------------------------------------------------------------- the source indicator

/// Live connection status of the active source.
#[derive(Debug, Clone, Copy, PartialEq, Eq, Structural)]
pub enum ConnStatus {
    /// Verifying sign-in or reaching the server.
    Connecting,
    /// Verified and reachable.
    Online,
    /// Unreachable, or its sign-in expired.
    Offline,
}

/// What the indicator shows: a local library is always online; a server is
/// connecting until the daemon's probe answers, then online exactly when the
/// probe says so.
pub fn connection_status(kind: SourceKind, probe: Option<bool>) -> (r: ConnStatus)
    ensures
        r == (if kind != SourceKind::Server {
            ConnStatus::Online
        } else {
            match probe {
                None => ConnStatus::Connecting,
                Some(true) => ConnStatus::Online,
                Some(false) => ConnStatus::Offline,
            }
        }),
{
    match kind {
        SourceKind::Server => match probe {
            None => ConnStatus::Connecting,
            Some(true) => ConnStatus::Online,
            Some(false) => ConnStatus::Offline,
        },
        _ => ConnStatus::Online,
    }
}

/// The source to ask for devices: the active one, where it plays devices
/// of its own and is signed in.
pub fn device_source(active: Option<&SourceInfo>) -> (r: Option<String>)
    ensures
        match active {
            Some(s) => if s.capabilities.external_devices && s.authenticated {
                r matches Some(id) && id@ == s.id@
            } else {
                r is None
            },
            None => r is None,
        },
{
    match active {
        Some(s) => if s.capabilities.external_devices && s.authenticated {
            Some(s.id.clone())
        } else {
            None
        },
        None => None,
    }
}

// ---------------------------------------------------------------- the add-a-server form

/// The service the form shows: the one picked, else the first offered.
pub fn chosen_service(services: &Vec<ServiceInfo>, picked: &str) -> (r: Option<usize>)
    ensures
        match r {
            Some(i) => i < services@.len() && ((services@[i as int].id@ == picked@ && forall|j: int|
                0 <= j < i ==> #[trigger] services@[j].id@ != picked@) || (i == 0 && forall|j: int|
                0 <= j < services@.len() ==> #[trigger] services@[j].id@ != picked@)),
            None => services@.len() == 0,
        },
{
    let mut i: usize = 0;
    while i < services.len()
        invariant
            i <= services@.len(),
            forall|j: int| 0 <= j < i ==> #[trigger] services@[j].id@ != picked@,
        decreases services.len() - i,
    {
        if str_eq(services[i].id.as_str(), picked) {
            return Some(i);
        }
        i += 1;
    }
    if services.len() > 0 {
        Some(0)
    } else {
        None
    }
}

/// Whether saving is blocked: a service whose sign-in is a browser cannot
/// be saved by a daemon that may not open one.
pub fn save_blocked(check: Option<&DraftCheck>, host_access: bool) -> (r: bool)
    ensures
        r == (match check {
            Some(c) => c.sign_in == SignInKind::Browser,
            None => false,
        } && !host_access),
{
    let needs_browser = match check {
        Some(c) => match c.sign_in {
            SignInKind::Browser => true,
            _ => false,
        },
        None => false,
    };
    needs_browser && !host_access
}

/// Whether an answer is for one of the form's secret fields, which are held
/// apart and never shown again.
pub fn is_secret_answer(fields: &Vec<FieldSpec>, key: &str) -> (r: bool)
    ensures
        r == exists|i: int|
            0 <= i < fields@.len() && #[trigger] fields@[i].key@ == key@ && fields@[i].kind
                == FieldKind::Secret,
{
    let mut i: usize = 0;
    while i < fields.len()
        invariant
            i <= fields@.len(),
            forall|j: int|
                0 <= j < i ==> !(#[trigger] fields@[j].key@ == key@ && fields@[j].kind
                    == FieldKind::Secret),
        decreases fields.len() - i,
    {
        let secret = match fields[i].kind {
            FieldKind::Secret => true,
            _ => false,
        };
        if secret && str_eq(fields[i].key.as_str(), key) {
            return true;
        }
        i += 1;
    }
    false
}

/// The first answer under a key, or -1.
pub open spec fn first_answer(values: Seq<FieldValueV>, key: Seq<char>) -> int
    decreases values.len(),
{
    if values.len() == 0 {
        -1
    } else if values[0].key == key {
        0
    } else if first_answer(values.drop_first(), key) < 0 {
        -1
    } else {
        first_answer(values.drop_first(), key) + 1
    }
}

/// The answers after one more: it replaces the first answer under its key,
/// or is added after the others.
pub open spec fn answered(values: Seq<FieldValueV>, answer: FieldValueV) -> Seq<FieldValueV> {
    let i = first_answer(values, answer.key);
    if i >= 0 {
        values.update(i, answer)
    } else {
        values.push(answer)
    }
}

proof fn lemma_first_answer(values: Seq<FieldValueV>, key: Seq<char>)
    ensures
        -1 <= first_answer(values, key) < values.len(),
        first_answer(values, key) >= 0 ==> values[first_answer(values, key)].key == key,
        forall|j: int| 0 <= j < values.len() && (first_answer(values, key) < 0 || j < first_answer(values, key))
            ==> #[trigger] values[j].key != key,
        answer_of(values, key) == (if first_answer(values, key) >= 0 {
            Some(values[first_answer(values, key)].value)
        } else {
            None
        }),
    decreases values.len(),
{
    if values.len() > 0 && values[0].key != key {
        let rest = values.drop_first();
        lemma_first_answer(rest, key);
        assert forall|j: int| 0 <= j < values.len() && (first_answer(values, key) < 0 || j < first_answer(values, key))
            implies #[trigger] values[j].key != key by {
            if j > 0 {
                assert(values[j] == rest[j - 1]);
            }
        }
        if first_answer(rest, key) >= 0 {
            assert(values[first_answer(values, key)] == rest[first_answer(rest, key)]);
        }
    }
}

proof fn lemma_answer_same_keys(a: Seq<FieldValueV>, b: Seq<FieldValueV>, key: Seq<char>)
    requires
        a.len() == b.len(),
        forall|j: int| 0 <= j < a.len() ==> #[trigger] a[j].key == b[j].key,
        forall|j: int| 0 <= j < a.len() && a[j].key == key ==> #[trigger] a[j].value == b[j].value,
    ensures
        answer_of(a, key) == answer_of(b, key),
    decreases a.len(),
{
    if a.len() > 0 {
        let (ra, rb) = (a.drop_first(), b.drop_first());
        assert forall|j: int| 0 <= j < ra.len() implies #[trigger] ra[j].key == rb[j].key by {
            assert(ra[j] == a[j + 1] && rb[j] == b[j + 1]);
        }
        assert forall|j: int| 0 <= j < ra.len() && ra[j].key == key implies #[trigger] ra[j].value
            == rb[j].value by {
            assert(ra[j] == a[j + 1] && rb[j] == b[j + 1]);
        }
        lemma_answer_same_keys(ra, rb, key);
    }
}

proof fn lemma_answer_push(values: Seq<FieldValueV>, a: FieldValueV, key: Seq<char>)
    ensures
        answer_of(values.push(a), key) == (match answer_of(values, key) {
            Some(v) => Some(v),
            None => if a.key == key {
                Some(a.value)
            } else {
                None
            },
        }),
    decreases values.len(),
{
    let pushed = values.push(a);
    if values.len() == 0 {
        assert(pushed[0] == a);
        assert(pushed.drop_first().len() == 0);
    } else {
        assert(pushed[0] == values[0]);
        assert(pushed.drop_first() =~= values.drop_first().push(a));
        lemma_answer_push(values.drop_first(), a, key);
    }
}

/// What a read of the answers gives back after one more: that answer under
/// its key, and under every other key what was there before.
pub proof fn an_answer_reads_back(values: Seq<FieldValueV>, answer: FieldValueV, key: Seq<char>)
    ensures
        answer_of(answered(values, answer), key) == (if key == answer.key {
            Some(answer.value)
        } else {
            answer_of(values, key)
        }),
{
    let i = first_answer(values, answer.key);
    lemma_first_answer(values, answer.key);
    if i >= 0 {
        let after = values.update(i, answer);
        if key == answer.key {
            lemma_first_answer(after, key);
            let f = first_answer(after, key);
            assert(after[i].key == key);
            if f >= 0 && f < i {
                assert(after[f] == values[f]);
                assert(values[f].key != key);
            }
            assert(f == i);
        } else {
            lemma_answer_same_keys(values, after, key);
        }
    } else {
        lemma_answer_push(values, answer, key);
        if key == answer.key {
            lemma_first_answer(values, key);
        }
    }
}

/// Record one answer: it replaces the first answer under its key, or is
/// added after the others.
pub fn record_answer(held: &mut Vec<FieldValue>, answer: FieldValue)
    ensures
        final(held).deep_view() == answered(old(held).deep_view(), answer.deep_view()),
{
    let ghost before = held.deep_view();
    let ghost key = answer.key@;
    proof {
        lemma_first_answer(before, key);
    }
    let mut i: usize = 0;
    while i < held.len()
        invariant
            i <= held.len(),
            before == held.deep_view(),
            before == old(held).deep_view(),
            forall|j: int| 0 <= j < i ==> #[trigger] before[j].key != key,
            key == answer.key@,
            -1 <= first_answer(before, key) < before.len(),
            first_answer(before, key) >= 0 ==> before[first_answer(before, key)].key == key,
            forall|j: int| 0 <= j < before.len() && (first_answer(before, key) < 0 || j < first_answer(before, key))
                ==> #[trigger] before[j].key != key,
        decreases held.len() - i,
    {
        assert(before[i as int] == held[i as int].deep_view());
        if str_eq(held[i].key.as_str(), answer.key.as_str()) {
            proof {
                let f = first_answer(before, key);
                assert(before[i as int].key == key);
                if f >= 0 && f < i {
                    assert(before[f].key != key);
                }
                assert(f == i);
            }
            let ghost a = answer.deep_view();
            held.set(i, answer);
            assert(held.deep_view() =~= before.update(i as int, a));
            return;
        }
        i += 1;
    }
    proof {
        let f = first_answer(before, key);
        if f >= 0 {
            assert(before[f].key != key);
        }
    }
    held.push(answer);
    assert(held.deep_view() =~= before.push(answer.deep_view()));
}

// ---------------------------------------------------------------- lyrics

/// Whether to ask the daemon for lyrics at all: not for an empty key, and
/// not for a radio stream, whose station names only ever match junk.
pub fn lyrics_wanted(key: &str, radio: bool) -> (r: bool)
    ensures
        r == (key@.len() > 0 && !radio),
{
    !key.is_empty() && !radio
}

/// An answer is taken only while its own key is still the one playing; a
/// lookup that found nothing shows the caller's "not found" text.
pub fn lyrics_answer<T>(asked: &str, playing: &str, found: Option<T>, not_found: T) -> (r: Option<T>)
    ensures
        r == (if asked@ == playing@ {
            Some(
                match found {
                    Some(l) => l,
                    None => not_found,
                },
            )
        } else {
            None
        }),
{
    if !str_eq(asked, playing) {
        return None;
    }
    match found {
        Some(l) => Some(l),
        None => Some(not_found),
    }
}

// ---------------------------------------------------------------- the event stream

/// How one attachment to the daemon's event stream ended.
#[derive(Debug, Clone, Copy, PartialEq, Eq, Structural)]
pub enum StreamEnd {
    /// The stream closed, or the consumer went away while it ran.
    Closed,
    /// It failed with this code.
    Failed(ErrorCode),
}

/// What the event loop does after an attachment ends.
#[derive(Debug, Clone, Copy, PartialEq, Eq, Structural)]
pub enum StreamStep {
    Stop,
    /// Attach again, telling the consumer to resync first: the daemon
    /// restarted, so its mirror is stale in ways no cursor could reconcile.
    Reattach,
}

/// A closed stream ends the loop; so does a daemon that is gone, as there is
/// nothing to reattach to; so does a consumer that stopped listening. Any
/// other failure reattaches.
pub fn after_stream(end: StreamEnd, consumer_gone: bool) -> (r: StreamStep)
    ensures
        r == (match end {
            StreamEnd::Closed => StreamStep::Stop,
            StreamEnd::Failed(code) => if code == ErrorCode::DaemonGone || consumer_gone {
                StreamStep::Stop
            } else {
                StreamStep::Reattach
            },
        }),
{
    match end {
        StreamEnd::Closed => StreamStep::Stop,
        StreamEnd::Failed(ErrorCode::DaemonGone) => StreamStep::Stop,
        StreamEnd::Failed(_) => if consumer_gone {
            StreamStep::Stop
        } else {
            StreamStep::Reattach
        },
    }
}

// ---------------------------------------------------------------- device-code sign-in

/// What one poll of a device-code sign-in answered.
#[derive(Debug, Clone, Copy, PartialEq, Eq, Structural)]
pub enum PollAnswer {
    Pending,
    SlowDown,
    Authorized,
    Failed,
}

/// What the sign-in does after a poll.
#[derive(Debug, Clone, Copy, PartialEq, Eq, Structural)]
pub enum PollStep {
    /// Sleep the interval and poll again.
    Again,
    /// Signed in.
    Done,
    /// The provider refused: stop and show why.
    Stop,
}

/// The pacing of a device-code sign-in: how long to sleep between polls,
/// how long the code lives, and how long has been waited.
pub struct DevicePoll {
    pub interval: u64,
    pub deadline: u64,
    pub waited: u64,
}

impl DevicePoll {
    /// Poll no faster than every two seconds, and give the person at least
    /// five minutes, whatever the provider says.
    pub fn new(interval: u64, expires_in: u64) -> (r: DevicePoll)
        ensures
            r.interval == (if interval >= 2 {
                interval
            } else {
                2
            }),
            r.deadline == (if expires_in >= 300 {
                expires_in
            } else {
                300
            }),
            r.waited == 0,
    {
        DevicePoll {
            interval: if interval >= 2 {
                interval
            } else {
                2
            },
            deadline: if expires_in >= 300 {
                expires_in
            } else {
                300
            },
            waited: 0,
        }
    }

    /// Count a sleep; whether the code has now expired.
    pub fn slept(&mut self) -> (expired: bool)
        requires
            old(self).waited + old(self).interval <= u64::MAX,
        ensures
            final(self).waited == old(self).waited + old(self).interval,
            final(self).interval == old(self).interval,
            final(self).deadline == old(self).deadline,
            expired == (final(self).waited > final(self).deadline),
    {
        self.waited = self.waited + self.interval;
        self.waited > self.deadline
    }

    /// Act on a poll's answer: a provider asking to slow down gets five more
    /// seconds between polls.
    pub fn answered(&mut self, answer: PollAnswer) -> (r: PollStep)
        requires
            answer == PollAnswer::SlowDown ==> old(self).interval + 5 <= u64::MAX,
        ensures
            final(self).waited == old(self).waited,
            final(self).deadline == old(self).deadline,
            final(self).interval == (if answer == PollAnswer::SlowDown {
                old(self).interval + 5
            } else {
                old(self).interval as int
            }),
            r == (match answer {
                PollAnswer::Pending => PollStep::Again,
                PollAnswer::SlowDown => PollStep::Again,
                PollAnswer::Authorized => PollStep::Done,
                PollAnswer::Failed => PollStep::Stop,
            }),
    {
        match answer {
            PollAnswer::Pending => PollStep::Again,
            PollAnswer::SlowDown => {
                self.interval = self.interval + 5;
                PollStep::Again
            },
            PollAnswer::Authorized => PollStep::Done,
            PollAnswer::Failed => PollStep::Stop,
        }
    }
}


/// Whether the sign-in button is live: nothing is under way, and both halves
/// of the user's own client are filled in.
pub fn oauth_ready(busy: bool, client_id: &str, client_secret: &str) -> (r: bool)
    ensures
        r == (!busy && trimmed(client_id@).len() > 0 && trimmed(client_secret@).len() > 0),
{
    !busy && !is_blank(client_id) && !is_blank(client_secret)
}

// ---------------------------------------------------------------- the YouTube Music sign-in method

/// How a YouTube Music source is signed in to.
#[derive(Debug, Clone, Copy, PartialEq, Eq, Structural)]
pub enum YtAuthMethod {
    /// A managed browser signs in once and keeps the session alive.
    BrowserSignin,
    /// The Cookie header of a signed-in tab, pasted or imported.
    PasteCookies,
    /// Google's device-code flow with the user's own client.
    OAuth,
    /// No sign-in: public tracks only.
    Anonymous,
}

impl YtAuthMethod {
    /// The managed-browser sign-in, which works on every desktop platform.
    pub fn default_for_platform() -> (r: YtAuthMethod)
        ensures
            r == YtAuthMethod::BrowserSignin,
    {
        YtAuthMethod::BrowserSignin
    }
}

/// The method a form shows for the one it holds: the OAuth method is offered
/// no more, so a form that held it falls back to pasting cookies.
pub fn shown_auth_method(held: YtAuthMethod) -> (r: YtAuthMethod)
    ensures
        r == (if held == YtAuthMethod::OAuth {
            YtAuthMethod::PasteCookies
        } else {
            held
        }),
{
    match held {
        YtAuthMethod::OAuth => YtAuthMethod::PasteCookies,
        other => other,
    }
}

/// The methods a form offers, in the order it lists them.
pub fn offered_auth_methods() -> (r: Vec<YtAuthMethod>)
    ensures
        r@ == seq![YtAuthMethod::BrowserSignin, YtAuthMethod::PasteCookies, YtAuthMethod::Anonymous],
{
    let mut r: Vec<YtAuthMethod> = Vec::new();
    r.push(YtAuthMethod::BrowserSignin);
    r.push(YtAuthMethod::PasteCookies);
    r.push(YtAuthMethod::Anonymous);
    r
}

// ---------------------------------------------------------------- a playlist's rows

/// Where a row moves when it is nudged up or down: `(from, to)`, or `None`
/// when the source cannot reorder or the row is already at that end.
pub fn reorder_target(idx: usize, count: usize, can: bool, up: bool) -> (r: Option<(usize, usize)>)
    ensures
        r == (if !can {
            None
        } else if up {
            if idx > 0 { Some((idx, (idx - 1) as usize)) } else { None }
        } else {
            if idx + 1 < count { Some((idx, (idx + 1) as usize)) } else { None }
        }),
{
    if !can {
        None
    } else if up {
        if idx > 0 { Some((idx, idx - 1)) } else { None }
    } else {
        if idx < count && count - idx > 1 { Some((idx, idx + 1)) } else { None }
    }
}

// ---------------------------------------------------------------- the device picker

/// The device a picker marks as chosen: the first one that is active, or
/// `None` when none is (this app plays).
pub fn selected_device(devices: &Vec<ExternalDevice>) -> (r: Option<usize>)
    ensures
        match r {
            Some(i) => i < devices@.len() && devices@[i as int].active
                && forall|j: int| 0 <= j < i ==> !#[trigger] devices@[j].active,
            None => forall|j: int| 0 <= j < devices@.len() ==> !#[trigger] devices@[j].active,
        },
{
    let mut i: usize = 0;
    while i < devices.len()
        invariant
            i <= devices@.len(),
            forall|j: int| 0 <= j < i ==> !#[trigger] devices@[j].active,
        decreases devices.len() - i,
    {
        if devices[i].active {
            return Some(i);
        }
        i += 1;
    }
    None
}

} // verus!
