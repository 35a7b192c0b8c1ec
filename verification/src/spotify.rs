//! Spotify as a playback sink: the decisions.
//!
//! Spotify does not hand out decodable audio, so it plays itself: in a browser
//! tab running the Web Playback SDK, or on a Connect device the account
//! already owns. It holds one track, and the queue decides what follows. The
//! tab, the Connect API and the clock are the caller's; what the sink keeps
//! and what it does on each request and report is here. Times are
//! milliseconds on a clock the caller reads.

use vstd::prelude::*;
use crate::error::{ApiError, ErrorCode};
use crate::schema::{Icon, IconV};
use crate::text::{concat2, owned, push_deep, str_eq};

verus! {

/// How often a selected Connect device is asked what it is doing.
pub const CONNECT_POLL_MS: u64 = 1500;

/// A refused token is refreshed at most this often.
pub const REFRESH_BACKOFF_MS: u64 = 60_000;

/// The SDK keeps reporting the outgoing track for a beat after a skip; a
/// report older than this is no longer held back.
pub const COMMAND_GRACE_MS: u64 = 3000;

/// What the sink keeps between requests.
pub struct SinkState {
    /// A playback tab is up.
    pub host: bool,
    /// A playback tab is being started.
    pub starting: bool,
    /// The tab has had its play gesture; before that the SDK refuses to start.
    pub activated: bool,
    /// The SDK's own Connect device, once it registers.
    pub device: Option<String>,
    /// A Connect device the user picked instead of this app's.
    pub selected: Option<String>,
    /// Whether the user has picked at all, which suppresses adoption.
    pub chosen: bool,
    /// A track asked for before the tab could take it.
    pub pending_uri: Option<String>,
    /// What was last asked for, and when, so a stale report can be ignored.
    pub commanded: Option<(String, u64)>,
    /// What the sink believes is playing, to make a repeated load a no-op.
    pub playing_key: Option<String>,
    /// When the token was last refreshed.
    pub last_refresh: Option<u64>,
}

impl SinkState {
    pub fn new() -> (r: SinkState)
        ensures
            !r.host && !r.starting && !r.activated && !r.chosen,
            r.device is None && r.selected is None && r.pending_uri is None,
            r.commanded is None && r.playing_key is None && r.last_refresh is None,
    {
        SinkState {
            host: false,
            starting: false,
            activated: false,
            device: None,
            selected: None,
            chosen: false,
            pending_uri: None,
            commanded: None,
            playing_key: None,
            last_refresh: None,
        }
    }

    /// Route playback to a Connect device, or back to this app's own with
    /// `None`. The pick is remembered, which stops adoption. Answers the
    /// device to transfer to, if there is one, and whether a Connect device
    /// must now be followed.
    pub fn select_device(&mut self, device_id: Option<String>) -> (r: (Option<String>, bool))
        ensures
            final(self).chosen,
            final(self).selected == device_id,
            r.0 == match device_id {
                Some(d) => Some(d),
                None => old(self).device,
            },
            r.1 == device_id is Some,
            *final(self) == (SinkState { chosen: true, selected: device_id, ..*old(self) }),
    {
        self.chosen = true;
        let follow = device_id.is_some();
        let target = match &device_id {
            Some(d) => Some(d.clone()),
            None => match &self.device {
                Some(d) => Some(d.clone()),
                None => None,
            },
        };
        self.selected = device_id;
        (target, follow)
    }

    /// A Connect device is playing on its own. It is adopted when the setting
    /// asks for that and the user has not picked a device; answers whether it
    /// was.
    pub fn adopt(&mut self, device_id: String, prefer_active_device: bool) -> (r: bool)
        ensures
            r == (prefer_active_device && !old(self).chosen && old(self).selected is None),
            *final(self) == if r {
                SinkState { selected: Some(device_id), ..*old(self) }
            } else {
                *old(self)
            },
    {
        let adopt = prefer_active_device && !self.chosen && self.selected.is_none();
        if adopt {
            self.selected = Some(device_id);
        }
        adopt
    }

    /// Whether discovery still looks for a device playing on its own.
    pub fn looking(&self) -> (r: bool)
        ensures
            r == (!self.chosen && self.selected is None),
    {
        !self.chosen && self.selected.is_none()
    }

    /// Start the playback tab, once: answers whether this call should.
    pub fn begin_host(&mut self) -> (r: bool)
        ensures
            r == (!old(self).host && !old(self).starting),
            *final(self) == if r {
                SinkState { starting: true, ..*old(self) }
            } else {
                *old(self)
            },
    {
        let idle = !self.host && !self.starting;
        if idle {
            self.starting = true;
        }
        idle
    }

    /// The tab came up, or would not.
    pub fn host_started(&mut self, up: bool)
        ensures
            *final(self) == (SinkState { host: up || old(self).host, starting: false, ..*old(self) }),
    {
        self.host = up || self.host;
        self.starting = false;
    }

    /// The SDK registered its Connect device.
    pub fn on_ready(&mut self, device_id: String)
        ensures
            *final(self) == (SinkState { device: Some(device_id), ..*old(self) }),
    {
        self.device = Some(device_id);
    }

    /// The SDK's device went away.
    pub fn on_not_ready(&mut self)
        ensures
            *final(self) == (SinkState { device: None, ..*old(self) }),
    {
        self.device = None;
    }

    /// The tab had its play gesture.
    pub fn on_activated(&mut self)
        ensures
            *final(self) == (SinkState { activated: true, ..*old(self) }),
    {
        self.activated = true;
    }

    /// The tab was closed: everything it held is gone.
    pub fn browser_disconnected(&mut self)
        ensures
            *final(self) == (SinkState {
                host: false,
                device: None,
                activated: false,
                pending_uri: None,
                commanded: None,
                playing_key: None,
                ..*old(self)
            }),
    {
        self.host = false;
        self.device = None;
        self.activated = false;
        self.pending_uri = None;
        self.commanded = None;
        self.playing_key = None;
    }

    /// Whether a report at `now_ms` is about the track just skipped away
    /// from. Once the commanded track is reported, or the grace has passed,
    /// nothing is held back any more.
    pub fn stale(&mut self, reported: Option<&str>, now_ms: u64) -> (r: bool)
        ensures
            match old(self).commanded {
                None => !r && *final(self) == *old(self),
                Some((key, at)) => {
                    let over = now_ms > at + COMMAND_GRACE_MS || reported.deep_view() == Some(
                        key@,
                    );
                    &&& r == !over
                    &&& *final(self) == if over {
                        SinkState { commanded: None, ..*old(self) }
                    } else {
                        *old(self)
                    }
                },
            },
    {
        let over = match &self.commanded {
            None => {
                return false;
            },
            Some((key, at)) => {
                let late = (now_ms as u128) > (*at as u128) + (COMMAND_GRACE_MS as u128);
                let same = match reported {
                    Some(r) => str_eq(r, key.as_str()),
                    None => false,
                };
                late || same
            },
        };
        if over {
            self.commanded = None;
        }
        !over
    }

    /// What was asked for before the tab was ready, once it is: activated,
    /// with a device. It is taken, so it plays once.
    pub fn take_pending(&mut self) -> (r: Option<(String, String)>)
        ensures
            match r {
                Some((device, uri)) => old(self).activated && old(self).device == Some(device)
                    && old(self).pending_uri == Some(uri) && *final(self) == (SinkState {
                    pending_uri: None,
                    ..*old(self)
                }),
                None => (!old(self).activated || old(self).device is None || old(self).pending_uri is None) && *final(self) == *old(self),
            },
    {
        if !self.activated {
            return None;
        }
        let device = match &self.device {
            Some(d) => d.clone(),
            None => {
                return None;
            },
        };
        let uri = match &self.pending_uri {
            Some(u) => u.clone(),
            None => {
                return None;
            },
        };
        self.pending_uri = None;
        Some((device, uri))
    }

    /// A report named the track playing now.
    pub fn reported(&mut self, key: String)
        ensures
            *final(self) == (SinkState { playing_key: Some(key), ..*old(self) }),
    {
        self.playing_key = Some(key);
    }

    /// Whether a refused token may be refreshed at `now_ms`; a refresh that is
    /// due is recorded, so a burst of errors is one request.
    pub fn refresh_due(&mut self, now_ms: u64) -> (r: bool)
        ensures
            r == match old(self).last_refresh {
                None => true,
                Some(at) => now_ms > at + REFRESH_BACKOFF_MS,
            },
            *final(self) == if r {
                SinkState { last_refresh: Some(now_ms), ..*old(self) }
            } else {
                *old(self)
            },
    {
        let due = match self.last_refresh {
            None => true,
            Some(at) => (now_ms as u128) > (at as u128) + (REFRESH_BACKOFF_MS as u128),
        };
        if due {
            self.last_refresh = Some(now_ms);
        }
        due
    }

    /// Stop: nothing is pending, commanded or believed playing.
    pub fn stop(&mut self)
        ensures
            *final(self) == (SinkState {
                pending_uri: None,
                commanded: None,
                playing_key: None,
                ..*old(self)
            }),
    {
        self.pending_uri = None;
        self.commanded = None;
        self.playing_key = None;
    }
}

/// What loading a track asks of the caller.
#[derive(Debug, Clone, PartialEq, Eq)]
pub enum LoadStep {
    /// It is what is playing already: adopting a session must not restart it.
    AlreadyPlaying,
    /// Start the URI on this Connect device: the user's pick, or the tab's
    /// own once it is ready.
    Start { device: String, uri: String },
    /// The tab is not ready: the URI waits, and the tab is to be started.
    StartHost,
}

/// The URI of a Spotify track by its id.
pub open spec fn track_uri(key: Seq<char>) -> Seq<char> {
    "spotify:track:"@ + key
}

impl SinkState {
    /// Load a track by its id at `now_ms`. A picked Connect device gets it
    /// directly; otherwise the tab does once activated and registered, and
    /// until then it waits as pending.
    pub fn load(&mut self, key: &str, now_ms: u64) -> (r: LoadStep)
        ensures
            old(self).playing_key.deep_view() == Some(key@) ==> r == LoadStep::AlreadyPlaying
                && *final(self) == *old(self),
            old(self).playing_key.deep_view() != Some(key@) ==> {
                &&& final(self).commanded matches Some((k, at)) && k@ == key@ && at == now_ms
                &&& match old(self).selected {
                    Some(d) => r matches LoadStep::Start { device, uri } && device == d && uri@
                        == track_uri(key@) && final(self).pending_uri is None,
                    None => if old(self).activated && old(self).device is Some {
                        r matches LoadStep::Start { device, uri } && device == old(self).device->0 && uri@ == track_uri(key@) && final(self).pending_uri
                            == old(self).pending_uri
                    } else {
                        r == LoadStep::StartHost && (final(self).pending_uri matches Some(u)
                            && u@ == track_uri(key@))
                    },
                }
                &&& *final(self) == (SinkState {
                    commanded: final(self).commanded,
                    pending_uri: final(self).pending_uri,
                    ..*old(self)
                })
            },
    {
        let same = match &self.playing_key {
            Some(k) => str_eq(k.as_str(), key),
            None => false,
        };
        if same {
            return LoadStep::AlreadyPlaying;
        }
        let uri = concat2("spotify:track:", key);
        self.commanded = Some((owned(key), now_ms));
        if let Some(device) = &self.selected {
            let device = device.clone();
            self.pending_uri = None;
            return LoadStep::Start { device, uri };
        }
        if self.activated {
            if let Some(device) = &self.device {
                return LoadStep::Start { device: device.clone(), uri };
            }
        }
        self.pending_uri = Some(uri);
        LoadStep::StartHost
    }

    /// Where transport commands go: the picked Connect device, else the tab
    /// if there is one.
    pub fn route(&self) -> (r: Route)
        ensures
            r == if self.selected is Some {
                Route::Connect
            } else if self.host {
                Route::Tab
            } else {
                Route::Nowhere
            },
    {
        if self.selected.is_some() {
            Route::Connect
        } else if self.host {
            Route::Tab
        } else {
            Route::Nowhere
        }
    }
}

/// Where a transport command goes.
#[derive(Debug, Clone, Copy, PartialEq, Eq, Structural)]
pub enum Route {
    Connect,
    Tab,
    Nowhere,
}

/// A transport command from the tab's own media keys: the queue is the
/// app's, so it is answered as an ordinary player command.
#[derive(Debug, Clone, Copy, PartialEq, Eq, Structural)]
pub enum MediaCommand {
    Play,
    Pause,
    Next,
    Previous,
    Seek { position_ms: u64 },
}

/// The command a media key names; a seek needs a position.
pub fn media_key(action: &str, position_ms: Option<u64>) -> (r: Option<MediaCommand>)
    ensures
        r == if action@ == "play"@ {
            Some(MediaCommand::Play)
        } else if action@ == "pause"@ {
            Some(MediaCommand::Pause)
        } else if action@ == "next"@ {
            Some(MediaCommand::Next)
        } else if action@ == "prev"@ {
            Some(MediaCommand::Previous)
        } else if action@ == "seek"@ {
            match position_ms {
                Some(p) => Some(MediaCommand::Seek { position_ms: p }),
                None => None,
            }
        } else {
            None
        },
{
    if str_eq(action, "play") {
        Some(MediaCommand::Play)
    } else if str_eq(action, "pause") {
        Some(MediaCommand::Pause)
    } else if str_eq(action, "next") {
        Some(MediaCommand::Next)
    } else if str_eq(action, "prev") {
        Some(MediaCommand::Previous)
    } else if str_eq(action, "seek") {
        match position_ms {
            Some(p) => Some(MediaCommand::Seek { position_ms: p }),
            None => None,
        }
    } else {
        None
    }
}

/// What an SDK error says to the user, by its kind.
pub open spec fn error_notice(kind: Seq<char>, message: Seq<char>) -> Seq<char> {
    if kind == "account"@ {
        "Spotify playback needs a Premium account."@
    } else if kind == "auth"@ {
        "Spotify session expired, sign in again from settings."@
    } else if kind == "widevine"@ {
        "This browser cannot play Spotify: it has no Widevine DRM."@
    } else if kind == "license"@ {
        message
    } else {
        "Spotify player error: "@ + message
    }
}

pub fn host_error_message(kind: &str, message: String) -> (r: String)
    ensures
        r@ == error_notice(kind@, message@),
{
    if str_eq(kind, "account") {
        owned("Spotify playback needs a Premium account.")
    } else if str_eq(kind, "auth") {
        owned("Spotify session expired, sign in again from settings.")
    } else if str_eq(kind, "widevine") {
        owned("This browser cannot play Spotify: it has no Widevine DRM.")
    } else if str_eq(kind, "license") {
        message
    } else {
        concat2("Spotify player error: ", message.as_str())
    }
}

/// The glyph of one of Spotify's device kinds.
pub open spec fn device_glyph(kind: Seq<char>) -> Seq<char> {
    if kind == "Smartphone"@ || kind == "Tablet"@ {
        "fa-solid fa-mobile-screen"@
    } else if kind == "Speaker"@ || kind == "AVR"@ || kind == "STB"@ || kind == "AudioDongle"@ {
        "fa-solid fa-volume-high"@
    } else if kind == "TV"@ || kind == "CastVideo"@ {
        "fa-solid fa-tv"@
    } else {
        "fa-solid fa-computer"@
    }
}

/// A glyph for one of Spotify's device kinds, so a client renders the picker
/// without knowing that vocabulary.
pub fn device_icon(kind: &str) -> (r: Icon)
    ensures
        r.deep_view() == IconV::Class(device_glyph(kind@)),
{
    Icon::Class(
        owned(
            if str_eq(kind, "Smartphone") || str_eq(kind, "Tablet") {
                "fa-solid fa-mobile-screen"
            } else if str_eq(kind, "Speaker") || str_eq(kind, "AVR") || str_eq(kind, "STB")
                || str_eq(kind, "AudioDongle") {
                "fa-solid fa-volume-high"
            } else if str_eq(kind, "TV") || str_eq(kind, "CastVideo") {
                "fa-solid fa-tv"
            } else {
                "fa-solid fa-computer"
            },
        ),
    )
}

/// A device the account can play on, as Spotify lists it.
pub struct SpotifyDevice {
    pub id: String,
    pub name: String,
    pub kind: String,
    pub is_active: bool,
}

/// A device offered in a picker.
#[derive(Debug, Clone, PartialEq, Eq)]
pub struct ExternalDevice {
    pub id: String,
    pub name: String,
    pub kind: String,
    pub icon: Icon,
    /// The one playing, or the one picked.
    pub active: bool,
}

/// The picker's entry for a device.
pub open spec fn listed(d: SpotifyDevice, selected: Option<Seq<char>>) -> (Seq<char>, Seq<char>, Seq<char>, IconV, bool) {
    (d.id@, d.name@, d.kind@, IconV::Class(device_glyph(d.kind@)), selected == Some(d.id@) || d.is_active)
}

/// The devices other than this app's own, for a picker: this app's own is
/// offered as "this app" rather than as one of the account's devices.
pub open spec fn picker(
    devices: Seq<SpotifyDevice>,
    own: Option<Seq<char>>,
    selected: Option<Seq<char>>,
) -> Seq<(Seq<char>, Seq<char>, Seq<char>, IconV, bool)>
    decreases devices.len(),
{
    if devices.len() == 0 {
        Seq::empty()
    } else {
        let rest = picker(devices.drop_last(), own, selected);
        if own == Some(devices.last().id@) {
            rest
        } else {
            rest.push(listed(devices.last(), selected))
        }
    }
}

/// A device's picker entry, as a tuple of its parts.
pub open spec fn entry_of(d: ExternalDevice) -> (Seq<char>, Seq<char>, Seq<char>, IconV, bool) {
    (d.id@, d.name@, d.kind@, d.icon.deep_view(), d.active)
}

/// The picker's devices.
pub fn devices(found: Vec<SpotifyDevice>, own: Option<&str>, selected: Option<&str>) -> (r: Vec<
    ExternalDevice,
>)
    ensures
        r@.map_values(|d: ExternalDevice| entry_of(d)) == picker(
            found@,
            own.deep_view(),
            selected.deep_view(),
        ),
{
    let mut r: Vec<ExternalDevice> = Vec::new();
    let mut i: usize = 0;
    while i < found.len()
        invariant
            i <= found.len(),
            r@.map_values(|d: ExternalDevice| entry_of(d)) == picker(
                found@.take(i as int),
                own.deep_view(),
                selected.deep_view(),
            ),
        decreases found.len() - i,
    {
        assert(found@.take(i + 1).drop_last() =~= found@.take(i as int));
        let d = &found[i];
        let is_own = match own {
            Some(o) => str_eq(o, d.id.as_str()),
            None => false,
        };
        if !is_own {
            let picked = match selected {
                Some(s) => str_eq(s, d.id.as_str()),
                None => false,
            };
            let entry = ExternalDevice {
                id: d.id.clone(),
                name: d.name.clone(),
                kind: d.kind.clone(),
                icon: device_icon(d.kind.as_str()),
                active: picked || d.is_active,
            };
            let ghost before = r@;
            r.push(entry);
            assert(r@.map_values(|d: ExternalDevice| entry_of(d)) =~= before.map_values(
                |d: ExternalDevice| entry_of(d),
            ).push(entry_of(entry)));
        }
        assert(r@.map_values(|d: ExternalDevice| entry_of(d)) =~= picker(
            found@.take(i + 1),
            own.deep_view(),
            selected.deep_view(),
        ));
        i += 1;
    }
    assert(found@.take(found.len() as int) =~= found@);
    r
}

/// What following a Connect device remembers between polls.
pub struct ConnectPoll {
    pub was_playing: bool,
    pub last_position: u64,
    pub last_duration: u64,
}

/// What a poll of a Connect device reads.
pub struct PlayerReading {
    pub is_playing: bool,
    pub progress_ms: u64,
    pub duration_ms: u64,
}

/// Whether a track played through between two polls: it was playing near its
/// end, and now it is stopped at the start or the end.
pub open spec fn completed_between(p: ConnectPoll, s: PlayerReading) -> bool {
    let ended_before = p.was_playing && p.last_duration > 0 && p.last_position + 5000
        >= p.last_duration;
    let at_end = s.progress_ms == 0 || (s.duration_ms > 0 && s.progress_ms + 1500 >= s.duration_ms);
    !s.is_playing && ended_before && at_end
}

impl ConnectPoll {
    pub fn new() -> (r: ConnectPoll)
        ensures
            !r.was_playing && r.last_position == 0 && r.last_duration == 0,
    {
        ConnectPoll { was_playing: false, last_position: 0, last_duration: 0 }
    }

    /// Take one reading; answers whether the track completed. After a
    /// completion the next one starts from nothing.
    pub fn observe(&mut self, s: &PlayerReading) -> (completed: bool)
        ensures
            completed == completed_between(*old(self), *s),
            completed ==> !final(self).was_playing && final(self).last_position == 0 && final(self).last_duration == old(self).last_duration,
            !completed ==> final(self).was_playing == s.is_playing && final(self).last_position
                == s.progress_ms && final(self).last_duration == s.duration_ms,
    {
        let ended_before = self.was_playing && self.last_duration > 0 && (self.last_position as u128)
            + 5000 >= self.last_duration as u128;
        let at_end = s.progress_ms == 0 || (s.duration_ms > 0 && (s.progress_ms as u128) + 1500
            >= s.duration_ms as u128);
        let completed = !s.is_playing && ended_before && at_end;
        if completed {
            self.was_playing = false;
            self.last_position = 0;
        } else {
            self.was_playing = s.is_playing;
            self.last_position = s.progress_ms;
            self.last_duration = s.duration_ms;
        }
        completed
    }
}

} // verus!
