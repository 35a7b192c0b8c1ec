//! The track row a client sees, and how a library row becomes one.
//!
//! Sentinel durations become an explicit kind, the offline flag is read from
//! the registrations so clients never see paths, and a local file's container
//! is named only where the player decodes it.

use vstd::prelude::*;
use crate::artwork::{ref_for, ArtworkRef, ArtworkTarget, CoverRef};
use crate::config::{copy_strings, MusicService, OfflineTrack};
use crate::text::{ascii_lower, ascii_lowercase, ascii_upper, ascii_uppercase, chars_of, string_of, str_eq};
use crate::url_download::{after_last_slash, name_fits, path_file_name, plain_path};

verus! {

/// Whether a row plays to an end or until it is stopped.
#[derive(Debug, Clone, Copy, PartialEq, Eq, Structural)]
pub enum TrackKind {
    Normal,
    Radio,
}

/// A track row on the wire. `key` is the stable library ref used everywhere
/// else; local paths and credentialed URLs never appear here.
#[derive(Debug, Clone, PartialEq, Eq)]
pub struct TrackInfo {
    pub key: String,
    pub uid: String,
    pub title: String,
    pub artist: String,
    pub album: String,
    pub album_id: String,
    pub duration_ms: Option<u64>,
    pub khz: u32,
    pub bitrate: u16,
    pub track_number: Option<u32>,
    pub disc_number: Option<u32>,
    pub kind: TrackKind,
    pub seekable: bool,
    pub offline: bool,
    /// Which service the track came from; none for a local file.
    pub service: Option<MusicService>,
    /// The file's container, upper-cased, for a local file the player
    /// decodes.
    pub format: Option<String>,
    pub artists: Vec<String>,
    pub musicbrainz_release_id: Option<String>,
    pub musicbrainz_recording_id: Option<String>,
    pub musicbrainz_track_id: Option<String>,
    pub playlist_item_id: Option<String>,
    pub artwork: Option<ArtworkRef>,
}

impl TrackInfo {
    /// Whole seconds, which is how a duration is shown. A radio stream has
    /// none: it plays until it is stopped.
    pub fn duration_secs(&self) -> (r: Option<u64>)
        ensures
            r == (match self.kind {
                TrackKind::Radio => None,
                TrackKind::Normal => Some(
                    (match self.duration_ms {
                        Some(ms) => ms,
                        None => 0,
                    }) / 1000,
                ),
            }),
    {
        match self.kind {
            TrackKind::Radio => None,
            TrackKind::Normal => {
                let ms = match self.duration_ms {
                    Some(ms) => ms,
                    None => 0,
                };
                Some(ms / 1000)
            },
        }
    }

    pub fn is_radio(&self) -> (r: bool)
        ensures
            r == (self.kind == TrackKind::Radio),
    {
        match self.kind {
            TrackKind::Radio => true,
            TrackKind::Normal => false,
        }
    }
}

/// What the library knows of a track, as the wire row reads it.
pub struct TrackRow {
    pub key: String,
    pub uid: String,
    pub title: String,
    pub artist: String,
    pub album: String,
    pub album_id: String,
    /// Seconds; `u64::MAX` marks a radio stream.
    pub duration: u64,
    pub khz: u32,
    pub bitrate: u16,
    pub track_number: Option<u32>,
    pub disc_number: Option<u32>,
    /// The file, for a local track.
    pub local_path: Option<String>,
    pub service: Option<MusicService>,
    pub artists: Vec<String>,
    pub musicbrainz_release_id: Option<String>,
    pub musicbrainz_recording_id: Option<String>,
    pub musicbrainz_track_id: Option<String>,
    pub playlist_item_id: Option<String>,
}

// ---------------------------------------------------------------- containers

/// The index of the last `.` in a name, or -1.
pub open spec fn last_dot(name: Seq<char>) -> int
    decreases name.len(),
{
    if name.len() == 0 {
        -1
    } else if name.last() == '.' {
        name.len() - 1
    } else {
        last_dot(name.drop_last())
    }
}

/// A file name's extension, as `Path::extension` documents it: none without
/// a dot, none for a name whose only dot leads it, else what follows the
/// last dot.
pub open spec fn extension_of(name: Seq<char>) -> Option<Seq<char>> {
    if last_dot(name) <= 0 {
        None
    } else {
        Some(name.skip(last_dot(name) + 1))
    }
}

/// The containers the player decodes.
pub open spec fn decoded(ext: Seq<char>) -> bool {
    ext == "mp3"@ || ext == "flac"@ || ext == "m4a"@ || ext == "wav"@ || ext == "ogg"@ || ext
        == "opus"@ || ext == "mp4"@ || ext == "mka"@
}

/// The badge a file name gets: its extension, lower-cased to match and
/// upper-cased to show, where the player decodes it.
pub open spec fn format_of_name(name: Option<Seq<char>>) -> Option<Seq<char>> {
    match name {
        Some(n) => match extension_of(n) {
            Some(ext) => {
                let lower = ext.map_values(|c: char| ascii_lower(c));
                if decoded(lower) {
                    Some(lower.map_values(|c: char| ascii_upper(c)))
                } else {
                    None
                }
            },
            None => None,
        },
        None => None,
    }
}

proof fn lemma_last_dot(name: Seq<char>)
    ensures
        -1 <= last_dot(name) < name.len(),
        last_dot(name) >= 0 ==> name[last_dot(name)] == '.',
        forall|j: int| last_dot(name) < j < name.len() ==> #[trigger] name[j] != '.',
    decreases name.len(),
{
    if name.len() > 0 {
        lemma_last_dot(name.drop_last());
        assert forall|j: int| last_dot(name) < j < name.len() implies #[trigger] name[j]
            != '.' by {
            if j < name.len() - 1 {
                assert(name.drop_last()[j] == name[j]);
            }
        }
    }
}

proof fn lemma_last_dot_take(name: Seq<char>, i: int)
    requires
        0 <= i <= name.len(),
        forall|j: int| i <= j < name.len() ==> #[trigger] name[j] != '.',
    ensures
        last_dot(name) == last_dot(name.take(i)),
    decreases name.len(),
{
    if name.len() > i {
        assert(name.drop_last().take(i) =~= name.take(i));
        lemma_last_dot_take(name.drop_last(), i);
    } else {
        assert(name.take(i) =~= name);
    }
}

fn extension(name: &[char]) -> (r: Option<Vec<char>>)
    ensures
        match (r, extension_of(name@)) {
            (Some(a), Some(b)) => a@ == b,
            (None, None) => true,
            _ => false,
        },
{
    let mut i = name.len();
    while i > 0
        invariant
            i <= name@.len(),
            forall|j: int| i <= j < name@.len() ==> #[trigger] name@[j] != '.',
        decreases i,
    {
        if name[i - 1] == '.' {
            proof {
                lemma_last_dot_take(name@, i as int);
                assert(name@.take(i as int).last() == '.');
            }
            if i - 1 == 0 {
                return None;
            }
            let mut ext: Vec<char> = Vec::new();
            let mut k = i;
            while k < name.len()
                invariant
                    i <= k <= name@.len(),
                    ext@ == name@.subrange(i as int, k as int),
                decreases name.len() - k,
            {
                ext.push(name[k]);
                k += 1;
            }
            proof {
                assert(name@.skip(i as int) =~= name@.subrange(i as int, name@.len() as int));
            }
            return Some(ext);
        }
        i -= 1;
    }
    proof {
        lemma_last_dot_take(name@, 0);
    }
    None
}

fn is_decoded(ext: &[char]) -> (r: bool)
    ensures
        r == decoded(ext@),
{
    let s = string_of(ext);
    str_eq(s.as_str(), "mp3") || str_eq(s.as_str(), "flac") || str_eq(s.as_str(), "m4a")
        || str_eq(s.as_str(), "wav") || str_eq(s.as_str(), "ogg") || str_eq(s.as_str(), "opus")
        || str_eq(s.as_str(), "mp4") || str_eq(s.as_str(), "mka")
}

/// The container badge of a file name.
pub fn format_of(name: Option<&str>) -> (r: Option<String>)
    ensures
        r.deep_view() == format_of_name(
            match name {
                Some(n) => Some(n@),
                None => None,
            },
        ),
{
    match name {
        Some(n) => {
            let cs = chars_of(n);
            match extension(cs.as_slice()) {
                Some(ext) => {
                    let lower = ascii_lowercase(ext.as_slice());
                    if is_decoded(lower.as_slice()) {
                        let upper = ascii_uppercase(lower.as_slice());
                        Some(string_of(upper.as_slice()))
                    } else {
                        None
                    }
                },
                None => None,
            }
        },
        None => None,
    }
}

/// The container a local track is in. Which characters separate path
/// components is the platform's, so of any path this is stated of whatever
/// file name the path has there; of a path every platform splits the same
/// way, it is the badge of the text after its last `/`.
pub fn track_format(local_path: Option<&str>) -> (r: Option<String>)
    ensures
        match local_path {
            Some(p) => (exists|name: Option<Seq<char>>|
                name_fits(p@, name) && r.deep_view() == #[trigger] format_of_name(name)) && (
            plain_path(p@) ==> r.deep_view() == format_of_name(Some(after_last_slash(p@)))),
            None => r is None,
        },
{
    match local_path {
        Some(p) => {
            let name = path_file_name(p);
            let r = match &name {
                Some(n) => format_of(Some(n.as_str())),
                None => format_of(None),
            };
            proof {
                assert(name_fits(p@, name.deep_view()));
            }
            r
        },
        None => None,
    }
}

// ---------------------------------------------------------------- rows

/// Whether an item id has an offline copy registered.
pub open spec fn registered_offline(offline: Seq<OfflineTrack>, id: Seq<char>) -> bool {
    exists|i: int| 0 <= i < offline.len() && #[trigger] offline[i].item_id@ == id
}

fn is_offline(offline: &Vec<OfflineTrack>, id: &str) -> (r: bool)
    ensures
        r == registered_offline(offline@, id@),
{
    let mut i: usize = 0;
    while i < offline.len()
        invariant
            i <= offline@.len(),
            forall|j: int| 0 <= j < i ==> #[trigger] offline@[j].item_id@ != id@,
        decreases offline.len() - i,
    {
        if str_eq(offline[i].item_id.as_str(), id) {
            return true;
        }
        i += 1;
    }
    false
}

fn copy_opt(s: &Option<String>) -> (r: Option<String>)
    ensures
        r.deep_view() == s.deep_view(),
{
    match s {
        Some(v) => Some(v.clone()),
        None => None,
    }
}

/// The wire row for a library row. `primary_id` is the id its playback ref
/// names, which offline registrations are kept under; `cover` and
/// `cover_version` are its picture and that picture's version.
pub fn track_info(
    row: &TrackRow,
    primary_id: Option<&str>,
    offline: &Vec<OfflineTrack>,
    cover: &CoverRef,
    cover_version: u64,
) -> (r: TrackInfo)
    ensures
        r.key@ == row.key@,
        r.uid@ == row.uid@,
        r.title@ == row.title@,
        r.artist@ == row.artist@,
        r.album@ == row.album@,
        r.album_id@ == row.album_id@,
        r.kind == (if row.duration == u64::MAX {
            TrackKind::Radio
        } else {
            TrackKind::Normal
        }),
        r.duration_ms == (if row.duration == u64::MAX {
            None
        } else if row.duration * 1000 > u64::MAX {
            Some(u64::MAX)
        } else {
            Some((row.duration * 1000) as u64)
        }),
        r.seekable == (row.duration != u64::MAX),
        r.khz == row.khz,
        r.bitrate == row.bitrate,
        r.track_number == row.track_number,
        r.disc_number == row.disc_number,
        r.offline == (match primary_id {
            Some(id) => registered_offline(offline@, id@),
            None => false,
        }),
        r.service == row.service,
        match row.local_path {
            Some(p) => (exists|name: Option<Seq<char>>|
                name_fits(p@, name) && r.format.deep_view() == #[trigger] format_of_name(name)) && (
            plain_path(p@) ==> r.format.deep_view() == format_of_name(Some(after_last_slash(p@)))),
            None => r.format is None,
        },
        r.artists.deep_view() == row.artists.deep_view(),
        r.musicbrainz_release_id.deep_view() == row.musicbrainz_release_id.deep_view(),
        r.musicbrainz_recording_id.deep_view() == row.musicbrainz_recording_id.deep_view(),
        r.musicbrainz_track_id.deep_view() == row.musicbrainz_track_id.deep_view(),
        r.playlist_item_id.deep_view() == row.playlist_item_id.deep_view(),
        (r.artwork is None) == (*cover is Absent),
        r.artwork matches Some(a) ==> (a.version == cover_version && (a.target matches ArtworkTarget::Track(k) && k@ == row.key@)),
{
    let radio = row.duration == u64::MAX;
    let offline_copy = match primary_id {
        Some(id) => is_offline(offline, id),
        None => false,
    };
    let duration_ms = if radio {
        None
    } else if row.duration > u64::MAX / 1000 {
        Some(u64::MAX)
    } else {
        Some(row.duration * 1000)
    };
    let format = match &row.local_path {
        Some(p) => track_format(Some(p.as_str())),
        None => None,
    };
    let artwork = ref_for(ArtworkTarget::Track(row.key.clone()), cover, cover_version);
    TrackInfo {
        key: row.key.clone(),
        uid: row.uid.clone(),
        title: row.title.clone(),
        artist: row.artist.clone(),
        album: row.album.clone(),
        album_id: row.album_id.clone(),
        duration_ms,
        khz: row.khz,
        bitrate: row.bitrate,
        track_number: row.track_number,
        disc_number: row.disc_number,
        kind: if radio {
            TrackKind::Radio
        } else {
            TrackKind::Normal
        },
        seekable: !radio,
        offline: offline_copy,
        service: row.service,
        format,
        artists: copy_strings(&row.artists),
        musicbrainz_release_id: copy_opt(&row.musicbrainz_release_id),
        musicbrainz_recording_id: copy_opt(&row.musicbrainz_recording_id),
        musicbrainz_track_id: copy_opt(&row.musicbrainz_track_id),
        playlist_item_id: copy_opt(&row.playlist_item_id),
        artwork,
    }
}

} // verus!
