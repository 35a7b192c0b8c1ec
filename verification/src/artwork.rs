//! Entity-addressed artwork: what a cover is, where an artist's picture comes
//! from, how cached files are named, and the settings of the cover lookup.
//!
//! The daemon resolves covers because it holds the credentials that sign a
//! server's image URL, and it proxies remote ones so those URLs never reach a
//! client. Fetching and caching bytes are the caller's.

use vstd::prelude::*;
use vstd::string::StringSliceAdditionalSpecFns;
use sha2::{Digest, Sha256};
use crate::config::{AppConfig, FetchStrategy};
use crate::schema::{
    answer_of, value_of, ChoiceOption, ChoiceOptionV, FieldKind, FieldKindV, FieldSpec, FieldSpecV,
    FieldValue, FieldValueV, Text, TextV,
};
use crate::services::field_row;
use crate::text::{
    bool_text, bool_to_string, concat3, lowercase_of, owned, push_char, push_deep, str_eq,
    to_lowercase, trim, trimmed,
};

verus! {

// ---------------------------------------------------------------- bytes

/// The largest remote cover the daemon fetches.
pub const MAX_REMOTE_ARTWORK_BYTES: usize = 33554432;

/// A cover's bytes and what they are.
#[derive(Debug)]
pub struct ArtworkPayload {
    pub bytes: Vec<u8>,
    pub content_type: &'static str,
}

/// The image type a file's first bytes announce: PNG, GIF and WebP by their
/// magic numbers, and JPEG for anything else.
pub open spec fn sniffed_type(b: Seq<u8>) -> Seq<char> {
    if b.len() >= 4 && b[0] == 0x89u8 && b[1] == 0x50u8 && b[2] == 0x4eu8 && b[3] == 0x47u8 {
        "image/png"@
    } else if b.len() >= 4 && b[0] == 0x47u8 && b[1] == 0x49u8 && b[2] == 0x46u8 && b[3] == 0x38u8 {
        "image/gif"@
    } else if b.len() > 11 && b[8] == 0x57u8 && b[9] == 0x45u8 && b[10] == 0x42u8 && b[11]
        == 0x50u8 {
        "image/webp"@
    } else {
        "image/jpeg"@
    }
}

/// An image is known by its first bytes alone: what follows the first
/// twelve never changes its type; the PNG and GIF signatures name their
/// types, and bytes too short for any signature are taken for JPEG.
pub proof fn an_image_is_known_by_its_first_bytes(b: Seq<u8>, rest: Seq<u8>)
    ensures
        b.len() >= 12 ==> sniffed_type(b + rest) == sniffed_type(b),
        b.len() >= 4 && b[0] == 0x89u8 && b[1] == 0x50u8 && b[2] == 0x4eu8 && b[3] == 0x47u8
            ==> sniffed_type(b) == "image/png"@,
        b.len() >= 4 && b[0] == 0x47u8 && b[1] == 0x49u8 && b[2] == 0x46u8 && b[3] == 0x38u8
            ==> sniffed_type(b) == "image/gif"@,
        b.len() < 4 ==> sniffed_type(b) == "image/jpeg"@,
{
    if b.len() >= 12 {
        assert forall|j: int| 0 <= j < 12 implies (b + rest)[j] == b[j] by {}
    }
}

/// What kind of image some bytes are.
pub fn sniff_content_type(bytes: &[u8]) -> (r: &'static str)
    ensures
        r@ == sniffed_type(bytes@),
{
    if bytes.len() >= 4 && bytes[0] == 0x89 && bytes[1] == 0x50 && bytes[2] == 0x4e && bytes[3]
        == 0x47 {
        "image/png"
    } else if bytes.len() >= 4 && bytes[0] == 0x47 && bytes[1] == 0x49 && bytes[2] == 0x46
        && bytes[3] == 0x38 {
        "image/gif"
    } else if bytes.len() > 11 && bytes[8] == 0x57 && bytes[9] == 0x45 && bytes[10] == 0x42
        && bytes[11] == 0x50 {
        "image/webp"
    } else {
        "image/jpeg"
    }
}

/// The SHA-256 digest of some bytes.
pub uninterp spec fn sha256(data: Seq<u8>) -> Seq<u8>;

/// `sha2::Sha256::digest`: the digest of the bytes, which is a function of
/// them alone and always 32 bytes long.
#[verifier::external_body]
fn sha256_digest(data: &[u8]) -> (r: Vec<u8>)
    ensures
        r@ == sha256(data@),
        r@.len() == 32,
{
    Sha256::digest(data).to_vec()
}

/// A lowercase hexadecimal digit.
pub open spec fn hex_digit(n: u8) -> char {
    if n < 10 {
        ((48 + n) as u8) as char
    } else {
        ((87 + n) as u8) as char
    }
}

/// Bytes as lowercase hexadecimal, two digits each.
pub open spec fn hex(bytes: Seq<u8>) -> Seq<char>
    decreases bytes.len(),
{
    if bytes.len() == 0 {
        Seq::empty()
    } else {
        hex(bytes.drop_last()) + seq![hex_digit(bytes.last() / 16), hex_digit(bytes.last() % 16)]
    }
}

fn hex_char(n: u8) -> (c: char)
    requires
        n < 16,
    ensures
        c == hex_digit(n),
{
    if n < 10 {
        (48u8 + n) as char
    } else {
        (87u8 + n) as char
    }
}

/// The name a cache file gets for a key: its SHA-256 in hexadecimal.
pub fn hash_name(input: &str) -> (r: String)
    ensures
        r@ == hex(sha256(input.spec_bytes())),
        r@.len() == 64,
{
    let digest = sha256_digest(input.as_bytes());
    let mut name = String::new();
    let mut i: usize = 0;
    while i < digest.len()
        invariant
            i <= digest.len(),
            name@ == hex(digest@.take(i as int)),
            name@.len() == 2 * i,
        decreases digest.len() - i,
    {
        let byte = digest[i];
        assert(digest@.take(i + 1).drop_last() =~= digest@.take(i as int));
        push_char(&mut name, hex_char(byte / 16));
        push_char(&mut name, hex_char(byte % 16));
        assert(name@ =~= hex(digest@.take(i + 1)));
        i += 1;
    }
    assert(digest@.take(digest.len() as int) =~= digest@);
    name
}

/// Where a resized local cover is cached.
pub fn local_cache_name(path: &str, hq: bool) -> (r: String)
    ensures
        r@ == (if hq {
            "hq"@
        } else {
            "thumb"@
        }) + "_"@ + hex(sha256(path.spec_bytes())) + ".jpg"@,
{
    let mut name = concat3(
        if hq {
            "hq"
        } else {
            "thumb"
        },
        "_",
        hash_name(path).as_str(),
    );
    crate::text::push_str(&mut name, ".jpg");
    name
}

/// Where a remote cover is cached, keyed by its URL.
pub fn remote_cache_name(url: &str) -> (r: String)
    ensures
        r@ == "remote_"@ + hex(sha256(url.spec_bytes())),
{
    crate::text::concat2("remote_", hash_name(url).as_str())
}

/// Whether a remote cover that says how long it is may be fetched.
pub fn remote_length_ok(content_length: Option<u64>) -> (r: bool)
    ensures
        r == match content_length {
            Some(n) => n <= MAX_REMOTE_ARTWORK_BYTES,
            None => true,
        },
{
    match content_length {
        Some(n) => n <= MAX_REMOTE_ARTWORK_BYTES as u64,
        None => true,
    }
}

/// Whether one more chunk keeps a download within the limit.
pub fn chunk_fits(have: usize, chunk: usize) -> (r: bool)
    ensures
        r == (have + chunk <= MAX_REMOTE_ARTWORK_BYTES),
{
    have.saturating_add(chunk) <= MAX_REMOTE_ARTWORK_BYTES
}

// ---------------------------------------------------------------- covers

/// Where an entity's picture lives.
#[derive(Debug, Clone, PartialEq, Eq, Hash)]
pub enum CoverRef {
    /// No picture.
    Absent,
    /// A file on this machine.
    Local(String),
    /// A public image the daemon holds a URL for.
    EmbeddedUrl(String),
}

/// An artist photo a search found.
#[derive(Debug, Clone, PartialEq, Eq)]
pub enum ArtistImageRef {
    Local(String),
    Remote(String),
}

/// The artist pictures the library keeps: overrides a user set, and photos a
/// search found, each under the artist's normalized name.
pub struct ArtistImages {
    pub overrides: Vec<(String, String)>,
    pub photos: Vec<(String, ArtistImageRef)>,
}

/// The first entry under a name.
pub open spec fn entry_under<T>(entries: Seq<(String, T)>, name: Seq<char>) -> Option<T>
    decreases entries.len(),
{
    if entries.len() == 0 {
        None
    } else if entries[0].0@ == name {
        Some(entries[0].1)
    } else {
        entry_under(entries.drop_first(), name)
    }
}

/// How a stored cover path reads: a web address is a URL, anything else a
/// file.
pub open spec fn cover_of_path(path: Seq<char>) -> CoverRef {
    if path.len() == 0 {
        CoverRef::Absent
    } else if crate::text::has_prefix(path, "http://"@) || crate::text::has_prefix(
        path,
        "https://"@,
    ) {
        CoverRef::EmbeddedUrl(path_string(path))
    } else {
        CoverRef::Local(path_string(path))
    }
}

/// The string whose text is `s`.
pub open spec fn path_string(s: Seq<char>) -> String {
    choose|t: String| t@ == s
}

/// An artist's picture: an override, then a photo the source found, then,
/// for a library source only, one of their album covers. A remote catalog
/// never uses that last resort: a liked track's album cover is not a
/// picture of the artist.
pub open spec fn artist_cover_of(
    name: Seq<char>,
    images: ArtistImages,
    album_cover: Option<Seq<char>>,
    library_view: bool,
) -> CoverRef {
    artist_cover_under(lowercase_of(trimmed(name)), images, album_cover, library_view)
}

/// The chain walked for an artist under its lookup key (its name, trimmed
/// and lowercased).
pub open spec fn artist_cover_under(
    key: Seq<char>,
    images: ArtistImages,
    album_cover: Option<Seq<char>>,
    library_view: bool,
) -> CoverRef {
    match entry_under(images.overrides@, key) {
        Some(path) => CoverRef::Local(path),
        None => match entry_under(images.photos@, key) {
            Some(ArtistImageRef::Local(path)) => CoverRef::Local(path),
            Some(ArtistImageRef::Remote(url)) => CoverRef::EmbeddedUrl(url),
            None => match album_cover {
                Some(p) => if library_view {
                    cover_of_path(p)
                } else {
                    CoverRef::Absent
                },
                None => CoverRef::Absent,
            },
        },
    }
}

fn lookup_override<'a>(entries: &'a Vec<(String, String)>, name: &str) -> (r: Option<&'a String>)
    ensures
        r == match entry_under(entries@, name@) {
            Some(p) => Some(&p),
            None => None::<&String>,
        },
{
    let mut i: usize = 0;
    assert(entries@.skip(0) =~= entries@);
    while i < entries.len()
        invariant
            i <= entries.len(),
            entry_under(entries@, name@) == entry_under(entries@.skip(i as int), name@),
        decreases entries.len() - i,
    {
        assert(entries@.skip(i as int)[0] == entries@[i as int]);
        if str_eq(entries[i].0.as_str(), name) {
            return Some(&entries[i].1);
        }
        assert(entries@.skip(i as int).drop_first() =~= entries@.skip(i + 1));
        i += 1;
    }
    None
}

fn lookup_photo<'a>(entries: &'a Vec<(String, ArtistImageRef)>, name: &str) -> (r: Option<
    &'a ArtistImageRef,
>)
    ensures
        r == match entry_under(entries@, name@) {
            Some(p) => Some(&p),
            None => None::<&ArtistImageRef>,
        },
{
    let mut i: usize = 0;
    assert(entries@.skip(0) =~= entries@);
    while i < entries.len()
        invariant
            i <= entries.len(),
            entry_under(entries@, name@) == entry_under(entries@.skip(i as int), name@),
        decreases entries.len() - i,
    {
        assert(entries@.skip(i as int)[0] == entries@[i as int]);
        if str_eq(entries[i].0.as_str(), name) {
            return Some(&entries[i].1);
        }
        assert(entries@.skip(i as int).drop_first() =~= entries@.skip(i + 1));
        i += 1;
    }
    None
}

/// Read a stored cover path.
pub fn parse_cover(path: &str) -> (r: CoverRef)
    ensures
        match (r, cover_of_path(path@)) {
            (CoverRef::Absent, CoverRef::Absent) => true,
            (CoverRef::Local(a), CoverRef::Local(b)) => a@ == b@,
            (CoverRef::EmbeddedUrl(a), CoverRef::EmbeddedUrl(b)) => a@ == b@,
            _ => false,
        },
{
    if path.is_empty() {
        CoverRef::Absent
    } else if crate::text::starts_with(path, "http://") || crate::text::starts_with(
        path,
        "https://",
    ) {
        let s = owned(path);
        proof {
            let c = path_string(path@);
            assert(exists|t: String| t@ == path@) by {
                assert(s@ == path@);
            }
        }
        CoverRef::EmbeddedUrl(s)
    } else {
        let s = owned(path);
        proof {
            assert(exists|t: String| t@ == path@) by {
                assert(s@ == path@);
            }
        }
        CoverRef::Local(s)
    }
}

/// The first entry under a name is the one at its first position.
proof fn lemma_first_entry<T>(entries: Seq<(String, T)>, name: Seq<char>, i: int)
    requires
        0 <= i < entries.len(),
        entries[i].0@ == name,
        forall|j: int| 0 <= j < i ==> #[trigger] entries[j].0@ != name,
    ensures
        entry_under(entries, name) == Some(entries[i].1),
    decreases i,
{
    if i > 0 {
        assert forall|j: int| 0 <= j < i - 1 implies #[trigger] entries.drop_first()[j].0@ != name by {
            assert(entries.drop_first()[j] == entries[j + 1]);
        }
        lemma_first_entry(entries.drop_first(), name, i - 1);
    }
}

/// A name no entry is stored under has none.
proof fn lemma_no_entry<T>(entries: Seq<(String, T)>, name: Seq<char>)
    requires
        forall|j: int| 0 <= j < entries.len() ==> #[trigger] entries[j].0@ != name,
    ensures
        entry_under(entries, name) is None,
    decreases entries.len(),
{
    if entries.len() > 0 {
        assert forall|j: int| 0 <= j < entries.len() - 1 implies #[trigger] entries.drop_first()[j].0@
            != name by {
            assert(entries.drop_first()[j] == entries[j + 1]);
        }
        lemma_no_entry(entries.drop_first(), name);
    }
}

/// An artist's picture, by its lookup key: the first override stored under
/// the key, as a file; else the first photo under it, a file as a file and a
/// web address as a URL; else, for a library source only, the album cover
/// read as a stored cover path; else none.
pub proof fn an_artist_picture_follows_its_chain(
    key: Seq<char>,
    images: ArtistImages,
    album_cover: Option<Seq<char>>,
    library_view: bool,
    i: int,
)
    ensures
        ({
            let o = images.overrides@;
            let p = images.photos@;
            let r = artist_cover_under(key, images, album_cover, library_view);
            let no_override = forall|j: int| 0 <= j < o.len() ==> #[trigger] o[j].0@ != key;
            let no_photo = forall|j: int| 0 <= j < p.len() ==> #[trigger] p[j].0@ != key;
            &&& (0 <= i < o.len() && o[i].0@ == key && forall|j: int| 0 <= j < i ==> #[trigger] o[j].0@
                != key) ==> r == CoverRef::Local(o[i].1)
            &&& (no_override && 0 <= i < p.len() && p[i].0@ == key && forall|j: int|
                0 <= j < i ==> #[trigger] p[j].0@ != key) ==> r == match p[i].1 {
                ArtistImageRef::Local(path) => CoverRef::Local(path),
                ArtistImageRef::Remote(url) => CoverRef::EmbeddedUrl(url),
            }
            &&& (no_override && no_photo) ==> r == match album_cover {
                Some(c) => if library_view {
                    cover_of_path(c)
                } else {
                    CoverRef::Absent
                },
                None => CoverRef::Absent,
            }
        }),
{
    let o = images.overrides@;
    let p = images.photos@;
    if 0 <= i < o.len() && o[i].0@ == key && forall|j: int| 0 <= j < i ==> #[trigger] o[j].0@ != key {
        lemma_first_entry(o, key, i);
    }
    if forall|j: int| 0 <= j < o.len() ==> #[trigger] o[j].0@ != key {
        lemma_no_entry(o, key);
        if 0 <= i < p.len() && p[i].0@ == key && forall|j: int| 0 <= j < i ==> #[trigger] p[j].0@
            != key {
            lemma_first_entry(p, key, i);
        }
        if forall|j: int| 0 <= j < p.len() ==> #[trigger] p[j].0@ != key {
            lemma_no_entry(p, key);
        }
    }
}

/// An artist is looked up by its name trimmed and lowercased: two names
/// that agree once trimmed and lowercased get the same picture.
pub proof fn an_artist_is_found_whatever_its_case(
    a: Seq<char>,
    b: Seq<char>,
    images: ArtistImages,
    album_cover: Option<Seq<char>>,
    library_view: bool,
)
    requires
        lowercase_of(trimmed(a)) == lowercase_of(trimmed(b)),
    ensures
        artist_cover_of(a, images, album_cover, library_view) == artist_cover_of(
            b,
            images,
            album_cover,
            library_view,
        ),
        artist_cover_of(a, images, album_cover, library_view) == artist_cover_under(
            lowercase_of(trimmed(a)),
            images,
            album_cover,
            library_view,
        ),
{
}

/// An artist's picture under its lookup key, walked down its chain.
pub fn artist_cover_by_key(
    key: &str,
    images: &ArtistImages,
    album_cover: Option<&str>,
    library_view: bool,
) -> (r: CoverRef)
    ensures
        match (r, artist_cover_under(key@, *images, album_cover.deep_view(), library_view)) {
            (CoverRef::Absent, CoverRef::Absent) => true,
            (CoverRef::Local(a), CoverRef::Local(b)) => a@ == b@,
            (CoverRef::EmbeddedUrl(a), CoverRef::EmbeddedUrl(b)) => a@ == b@,
            _ => false,
        },
{
    if let Some(path) = lookup_override(&images.overrides, key) {
        return CoverRef::Local(path.clone());
    }
    if let Some(photo) = lookup_photo(&images.photos, key) {
        return match photo {
            ArtistImageRef::Local(path) => CoverRef::Local(path.clone()),
            ArtistImageRef::Remote(url) => CoverRef::EmbeddedUrl(url.clone()),
        };
    }
    match album_cover {
        Some(path) => if library_view {
            parse_cover(path)
        } else {
            CoverRef::Absent
        },
        None => CoverRef::Absent,
    }
}

/// An artist's picture, walked down its chain.
pub fn artist_cover(
    name: &str,
    images: &ArtistImages,
    album_cover: Option<&str>,
    library_view: bool,
) -> (r: CoverRef)
    ensures
        match (r, artist_cover_of(name@, *images, album_cover.deep_view(), library_view)) {
            (CoverRef::Absent, CoverRef::Absent) => true,
            (CoverRef::Local(a), CoverRef::Local(b)) => a@ == b@,
            (CoverRef::EmbeddedUrl(a), CoverRef::EmbeddedUrl(b)) => a@ == b@,
            _ => false,
        },
{
    let trimmed_name = trim(name);
    let key = to_lowercase(trimmed_name.as_str());
    artist_cover_by_key(key.as_str(), images, album_cover, library_view)
}

/// The entity a picture belongs to.
#[derive(Debug, Clone, PartialEq, Eq)]
pub enum ArtworkTarget {
    Track(String),
    Album(String),
    Artist(String),
    Playlist(String),
    Catalog(String),
    Station(String),
}

/// What a client is told of a picture: whose it is, and a version that
/// changes when the picture does.
#[derive(Debug, Clone, PartialEq, Eq)]
pub struct ArtworkRef {
    pub target: ArtworkTarget,
    pub version: u64,
}

/// The one place "this entity has no picture" is decided: an absent cover
/// gets no ref, any other gets one for the target, at the cover's version.
pub fn ref_for(target: ArtworkTarget, cover: &CoverRef, version: u64) -> (r: Option<ArtworkRef>)
    ensures
        (r is None) == (*cover is Absent),
        r matches Some(a) ==> a.target == target && a.version == version,
{
    match cover {
        CoverRef::Absent => None,
        _ => Some(ArtworkRef { target, version }),
    }
}

/// An album's cover: its stored path, read; none where it has none.
pub fn album_cover(cover_path: Option<&str>) -> (r: CoverRef)
    ensures
        match (r, cover_path) {
            (CoverRef::Absent, None) => true,
            (_, Some(p)) => match (r, cover_of_path(p@)) {
                (CoverRef::Absent, CoverRef::Absent) => true,
                (CoverRef::Local(a), CoverRef::Local(b)) => a@ == b@,
                (CoverRef::EmbeddedUrl(a), CoverRef::EmbeddedUrl(b)) => a@ == b@,
                _ => false,
            },
            _ => false,
        },
{
    match cover_path {
        Some(path) => parse_cover(path),
        None => CoverRef::Absent,
    }
}

// ---------------------------------------------------------------- settings

/// The settings keys of the cover lookup.
pub const AUTO_FETCH: &'static str = "auto_fetch_covers";
pub const STRATEGY: &'static str = "cover_fetch_strategy";

/// Every strategy, in the order a client offers them.
pub open spec fn all_strategies() -> Seq<FetchStrategy> {
    seq![
        FetchStrategy::MusicBrainzFirst,
        FetchStrategy::LastFmFirst,
        FetchStrategy::MusicBrainzOnly,
        FetchStrategy::LastFmOnly,
    ]
}

/// The id a strategy is answered with.
pub open spec fn strategy_key(s: FetchStrategy) -> Seq<char> {
    match s {
        FetchStrategy::MusicBrainzFirst => "musicbrainz_first"@,
        FetchStrategy::LastFmFirst => "lastfm_first"@,
        FetchStrategy::MusicBrainzOnly => "musicbrainz_only"@,
        FetchStrategy::LastFmOnly => "lastfm_only"@,
    }
}

/// The strategy an answer names; anything unknown is the default.
pub open spec fn strategy_named(id: Seq<char>) -> FetchStrategy {
    if id == "lastfm_first"@ {
        FetchStrategy::LastFmFirst
    } else if id == "musicbrainz_only"@ {
        FetchStrategy::MusicBrainzOnly
    } else if id == "lastfm_only"@ {
        FetchStrategy::LastFmOnly
    } else {
        FetchStrategy::MusicBrainzFirst
    }
}

pub fn strategy_id(strategy: FetchStrategy) -> (r: &'static str)
    ensures
        r@ == strategy_key(strategy),
{
    match strategy {
        FetchStrategy::MusicBrainzFirst => "musicbrainz_first",
        FetchStrategy::LastFmFirst => "lastfm_first",
        FetchStrategy::MusicBrainzOnly => "musicbrainz_only",
        FetchStrategy::LastFmOnly => "lastfm_only",
    }
}

pub fn strategy_from_id(id: &str) -> (r: FetchStrategy)
    ensures
        r == strategy_named(id@),
{
    if str_eq(id, "lastfm_first") {
        FetchStrategy::LastFmFirst
    } else if str_eq(id, "musicbrainz_only") {
        FetchStrategy::MusicBrainzOnly
    } else if str_eq(id, "lastfm_only") {
        FetchStrategy::LastFmOnly
    } else {
        FetchStrategy::MusicBrainzFirst
    }
}

/// Each strategy's id names it back.
pub proof fn strategy_id_round_trip(s: FetchStrategy)
    ensures
        strategy_named(strategy_key(s)) == s,
{
    reveal_strlit("musicbrainz_first");
    reveal_strlit("lastfm_first");
    reveal_strlit("musicbrainz_only");
    reveal_strlit("lastfm_only");
    let id = strategy_key(s);
    match s {
        FetchStrategy::MusicBrainzFirst => {
            assert(id[0] != "lastfm_first"@[0] && id[0] != "lastfm_only"@[0]);
            assert(id[12] != "musicbrainz_only"@[12]);
        },
        FetchStrategy::LastFmFirst => {},
        FetchStrategy::MusicBrainzOnly => assert(id[0] != "lastfm_first"@[0]),
        FetchStrategy::LastFmOnly => {
            assert(id[0] != "musicbrainz_only"@[0]);
            assert(id[7] != "lastfm_first"@[7]);
        },
    }
}

/// The cover lookup's rows, with what the settings hold.
pub open spec fn cover_rows(auto_fetch: bool, strategy: FetchStrategy) -> Seq<FieldSpecV> {
    seq![
        field_row(
            AUTO_FETCH@,
            TextV::Key(AUTO_FETCH@),
            None,
            None,
            FieldKindV::Toggle,
            false,
            Some(bool_text(auto_fetch)),
            Some(AUTO_FETCH@),
            None,
        ),
        field_row(
            STRATEGY@,
            TextV::Key(STRATEGY@),
            None,
            None,
            FieldKindV::Choice {
                options: all_strategies().map_values(
                    |s: FetchStrategy| ChoiceOptionV {
                        value: strategy_key(s),
                        label: TextV::Key(strategy_key(s)),
                    },
                ),
                custom: false,
            },
            false,
            Some(strategy_key(strategy)),
            Some(STRATEGY@),
            None,
        ),
    ]
}

/// How covers are looked up when a row has none, as rows.
pub fn fields(config: &AppConfig) -> (r: Vec<FieldSpec>)
    ensures
        r.deep_view() == cover_rows(config.auto_fetch_covers, config.cover_fetch_strategy),
{
    let strategies = vec![
        FetchStrategy::MusicBrainzFirst,
        FetchStrategy::LastFmFirst,
        FetchStrategy::MusicBrainzOnly,
        FetchStrategy::LastFmOnly,
    ];
    assert(strategies@ =~= all_strategies());
    let ghost want = all_strategies().map_values(
        |s: FetchStrategy| ChoiceOptionV { value: strategy_key(s), label: TextV::Key(strategy_key(s)) },
    );
    let mut options: Vec<ChoiceOption> = Vec::new();
    let mut i: usize = 0;
    while i < strategies.len()
        invariant
            i <= strategies.len(),
            strategies@ == all_strategies(),
            want == all_strategies().map_values(
                |s: FetchStrategy| ChoiceOptionV {
                    value: strategy_key(s),
                    label: TextV::Key(strategy_key(s)),
                },
            ),
            options.deep_view() == want.take(i as int),
        decreases strategies.len() - i,
    {
        let id = strategy_id(strategies[i]);
        push_deep(&mut options, ChoiceOption { value: owned(id), label: Text::key(id) });
        assert(options.deep_view() =~= want.take(i + 1));
        i += 1;
    }
    assert(want.take(4) =~= want);
    let mut r: Vec<FieldSpec> = Vec::new();
    let mut auto = FieldSpec::blank(AUTO_FETCH, Text::key(AUTO_FETCH), FieldKind::Toggle);
    auto.value = Some(bool_to_string(config.auto_fetch_covers));
    auto.config_key = Some(owned(AUTO_FETCH));
    push_deep(&mut r, auto);
    let mut strategy = FieldSpec::blank(
        STRATEGY,
        Text::key(STRATEGY),
        FieldKind::Choice { options, custom: false },
    );
    strategy.value = Some(owned(strategy_id(config.cover_fetch_strategy)));
    strategy.config_key = Some(owned(STRATEGY));
    push_deep(&mut r, strategy);
    assert(r.deep_view() =~= cover_rows(config.auto_fetch_covers, config.cover_fetch_strategy));
    r
}

/// The settings keys an answer list writes.
pub open spec fn cover_keys(values: Seq<FieldValueV>) -> Seq<Seq<char>> {
    (if answer_of(values, AUTO_FETCH@) is Some {
        seq![AUTO_FETCH@]
    } else {
        Seq::empty()
    }) + (if answer_of(values, STRATEGY@) is Some {
        seq![STRATEGY@]
    } else {
        Seq::empty()
    })
}

/// The settings keys an answer list would write.
pub fn written_keys(values: &[FieldValue]) -> (r: Vec<&'static str>)
    ensures
        r@.map_values(|k: &str| k@) == cover_keys(values.deep_view()),
{
    let mut keys: Vec<&'static str> = Vec::new();
    if value_of(values, AUTO_FETCH).is_some() {
        keys.push(AUTO_FETCH);
    }
    if value_of(values, STRATEGY).is_some() {
        keys.push(STRATEGY);
    }
    assert(keys@.map_values(|k: &str| k@) =~= cover_keys(values.deep_view()));
    keys
}

/// Fold answers in. An absent key is left alone.
pub fn apply(values: &[FieldValue], config: &mut AppConfig)
    ensures
        *final(config) == (AppConfig {
            auto_fetch_covers: match answer_of(values.deep_view(), AUTO_FETCH@) {
                Some(on) => on == "true"@,
                None => old(config).auto_fetch_covers,
            },
            cover_fetch_strategy: match answer_of(values.deep_view(), STRATEGY@) {
                Some(s) => strategy_named(s),
                None => old(config).cover_fetch_strategy,
            },
            ..*old(config)
        }),
{
    if let Some(on) = value_of(values, AUTO_FETCH) {
        config.auto_fetch_covers = str_eq(on, "true");
    }
    if let Some(strategy) = value_of(values, STRATEGY) {
        config.cover_fetch_strategy = strategy_from_id(strategy);
    }
}

} // verus!
