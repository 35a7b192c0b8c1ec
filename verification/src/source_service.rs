//! Configured sources, their credentials, and switching between them: the
//! decisions. Loading and storing credentials, running a browser sign-in and
//! telling the session are the caller's; what each request may do, and what
//! the settings become, is here.

use vstd::prelude::*;
use crate::config::{
    browser_named, folders_of, source_column, AppConfig, Browser, MusicServer, MusicService,
    SavedLocalSource, SavedServer, ServerFolders, Source, copy_strings,
};
use crate::error::{ApiError, ErrorCode};
use crate::schema::{answer_of, value_of, FieldValue, FieldValueV, Problem, ProblemV, TextV};
use crate::services::{
    check, config_key_list, config_keys, detail, draft_problems, problem_text, service_ref,
    service_reference, settings, settings_rows, sign_in, sign_in_needed, trimmed_answer,
    ServerView, TOKEN,
};
use crate::sources::{
    AlbumPresentation, ArtistPresentation, CredentialProvision, DraftCheck, FavoritesSyncMode,
    LocalSourceDraft, PlaylistCapability, ServerDraft, SignInKind, SourceCapabilities,
    SourceInfo, SourceKind, SourceLoginRequest,
};
use crate::text::{
    concat2, has_prefix, is_blank, owned, push_deep, starts_with, str_eq, trim, trimmed,
    uppercase_of,
};

verus! {

// ---------------------------------------------------------------- what a backend declares

/// Which playlist edits a backend takes.
#[derive(Debug, Clone, Copy, PartialEq, Eq, Structural)]
pub enum PlaylistOps {
    ReadOnly,
    AddRemove,
    Reorder,
}

/// Whether a backend's artists are a view of the library or its own catalog.
#[derive(Debug, Clone, Copy, PartialEq, Eq, Structural)]
pub enum ArtistView {
    Library,
    Remote,
}

/// What a backend's albums are.
#[derive(Debug, Clone, Copy, PartialEq, Eq, Structural)]
pub enum AlbumType {
    Standard,
    YtMusic,
}

/// How a backend's favorites are synced.
#[derive(Debug, Clone, Copy, PartialEq, Eq, Structural)]
pub enum FavoritesSync {
    Instant,
    Paginated,
}

/// Which radio a backend can start.
#[derive(Debug, Clone, Copy, PartialEq, Eq, Structural)]
pub struct RadioSupport {
    pub track: bool,
    pub playlist: bool,
}

/// What a constructed backend says it can do.
#[derive(Debug, Clone, Copy, PartialEq, Eq, Structural)]
pub struct Capabilities {
    pub edit_tags: bool,
    pub delete_from_disk: bool,
    pub scan_folders: bool,
    pub folders: bool,
    pub browse_folders: bool,
    pub external_devices: bool,
    pub sync: bool,
    pub downloads: bool,
    pub discover: bool,
    pub radio: RadioSupport,
    pub playlists: PlaylistOps,
    pub artist_view: ArtistView,
    pub albums: AlbumType,
    pub favorites_sync: FavoritesSync,
}

/// A backend's capabilities, as the wire describes them.
pub open spec fn wire_capabilities(c: Capabilities) -> SourceCapabilities {
    SourceCapabilities {
        edit_tags: c.edit_tags,
        delete_from_disk: c.delete_from_disk,
        scan_folders: c.scan_folders,
        folders: c.folders,
        browse_folders: c.browse_folders,
        external_devices: c.external_devices,
        sync: c.sync,
        downloads: c.downloads,
        discover: c.discover,
        track_radio: c.radio.track,
        playlist_radio: c.radio.playlist,
        playlists: match c.playlists {
            PlaylistOps::ReadOnly => PlaylistCapability::ReadOnly,
            PlaylistOps::AddRemove => PlaylistCapability::AddRemove,
            PlaylistOps::Reorder => PlaylistCapability::Reorder,
        },
        artists: match c.artist_view {
            ArtistView::Library => ArtistPresentation::Library,
            ArtistView::Remote => ArtistPresentation::Remote,
        },
        albums: match c.albums {
            AlbumType::Standard => AlbumPresentation::Standard,
            AlbumType::YtMusic => AlbumPresentation::Remote,
        },
        favorites_sync: match c.favorites_sync {
            FavoritesSync::Instant => FavoritesSyncMode::Instant,
            FavoritesSync::Paginated => FavoritesSyncMode::Paginated,
        },
    }
}

/// The in-process capabilities, as the wire describes them.
pub fn capabilities(caps: Capabilities) -> (r: SourceCapabilities)
    ensures
        r == wire_capabilities(caps),
{
    SourceCapabilities {
        edit_tags: caps.edit_tags,
        delete_from_disk: caps.delete_from_disk,
        scan_folders: caps.scan_folders,
        folders: caps.folders,
        browse_folders: caps.browse_folders,
        external_devices: caps.external_devices,
        sync: caps.sync,
        downloads: caps.downloads,
        discover: caps.discover,
        track_radio: caps.radio.track,
        playlist_radio: caps.radio.playlist,
        playlists: match caps.playlists {
            PlaylistOps::ReadOnly => PlaylistCapability::ReadOnly,
            PlaylistOps::AddRemove => PlaylistCapability::AddRemove,
            PlaylistOps::Reorder => PlaylistCapability::Reorder,
        },
        artists: match caps.artist_view {
            ArtistView::Library => ArtistPresentation::Library,
            ArtistView::Remote => ArtistPresentation::Remote,
        },
        albums: match caps.albums {
            AlbumType::Standard => AlbumPresentation::Standard,
            AlbumType::YtMusic => AlbumPresentation::Remote,
        },
        favorites_sync: match caps.favorites_sync {
            FavoritesSync::Instant => FavoritesSyncMode::Instant,
            FavoritesSync::Paginated => FavoritesSyncMode::Paginated,
        },
    }
}

// ---------------------------------------------------------------- ids

/// Ids a server may not take: they name local libraries.
pub open spec fn reserved_id(id: Seq<char>) -> bool {
    id.len() == 0 || id == "local"@ || has_prefix(id, "local:"@)
}

/// A source id reserved for local libraries must not be claimed by a server,
/// or the two namespaces collide.
pub fn validate_server_id(id: &str) -> (r: Result<(), ApiError>)
    ensures
        r is Ok <==> !reserved_id(id@),
        r matches Err(e) ==> e.code == ErrorCode::InvalidInput && e.message@
            == "that id is reserved for local sources"@,
{
    if id.is_empty() || str_eq(id, "local") || starts_with(id, "local:") {
        return Err(ApiError::invalid_input("that id is reserved for local sources"));
    }
    Ok(())
}

/// A character of a UUID's hyphenated text.
pub open spec fn uuid_char(c: char) -> bool {
    ('0' <= c && c <= '9') || ('a' <= c && c <= 'f') || c == '-'
}

/// `getrandom::fill` over sixteen bytes: fresh bytes from the operating
/// system's random source, or `None` where it cannot give any. They are
/// random, so nothing is stated of them.
#[verifier::external_body]
fn random_bytes() -> (r: Option<[u8; 16]>) {
    let mut bytes = [0u8; 16];
    match getrandom::fill(&mut bytes) {
        Ok(()) => Some(bytes),
        Err(_) => None,
    }
}

/// The lowercase hexadecimal digit of a nibble.
pub open spec fn hex_digit(n: u8) -> char {
    seq!['0', '1', '2', '3', '4', '5', '6', '7', '8', '9', 'a', 'b', 'c', 'd', 'e', 'f'][n as int]
}

/// Each byte as two lowercase hexadecimal digits, high nibble first.
pub open spec fn hex_text(b: Seq<u8>) -> Seq<char>
    decreases b.len(),
{
    if b.len() == 0 {
        Seq::empty()
    } else {
        hex_text(b.drop_last()) + seq![hex_digit(b.last() / 16), hex_digit(b.last() % 16)]
    }
}

/// The sixteen bytes of a random id with its variant (bits `10` atop byte 8)
/// and its version (4, atop byte 6) set.
pub open spec fn v4_bytes(b: Seq<u8>) -> Seq<u8> {
    b.update(6, (b[6] & 0x0fu8) | 0x40u8).update(8, (b[8] & 0x3fu8) | 0x80u8)
}

/// The hyphenated text of the version-4 id built from sixteen random bytes:
/// their hexadecimal digits in groups of 8, 4, 4, 4 and 12.
pub open spec fn uuid_v4_text(bytes: Seq<u8>) -> Seq<char> {
    let h = hex_text(v4_bytes(bytes));
    h.subrange(0, 8) + seq!['-'] + h.subrange(8, 12) + seq!['-'] + h.subrange(12, 16) + seq!['-']
        + h.subrange(16, 20) + seq!['-'] + h.subrange(20, 32)
}

proof fn lemma_hex_text(b: Seq<u8>)
    ensures
        hex_text(b).len() == 2 * b.len(),
        forall|i: int| 0 <= i < hex_text(b).len() ==> uuid_char(#[trigger] hex_text(b)[i]),
    decreases b.len(),
{
    if b.len() > 0 {
        lemma_hex_text(b.drop_last());
        let hi = b.last() / 16;
        let lo = b.last() % 16;
        assert(uuid_char(hex_digit(hi)));
        assert(uuid_char(hex_digit(lo)));
    }
}

/// A version-4 id's text is 36 lowercase hexadecimal digits and hyphens.
proof fn lemma_uuid_text(bytes: Seq<u8>)
    requires
        bytes.len() == 16,
    ensures
        uuid_v4_text(bytes).len() == 36,
        forall|i: int| 0 <= i < 36 ==> uuid_char(#[trigger] uuid_v4_text(bytes)[i]),
{
    let h = hex_text(v4_bytes(bytes));
    lemma_hex_text(v4_bytes(bytes));
    let t = uuid_v4_text(bytes);
    assert forall|i: int| 0 <= i < 36 implies uuid_char(#[trigger] t[i]) by {
        if i < 8 {
            assert(t[i] == h[i]);
        } else if i == 8 || i == 13 || i == 18 || i == 23 {
        } else if i < 13 {
            assert(t[i] == h[i - 1]);
        } else if i < 18 {
            assert(t[i] == h[i - 2]);
        } else if i < 23 {
            assert(t[i] == h[i - 3]);
        } else {
            assert(t[i] == h[i - 4]);
        }
    }
}

/// `uuid::Builder::from_random_bytes`, as the text `Uuid`'s `Display` gives:
/// the bytes with the version and variant bits set, as lowercase hexadecimal
/// in hyphenated groups.
#[verifier::external_body]
fn uuid_text(bytes: [u8; 16]) -> (r: String)
    ensures
        r@ == uuid_v4_text(bytes@),
{
    uuid::Builder::from_random_bytes(bytes).into_uuid().to_string()
}

/// The id a new server gets from sixteen random bytes: their version-4 text.
pub fn uuid_from(bytes: [u8; 16]) -> (r: String)
    ensures
        r@ == uuid_v4_text(bytes@),
        r@.len() == 36,
        forall|i: int| 0 <= i < r@.len() ==> uuid_char(#[trigger] r@[i]),
{
    proof {
        lemma_uuid_text(bytes@);
    }
    uuid_text(bytes)
}

// ---------------------------------------------------------------- describing a source

/// The first named local library with this id.
pub open spec fn local_source(all: Seq<SavedLocalSource>, id: Seq<char>) -> Option<SavedLocalSource>
    decreases all.len(),
{
    if all.len() == 0 {
        None
    } else if all[0].id@ == id {
        Some(all[0])
    } else {
        local_source(all.drop_first(), id)
    }
}

/// Find a named local library.
pub fn find_local_source<'a>(config: &'a AppConfig, id: &str) -> (r: Option<&'a SavedLocalSource>)
    ensures
        match r {
            Some(s) => local_source(config.local_sources@, id@) == Some(*s),
            None => local_source(config.local_sources@, id@) is None,
        },
{
    let all = &config.local_sources;
    let mut i: usize = 0;
    assert(all@.skip(0) =~= all@);
    while i < all.len()
        invariant
            i <= all.len(),
            all@ == config.local_sources@,
            local_source(all@, id@) == local_source(all@.skip(i as int), id@),
        decreases all.len() - i,
    {
        assert(all@.skip(i as int)[0] == all@[i as int]);
        if str_eq(all[i].id.as_str(), id) {
            return Some(&all[i]);
        }
        assert(all@.skip(i as int).drop_first() =~= all@.skip(i + 1));
        i += 1;
    }
    None
}

/// Whether a server's source is usable without a sign-in: it holds a token,
/// or needs none.
pub open spec fn server_authenticated(s: MusicServer) -> bool {
    s.access_token is Some || s.yt_anonymous
}

/// `info` is how a client sees the source `resolved` has active. `current` is
/// the config as it stands, which says whether that source is the active one;
/// `caps` is what its backend declares.
pub open spec fn describes(current: AppConfig, resolved: AppConfig, caps: Capabilities, info: SourceInfo) -> bool {
    &&& info.id@ == source_column(resolved.active_source)
    &&& info.active == (source_column(current.active_source) == source_column(
        resolved.active_source,
    ))
    &&& info.capabilities == wire_capabilities(caps)
    &&& match resolved.active_source {
        Source::Local => {
            &&& info.name@ == "Local Library"@
            &&& info.kind == SourceKind::Local
            &&& info.authenticated
            &&& info.directories.deep_view() == resolved.music_directory.deep_view()
            &&& info.service is None && info.detail is None && !info.anonymous
            &&& info.settings@.len() == 0
            &&& info.sign_in == SignInKind::NotNeeded
        },
        Source::LocalLibrary(id) => match local_source(resolved.local_sources@, id@) {
            Some(saved) => {
                &&& info.name == saved.name
                &&& info.kind == SourceKind::LocalLibrary
                &&& info.authenticated
                &&& info.directories.deep_view() == saved.directories.deep_view()
                &&& info.service is None && info.detail is None && !info.anonymous
                &&& info.settings@.len() == 0
                &&& info.sign_in == SignInKind::NotNeeded
            },
            None => false,
        },
        Source::Server(id) => match resolved.server {
            Some(s) => {
                &&& info.name == s.name
                &&& info.kind == SourceKind::Server
                &&& info.service matches Some(svc) && svc.deep_view()
                    == service_reference(s.service)
                &&& info.authenticated == server_authenticated(s)
                &&& info.sign_in == if server_authenticated(s) {
                    SignInKind::NotNeeded
                } else {
                    sign_in_needed(s.service, s.yt_anonymous)
                }
                &&& info.detail.deep_view() == match s.service {
                    MusicService::Spotify | MusicService::YtMusic
                    | MusicService::SoundCloud => None,
                    MusicService::AppleMusic => Some(
                        uppercase_of(s.apple_music_storefront@),
                    ),
                    _ => Some(s.url@),
                }
                &&& info.anonymous == s.yt_anonymous
                &&& info.settings.deep_view() == settings_rows(
                    s.service,
                    s.yt_browser,
                    s.yt_anonymous,
                    s.apple_music_storefront@,
                    s.apple_music_language@,
                    current.spotify_browser.deep_view(),
                    current.spotify_prefer_active_device,
                )
                &&& info.directories.deep_view() == match folders_of(
                    resolved.server_folders@,
                    id@,
                ) {
                    Some(f) => f.folders.deep_view(),
                    None => Seq::empty(),
                }
            },
            None => false,
        },
    }
}

/// Describe the source `resolved` has active, as a client lists it. `current`
/// is the config as it stands, which says whether that source is the active
/// one; `caps` is what its backend declares.
pub fn describe(current: &AppConfig, resolved: &AppConfig, caps: Capabilities) -> (r: Result<
    SourceInfo,
    ApiError,
>)
    ensures
        match r {
            Ok(info) => describes(*current, *resolved, caps, info),
            Err(e) => e.code == ErrorCode::NotFound && match resolved.active_source {
                Source::LocalLibrary(id) => local_source(resolved.local_sources@, id@) is None
                    && e.message@ == "no such local source"@,
                Source::Server(_) => resolved.server is None && e.message@ == "no such server"@,
                Source::Local => false,
            },
        },
{
    let id = owned(resolved.active_source.as_str());
    let active = str_eq(current.active_source.as_str(), resolved.active_source.as_str());
    let ghost caps_in = caps;
    let caps = capabilities(caps);
    match &resolved.active_source {
        Source::Local => Ok(
            SourceInfo {
                id,
                name: owned("Local Library"),
                kind: SourceKind::Local,
                service: None,
                active,
                authenticated: true,
                sign_in: SignInKind::NotNeeded,
                capabilities: caps,
                detail: None,
                anonymous: false,
                settings: Vec::new(),
                directories: copy_strings(&resolved.music_directory),
            },
        ),
        Source::LocalLibrary(local_id) => {
            let saved = match find_local_source(resolved, local_id.as_str()) {
                Some(saved) => saved,
                None => {
                    return Err(ApiError::not_found("no such local source"));
                },
            };
            Ok(
                SourceInfo {
                    id,
                    name: saved.name.clone(),
                    kind: SourceKind::LocalLibrary,
                    service: None,
                    active,
                    authenticated: true,
                    sign_in: SignInKind::NotNeeded,
                    capabilities: caps,
                    detail: None,
                    anonymous: false,
                    settings: Vec::new(),
                    directories: copy_strings(&saved.directories),
                },
            )
        },
        Source::Server(server_id) => {
            let server = match &resolved.server {
                Some(server) => server,
                None => {
                    return Err(ApiError::not_found("no such server"));
                },
            };
            let view = ServerView::of_active(server);
            // An anonymous source needs no token to be usable, which is why
            // this is not simply "has a token".
            let authenticated = server.access_token.is_some() || server.yt_anonymous;
            let info = SourceInfo {
                id,
                name: server.name.clone(),
                kind: SourceKind::Server,
                service: Some(service_ref(server.service)),
                active,
                authenticated,
                sign_in: sign_in(&view, authenticated),
                capabilities: caps,
                detail: detail(&view),
                anonymous: server.yt_anonymous,
                settings: settings(&view, current),
                directories: resolved.folders_for(server_id.as_str()),
            };
            assert(describes(*current, *resolved, caps_in, info));
            Ok(info)
        },
    }
}

/// Two descriptions agree field by field, strings and lists by content.
pub open spec fn described_alike(a: SourceInfo, b: SourceInfo) -> bool {
    &&& a.id@ == b.id@ && a.name@ == b.name@ && a.kind == b.kind
    &&& a.service.deep_view() == b.service.deep_view()
    &&& a.active == b.active && a.authenticated == b.authenticated && a.sign_in == b.sign_in
    &&& a.capabilities == b.capabilities
    &&& a.detail.deep_view() == b.detail.deep_view()
    &&& a.anonymous == b.anonymous
    &&& a.settings.deep_view() == b.settings.deep_view()
    &&& a.directories.deep_view() == b.directories.deep_view()
}

/// A provisioned secret never reaches a source's description: whichever
/// secret the active server holds, the source is described alike.
pub proof fn secret_is_not_described(
    current: AppConfig,
    resolved: AppConfig,
    server: MusicServer,
    first: String,
    second: String,
    caps: Capabilities,
    a: SourceInfo,
    b: SourceInfo,
)
    requires
        describes(
            current,
            AppConfig { server: Some(MusicServer { access_token: Some(first), ..server }), ..resolved },
            caps,
            a,
        ),
        describes(
            current,
            AppConfig { server: Some(MusicServer { access_token: Some(second), ..server }), ..resolved },
            caps,
            b,
        ),
    ensures
        described_alike(a, b),
{
    match resolved.active_source {
        Source::Server(_) => {},
        _ => {
            assert(a.settings.deep_view() =~= b.settings.deep_view());
        },
    }
}

/// The config as it would be with `source` active, so it can be described
/// without switching to it. `loaded` is the server row with its credentials,
/// where `source` is a server and the daemon keeps one.
pub fn resolve(config: &mut AppConfig, source: Source, loaded: Option<MusicServer>) -> (r: Result<
    (),
    ApiError,
>)
    ensures
        match source {
            Source::LocalLibrary(id) => match local_source(old(config).local_sources@, id@) {
                Some(_) => r is Ok && *final(config) == (AppConfig {
                    active_source: source,
                    server: None,
                    ..*old(config)
                }),
                None => {
                    &&& *final(config) == *old(config)
                    &&& r matches Err(e) && e.code == ErrorCode::NotFound && e.message@
                        == "no such local source"@
                },
            },
            Source::Server(_) => match loaded {
                Some(s) => {
                    &&& r is Ok
                    &&& final(config).server == Some(s)
                    &&& final(config).active_source matches Source::Server(i) && i@ == match s.id {
                        Some(x) => x@,
                        None => Seq::<char>::empty(),
                    }
                    &&& *final(config) == (AppConfig {
                        active_source: final(config).active_source,
                        server: final(config).server,
                        ..*old(config)
                    })
                },
                None => {
                    &&& *final(config) == *old(config)
                    &&& r matches Err(e) && e.code == ErrorCode::NotFound && e.message@
                        == "no such server"@
                },
            },
            Source::Local => r is Ok && *final(config) == (AppConfig {
                active_source: Source::Local,
                server: None,
                ..*old(config)
            }),
        },
{
    match source {
        Source::LocalLibrary(local_id) => {
            if find_local_source(config, local_id.as_str()).is_none() {
                return Err(ApiError::not_found("no such local source"));
            }
            config.set_active_local_source(Source::LocalLibrary(local_id));
            Ok(())
        },
        Source::Server(_) => match loaded {
            Some(server) => {
                config.set_active_server_snapshot(server);
                Ok(())
            },
            None => Err(ApiError::not_found("no such server")),
        },
        Source::Local => {
            config.set_active_local_source(Source::Local);
            Ok(())
        },
    }
}

// ---------------------------------------------------------------- local libraries

/// Why a local-library draft is refused, if it is: no name, no directory or a
/// blank one, or an id outside the local namespace.
pub open spec fn local_draft_refusal(
    name: Seq<char>,
    directories: Seq<Seq<char>>,
    id: Seq<char>,
) -> Option<Seq<char>> {
    if trimmed(name).len() == 0 {
        Some("a local source needs a name"@)
    } else if directories.len() == 0 || exists|i: int|
        0 <= i < directories.len() && trimmed(#[trigger] directories[i]).len() == 0 {
        Some("a local source needs at least one directory"@)
    } else if !has_prefix(id, "local:"@) {
        Some("that is not a local source id"@)
    } else {
        None
    }
}

/// Whether any directory is blank.
fn any_blank(directories: &Vec<String>) -> (r: bool)
    ensures
        r == exists|i: int|
            0 <= i < directories.deep_view().len() && trimmed(#[trigger] directories.deep_view()[i]).len()
                == 0,
{
    let mut i: usize = 0;
    while i < directories.len()
        invariant
            i <= directories.len(),
            forall|j: int| 0 <= j < i ==> trimmed(#[trigger] directories.deep_view()[j]).len() != 0,
        decreases directories.len() - i,
    {
        assert(directories.deep_view()[i as int] == directories[i as int]@);
        if is_blank(directories[i].as_str()) {
            return true;
        }
        i += 1;
    }
    false
}

/// The library a draft describes, under `id`.
pub fn checked_local_source(draft: LocalSourceDraft, id: String) -> (r: Result<
    SavedLocalSource,
    ApiError,
>)
    ensures
        match r {
            Ok(saved) => local_draft_refusal(draft.name@, draft.directories.deep_view(), id@)
                is None && saved.id == id && saved.name@ == trimmed(draft.name@)
                && saved.directories == draft.directories,
            Err(e) => e.code == ErrorCode::InvalidInput && local_draft_refusal(
                draft.name@,
                draft.directories.deep_view(),
                id@,
            ) == Some(e.message@),
        },
{
    let name = trim(draft.name.as_str());
    if name.as_str().is_empty() {
        return Err(ApiError::invalid_input("a local source needs a name"));
    }
    if draft.directories.len() == 0 || any_blank(&draft.directories) {
        return Err(ApiError::invalid_input("a local source needs at least one directory"));
    }
    if !starts_with(id.as_str(), "local:") {
        return Err(ApiError::invalid_input("that is not a local source id"));
    }
    Ok(SavedLocalSource { id, name, directories: draft.directories })
}

/// The id a new local library gets from sixteen random bytes: `local:` and
/// their version-4 text.
pub fn local_id_from(bytes: [u8; 16]) -> (r: String)
    ensures
        r@ == "local:"@ + uuid_v4_text(bytes@),
        has_prefix(r@, "local:"@) && r@.len() == 42,
        forall|i: int| 6 <= i < 42 ==> uuid_char(#[trigger] r@[i]),
{
    let u = uuid_from(bytes);
    let r = concat2("local:", u.as_str());
    proof {
        reveal_strlit("local:");
    }
    assert(r@.take(6) =~= "local:"@);
    assert forall|i: int| 6 <= i < 42 implies uuid_char(#[trigger] r@[i]) by {
        assert(r@[i] == u@[i - 6]);
    }
    r
}

/// The id a new local library gets: `local:` and the version-4 text of
/// sixteen fresh random bytes; `None` where the operating system gives none.
pub fn fresh_local_id() -> (r: Option<String>)
    ensures
        r matches Some(id) ==> exists|b: Seq<u8>| b.len() == 16 && id@ == "local:"@ + uuid_v4_text(b),
        r matches Some(id) ==> has_prefix(id@, "local:"@) && id@.len() == 42 && forall|i: int|
            6 <= i < 42 ==> uuid_char(#[trigger] id@[i]),
{
    match random_bytes() {
        Some(bytes) => {
            let r = local_id_from(bytes);
            assert(bytes@.len() == 16);
            Some(r)
        },
        None => None,
    }
}

/// The position of the first library with this id, or -1.
pub open spec fn local_index(all: Seq<SavedLocalSource>, id: Seq<char>) -> int
    decreases all.len(),
{
    if all.len() == 0 {
        -1
    } else if all[0].id@ == id {
        0
    } else {
        let r = local_index(all.drop_first(), id);
        if r < 0 {
            -1
        } else {
            r + 1
        }
    }
}

proof fn lemma_local_index(all: Seq<SavedLocalSource>, id: Seq<char>, k: int)
    requires
        0 <= k <= all.len(),
        forall|j: int| 0 <= j < k ==> all[j].id@ != id,
        k < all.len() ==> all[k].id@ == id,
    ensures
        local_index(all, id) == if k < all.len() {
            k
        } else {
            -1
        },
    decreases all.len(),
{
    if all.len() > 0 && k > 0 {
        let rest = all.drop_first();
        assert forall|j: int| 0 <= j < k - 1 implies rest[j].id@ != id by {
            assert(rest[j] == all[j + 1]);
        }
        if k < all.len() {
            assert(rest[k - 1] == all[k]);
        }
        lemma_local_index(rest, id, k - 1);
    }
}

/// The settings with `saved` stored: it replaces the library with its id, or
/// is added after the others.
pub open spec fn with_local_source(all: Seq<SavedLocalSource>, saved: SavedLocalSource) -> Seq<
    SavedLocalSource,
> {
    let k = local_index(all, saved.id@);
    if k >= 0 {
        all.update(k, saved)
    } else {
        all.push(saved)
    }
}

/// Store a local library, replacing the one with its id.
pub fn store_local_source(config: &mut AppConfig, saved: SavedLocalSource)
    ensures
        *final(config) == (AppConfig { local_sources: final(config).local_sources, ..*old(config) }),
        final(config).local_sources@ == with_local_source(old(config).local_sources@, saved),
{
    let ghost all = config.local_sources@;
    let mut i: usize = 0;
    while i < config.local_sources.len()
        invariant
            i <= config.local_sources.len(),
            config.local_sources@ == all,
            all == old(config).local_sources@,
            *config == (AppConfig { local_sources: config.local_sources, ..*old(config) }),
            forall|j: int| 0 <= j < i ==> all[j].id@ != saved.id@,
        decreases config.local_sources.len() - i,
    {
        if str_eq(config.local_sources[i].id.as_str(), saved.id.as_str()) {
            proof {
                assert(all[i as int].id@ == saved.id@);
                lemma_local_index(all, saved.id@, i as int);
            }
            config.local_sources.set(i, saved);
            return;
        }
        i += 1;
    }
    proof {
        lemma_local_index(all, saved.id@, all.len() as int);
    }
    config.local_sources.push(saved);
}

/// What deleting a local library may do: the default one cannot be deleted
/// and an unknown one is not there. `Ok` says whether it is the active one.
pub fn check_local_delete(config: &AppConfig, id: &str) -> (r: Result<bool, ApiError>)
    ensures
        match r {
            Ok(active) => id@ != "local"@ && local_source(config.local_sources@, id@) is Some
                && active == (config.active_source matches Source::LocalLibrary(a) && a@ == id@),
            Err(e) => if id@ == "local"@ {
                e.code == ErrorCode::InvalidInput && e.message@
                    == "the default local library cannot be deleted"@
            } else {
                local_source(config.local_sources@, id@) is None && e.code == ErrorCode::NotFound
                    && e.message@ == "no such local source"@
            },
        },
{
    if str_eq(id, "local") {
        return Err(ApiError::invalid_input("the default local library cannot be deleted"));
    }
    if find_local_source(config, id).is_none() {
        return Err(ApiError::not_found("no such local source"));
    }
    Ok(
        match config.active_source.local_library_id() {
            Some(active) => str_eq(active, id),
            None => false,
        },
    )
}

/// The libraries other than `id`.
pub open spec fn without_local(all: Seq<SavedLocalSource>, id: Seq<char>) -> Seq<SavedLocalSource>
    decreases all.len(),
{
    if all.len() == 0 {
        all
    } else {
        let rest = without_local(all.drop_last(), id);
        if all.last().id@ == id {
            rest
        } else {
            rest.push(all.last())
        }
    }
}

/// Forget a local library. The default library takes over if it was active.
pub fn remove_local_source(config: &mut AppConfig, id: &str)
    ensures
        *final(config) == (AppConfig {
            local_sources: final(config).local_sources,
            active_source: final(config).active_source,
            ..*old(config)
        }),
        final(config).local_sources@ == without_local(old(config).local_sources@, id@),
        final(config).active_source == if old(config).active_source matches Source::LocalLibrary(a)
            && a@ == id@ {
            Source::Local
        } else {
            old(config).active_source
        },
{
    let ghost all = config.local_sources@;
    let mut i: usize = 0;
    let ghost mut j: int = 0;
    assert(config.local_sources@ =~= without_local(all.take(0), id@) + all.skip(0));
    while i < config.local_sources.len()
        invariant
            0 <= j <= all.len(),
            i == without_local(all.take(j), id@).len(),
            config.local_sources@ == without_local(all.take(j), id@) + all.skip(j),
            *config == (AppConfig { local_sources: config.local_sources, ..*old(config) }),
        decreases config.local_sources.len() - i,
    {
        assert(config.local_sources@[i as int] == all[j]);
        assert(all.take(j + 1).drop_last() =~= all.take(j));
        if str_eq(config.local_sources[i].id.as_str(), id) {
            config.local_sources.remove(i);
            assert(config.local_sources@ =~= without_local(all.take(j + 1), id@) + all.skip(j + 1));
        } else {
            assert(config.local_sources@ =~= without_local(all.take(j + 1), id@) + all.skip(j + 1));
            i += 1;
        }
        proof {
            j = j + 1;
        }
    }
    assert(j == all.len()) by {
        if j < all.len() {
            assert(config.local_sources@.len() > i);
        }
    }
    assert(all.take(j) =~= all);
    assert(config.local_sources@ =~= without_local(all, id@));
    let was_active = match config.active_source.local_library_id() {
        Some(active) => str_eq(active, id),
        None => false,
    };
    if was_active {
        config.active_source = Source::Local;
    }
}

// ---------------------------------------------------------------- directories

/// Every directory must say something.
pub fn check_directories(directories: &Vec<String>) -> (r: Result<(), ApiError>)
    ensures
        r is Ok <==> !exists|i: int|
            0 <= i < directories.deep_view().len() && trimmed(#[trigger] directories.deep_view()[i]).len()
                == 0,
        r matches Err(e) ==> e.code == ErrorCode::InvalidInput && e.message@
            == "a source directory cannot be empty"@,
{
    if any_blank(directories) {
        return Err(ApiError::invalid_input("a source directory cannot be empty"));
    }
    Ok(())
}

/// The settings key a source's directories live under.
pub open spec fn directories_key_of(source: Source) -> Seq<char> {
    match source {
        Source::Local => "music_directory"@,
        Source::LocalLibrary(_) => "local_sources"@,
        Source::Server(_) => "server_folders"@,
    }
}

pub fn directories_key(source: &Source) -> (r: &'static str)
    ensures
        r@ == directories_key_of(*source),
{
    match source {
        Source::Local => "music_directory",
        Source::LocalLibrary(_) => "local_sources",
        Source::Server(_) => "server_folders",
    }
}

/// The position of the first folder selection for a server, or -1.
pub open spec fn folders_index(all: Seq<ServerFolders>, id: Seq<char>) -> int
    decreases all.len(),
{
    if all.len() == 0 {
        -1
    } else if all[0].server_id@ == id {
        0
    } else {
        let r = folders_index(all.drop_first(), id);
        if r < 0 {
            -1
        } else {
            r + 1
        }
    }
}

proof fn lemma_folders_index(all: Seq<ServerFolders>, id: Seq<char>, k: int)
    requires
        0 <= k <= all.len(),
        forall|j: int| 0 <= j < k ==> all[j].server_id@ != id,
        k < all.len() ==> all[k].server_id@ == id,
    ensures
        folders_index(all, id) == if k < all.len() {
            k
        } else {
            -1
        },
    decreases all.len(),
{
    if all.len() > 0 && k > 0 {
        let rest = all.drop_first();
        assert forall|j: int| 0 <= j < k - 1 implies rest[j].server_id@ != id by {
            assert(rest[j] == all[j + 1]);
        }
        if k < all.len() {
            assert(rest[k - 1] == all[k]);
        }
        lemma_folders_index(rest, id, k - 1);
    }
}

/// Select folders on a server: the selection replaces the server's, or is
/// added after the others.
pub fn set_folders_for(config: &mut AppConfig, server_id: &str, folders: Vec<String>)
    ensures
        *final(config) == (AppConfig { server_folders: final(config).server_folders, ..*old(config) }),
        ({
            let k = folders_index(old(config).server_folders@, server_id@);
            if k >= 0 {
                final(config).server_folders@ == old(config).server_folders@.update(
                    k,
                    final(config).server_folders@[k],
                ) && final(config).server_folders@[k].server_id == old(
                    config,
                ).server_folders@[k].server_id && final(config).server_folders@[k].folders
                    == folders
            } else {
                final(config).server_folders@.len() == old(config).server_folders@.len() + 1
                    && final(config).server_folders@.drop_last() == old(config).server_folders@
                    && final(config).server_folders@.last().server_id@ == server_id@
                    && final(config).server_folders@.last().folders == folders
            }
        }),
{
    let ghost all = config.server_folders@;
    let mut i: usize = 0;
    while i < config.server_folders.len()
        invariant
            i <= config.server_folders.len(),
            config.server_folders@ == all,
            all == old(config).server_folders@,
            *config == (AppConfig { server_folders: config.server_folders, ..*old(config) }),
            forall|j: int| 0 <= j < i ==> all[j].server_id@ != server_id@,
        decreases config.server_folders.len() - i,
    {
        if str_eq(config.server_folders[i].server_id.as_str(), server_id) {
            proof {
                lemma_folders_index(all, server_id@, i as int);
            }
            let entry = ServerFolders { server_id: config.server_folders[i].server_id.clone(), folders };
            config.server_folders.set(i, entry);
            return;
        }
        i += 1;
    }
    proof {
        lemma_folders_index(all, server_id@, all.len() as int);
    }
    config.server_folders.push(ServerFolders { server_id: owned(server_id), folders });
    assert(config.server_folders@.drop_last() =~= all);
}

fn set_library_directories(config: &mut AppConfig, local_id: &str, directories: Vec<String>) -> (r:
    Result<(), ApiError>)
    ensures
        ({
            let k = local_index(old(config).local_sources@, local_id@);
            if k >= 0 {
                &&& r is Ok
                &&& *final(config) == (AppConfig {
                    local_sources: final(config).local_sources,
                    ..*old(config)
                })
                &&& final(config).local_sources@ == old(config).local_sources@.update(
                    k,
                    SavedLocalSource { directories, ..old(config).local_sources@[k] },
                )
            } else {
                &&& *final(config) == *old(config)
                &&& r matches Err(e) && e.code == ErrorCode::NotFound && e.message@
                    == "no such local source"@
            }
        }),
{
    let ghost all = config.local_sources@;
    let mut i: usize = 0;
    while i < config.local_sources.len()
        invariant
            i <= config.local_sources.len(),
            config.local_sources@ == all,
            all == old(config).local_sources@,
            *config == *old(config),
            forall|j: int| 0 <= j < i ==> all[j].id@ != local_id@,
        decreases config.local_sources.len() - i,
    {
        if str_eq(config.local_sources[i].id.as_str(), local_id) {
            proof {
                lemma_local_index(all, local_id@, i as int);
            }
            let current = &config.local_sources[i];
            let updated = SavedLocalSource {
                id: current.id.clone(),
                name: current.name.clone(),
                directories,
            };
            config.local_sources.set(i, updated);
            return Ok(());
        }
        i += 1;
    }
    proof {
        lemma_local_index(all, local_id@, all.len() as int);
    }
    Err(ApiError::not_found("no such local source"))
}

/// Replace a source's scan roots, or a server's selected folders. A named
/// library or a server must exist.
pub fn apply_source_directories(config: &mut AppConfig, source: Source, directories: Vec<String>) -> (r:
    Result<(), ApiError>)
    ensures
        match source {
            Source::Local => r is Ok && *final(config) == (AppConfig {
                music_directory: directories,
                ..*old(config)
            }),
            Source::LocalLibrary(id) => {
                let k = local_index(old(config).local_sources@, id@);
                if k >= 0 {
                    &&& r is Ok
                    &&& *final(config) == (AppConfig {
                        local_sources: final(config).local_sources,
                        ..*old(config)
                    })
                    &&& final(config).local_sources@ == old(config).local_sources@.update(
                        k,
                        SavedLocalSource { directories, ..old(config).local_sources@[k] },
                    )
                } else {
                    &&& *final(config) == *old(config)
                    &&& r matches Err(e) && e.code == ErrorCode::NotFound && e.message@
                        == "no such local source"@
                }
            },
            Source::Server(id) => if crate::config_service::saved_server(
                old(config).servers@,
                id@,
            ) is Some {
                &&& r is Ok
                &&& *final(config) == (AppConfig {
                    server_folders: final(config).server_folders,
                    ..*old(config)
                })
            } else {
                &&& *final(config) == *old(config)
                &&& r matches Err(e) && e.code == ErrorCode::NotFound && e.message@
                    == "no such server"@
            },
        },
{
    match source {
        Source::Local => {
            config.music_directory = directories;
            Ok(())
        },
        Source::LocalLibrary(local_id) => set_library_directories(config, local_id.as_str(), directories),
        Source::Server(server_id) => {
            if crate::config_service::find_saved_server(config, server_id.as_str()).is_none() {
                return Err(ApiError::not_found("no such server"));
            }
            set_folders_for(config, server_id.as_str(), directories);
            Ok(())
        },
    }
}

// ---------------------------------------------------------------- servers

/// The text a problem's label carries.
pub open spec fn label_text(p: ProblemV) -> Seq<char> {
    match p.label {
        TextV::Key(k) => k,
        TextV::Literal(t) => t,
    }
}

/// Which service a draft names, refused as invalid input if it is not one
/// this daemon has.
pub fn drafted_service(draft: &ServerDraft) -> (r: Result<MusicService, ApiError>)
    ensures
        match r {
            Ok(s) => crate::config::service_named(draft.service@) == Some(s),
            Err(e) => crate::config::service_named(draft.service@) is None && e.code
                == ErrorCode::InvalidInput && e.message@ == "no such service"@,
        },
{
    match MusicService::from_id(draft.service.as_str()) {
        Some(s) => Ok(s),
        None => Err(ApiError::invalid_input("no such service")),
    }
}

/// What a draft would do if it were saved, and what is wrong with it.
pub fn check_server_draft(draft: &ServerDraft) -> (r: Result<DraftCheck, ApiError>)
    ensures
        match r {
            Ok(c) => crate::config::service_named(draft.service@) matches Some(s) && c.sign_in
                == sign_in_needed(s, crate::services::draft_is_anonymous(draft.values.deep_view()))
                && c.problems.deep_view() == draft_problems(s, draft.deep_view()),
            Err(e) => crate::config::service_named(draft.service@) is None && e.code
                == ErrorCode::InvalidInput,
        },
{
    let service = drafted_service(draft)?;
    let (sign_in, problems) = check(service, draft);
    Ok(DraftCheck { sign_in, problems })
}

/// Why saving a draft under `id` is refused, if it is.
pub open spec fn server_refusal(draft: crate::sources::ServerDraftV, id: Seq<char>) -> Option<Seq<char>> {
    match crate::config::service_named(draft.service) {
        None => Some("no such service"@),
        Some(s) => {
            let problems = draft_problems(s, draft);
            if problems.len() > 0 {
                Some(label_text(problems[0]))
            } else if reserved_id(id) {
                Some("that id is reserved for local sources"@)
            } else {
                None
            }
        },
    }
}

/// The secret a draft's form carries: its token, trimmed, if not blank.
pub open spec fn draft_secret(secrets: Seq<FieldValueV>) -> Option<Seq<char>> {
    let t = trimmed_answer(secrets, TOKEN@);
    if t.len() > 0 {
        Some(t)
    } else {
        None
    }
}

/// `r` is what a draft makes under `id`: the stored row, with the secret it
/// carries, or the refusal its answers earn.
pub open spec fn made_from_draft(
    draft: ServerDraft,
    id: Seq<char>,
    r: Result<(SavedServer, Option<String>), ApiError>,
) -> bool {
    match r {
        Ok((saved, secret)) => {
            &&& server_refusal(draft.deep_view(), id) is None
            &&& crate::config::service_named(draft.service@) == Some(saved.service)
            &&& saved.id@ == id
            &&& saved.name@ == trimmed(draft.name@)
            &&& saved.url@ == crate::services::draft_address(
                saved.service,
                draft.values.deep_view(),
            )
            &&& saved.yt_anonymous == crate::services::draft_is_anonymous(
                draft.values.deep_view(),
            )
            &&& saved.yt_browser == crate::services::draft_browser(draft.values.deep_view())
            &&& saved.apple_music_storefront@ == if saved.service
                == MusicService::AppleMusic {
                crate::services::nonblank_or(draft.values.deep_view(), crate::services::STOREFRONT@, "us"@)
            } else {
                "us"@
            }
            &&& saved.apple_music_language@ == if saved.service == MusicService::AppleMusic {
                crate::services::nonblank_or(draft.values.deep_view(), crate::services::LANGUAGE@, "en"@)
            } else {
                "en"@
            }
            &&& secret.deep_view() == draft_secret(draft.secrets.deep_view())
        },
        Err(e) => e.code == ErrorCode::InvalidInput && server_refusal(
            draft.deep_view(),
            id,
        ) == Some(e.message@),
    }
}

/// The row a checked draft becomes under `id`, and the secret it carries.
/// The draft's own id wins over `fresh_id`.
pub fn checked_server(draft: &ServerDraft, fresh_id: String) -> (r: Result<
    (SavedServer, Option<String>),
    ApiError,
>)
    ensures
        made_from_draft(
            *draft,
            match draft.id {
                Some(i) => i@,
                None => fresh_id@,
            },
            r,
        ),
{
    let service = drafted_service(draft)?;
    let (_, problems) = check(service, draft);
    if problems.len() > 0 {
        return Err(ApiError::invalid_input(problem_text(&problems[0]).as_str()));
    }
    let id = match &draft.id {
        Some(i) => i.clone(),
        None => fresh_id,
    };
    validate_server_id(id.as_str())?;
    let mut saved = SavedServer::new(String::new(), String::new(), service);
    saved.id = id;
    crate::services::apply(service, draft, &mut saved);
    let secret = match value_of(draft.secrets.as_slice(), TOKEN) {
        Some(t) => {
            let t = trim(t);
            if t.as_str().is_empty() {
                None
            } else {
                Some(t)
            }
        },
        None => None,
    };
    Ok((saved, secret))
}

/// The row a draft becomes; a draft without an id gets a fresh random one,
/// and is refused as an internal error where the operating system gives no
/// random bytes for it.
pub fn server_from_draft(draft: &ServerDraft) -> (r: Result<(SavedServer, Option<String>), ApiError>)
    ensures
        match draft.id {
            Some(i) => made_from_draft(*draft, i@, r),
            None => (r matches Err(e) && e.code == ErrorCode::Internal && e.message@
                == "no random bytes for a new id"@) || exists|b: Seq<u8>|
                b.len() == 16 && made_from_draft(*draft, uuid_v4_text(b), r),
        },
        draft.id is None ==> (r matches Ok((saved, _)) ==> saved.id@.len() == 36),
        draft.id is Some ==> (r is Ok <==> server_refusal(draft.deep_view(), draft.id->0@) is None),
        draft.id is None ==> (r is Ok ==> (crate::config::service_named(draft.service@) matches Some(
            s,
        ) && draft_problems(s, draft.deep_view()).len() == 0)),
        draft.id is None && (crate::config::service_named(draft.service@) matches Some(s)
            && draft_problems(s, draft.deep_view()).len() == 0) ==> (r is Ok || (r matches Err(e)
            && e.code == ErrorCode::Internal && e.message@ == "no random bytes for a new id"@)),
{
    let ghost drawn: Seq<u8> = Seq::empty();
    let fresh = match &draft.id {
        Some(_) => String::new(),
        None => match random_bytes() {
            Some(bytes) => {
                proof {
                    drawn = bytes@;
                }
                uuid_from(bytes)
            },
            None => {
                return Err(ApiError::internal("no random bytes for a new id"));
            },
        },
    };
    let r = checked_server(draft, fresh);
    proof {
        if draft.id is None {
            assert(drawn.len() == 16 && fresh@ == uuid_v4_text(drawn));
            if let Some(s) = crate::config::service_named(draft.service@) {
                if draft_problems(s, draft.deep_view()).len() == 0 {
                    assert(!reserved_id(fresh@)) by {
                        reveal_strlit("local");
                        reveal_strlit("local:");
                        assert(uuid_char(fresh@[0]));
                        assert(fresh@ != "local"@);
                        assert(fresh@.take(6)[0] != "local:"@[0]);
                    }
                }
            }
        }
    }
    r
}

/// Whether a saved row points the active server somewhere else: another
/// service or another address. What is loaded from it then has to stop.
pub open spec fn moves_active_backend(config: AppConfig, saved: SavedServer) -> bool {
    &&& config.active_source matches Source::Server(a) && a@ == saved.id@
    &&& config.server matches Some(s) && (s.service != saved.service || s.url@ != saved.url@)
}

pub fn backend_changed(config: &AppConfig, saved: &SavedServer) -> (r: bool)
    ensures
        r == moves_active_backend(*config, *saved),
{
    let active = match config.active_source.server_id() {
        Some(id) => str_eq(id, saved.id.as_str()),
        None => false,
    };
    active && match &config.server {
        Some(server) => server.service != saved.service || !str_eq(
            server.url.as_str(),
            saved.url.as_str(),
        ),
        None => false,
    }
}

/// The position of the first saved server with this id, or -1.
pub open spec fn server_index(all: Seq<SavedServer>, id: Seq<char>) -> int
    decreases all.len(),
{
    if all.len() == 0 {
        -1
    } else if all[0].id@ == id {
        0
    } else {
        let r = server_index(all.drop_first(), id);
        if r < 0 {
            -1
        } else {
            r + 1
        }
    }
}

proof fn lemma_server_index(all: Seq<SavedServer>, id: Seq<char>, k: int)
    requires
        0 <= k <= all.len(),
        forall|j: int| 0 <= j < k ==> all[j].id@ != id,
        k < all.len() ==> all[k].id@ == id,
    ensures
        server_index(all, id) == if k < all.len() {
            k
        } else {
            -1
        },
    decreases all.len(),
{
    if all.len() > 0 && k > 0 {
        let rest = all.drop_first();
        assert forall|j: int| 0 <= j < k - 1 implies rest[j].id@ != id by {
            assert(rest[j] == all[j + 1]);
        }
        if k < all.len() {
            assert(rest[k - 1] == all[k]);
        }
        lemma_server_index(rest, id, k - 1);
    }
}

/// The saved servers with `saved` stored: it replaces the row with its id, or
/// is added after the others.
pub open spec fn with_server(all: Seq<SavedServer>, saved: SavedServer) -> Seq<SavedServer> {
    let k = server_index(all, saved.id@);
    if k >= 0 {
        all.update(k, saved)
    } else {
        all.push(saved)
    }
}

/// Replace or add a saved row.
fn upsert_saved(servers: &mut Vec<SavedServer>, saved: SavedServer)
    ensures
        final(servers)@ == with_server(old(servers)@, saved),
{
    let ghost all = servers@;
    let mut i: usize = 0;
    while i < servers.len()
        invariant
            i <= servers.len(),
            servers@ == all,
            all == old(servers)@,
            forall|j: int| 0 <= j < i ==> all[j].id@ != saved.id@,
        decreases servers.len() - i,
    {
        if str_eq(servers[i].id.as_str(), saved.id.as_str()) {
            proof {
                lemma_server_index(all, saved.id@, i as int);
            }
            servers.set(i, saved);
            return;
        }
        i += 1;
    }
    proof {
        lemma_server_index(all, saved.id@, all.len() as int);
    }
    servers.push(saved);
}

/// Store a server's row. Where it is the active server, the live copy takes
/// the row's settings and keeps its credentials.
pub fn store_server(config: &mut AppConfig, saved: SavedServer)
    ensures
        *final(config) == (AppConfig {
            servers: final(config).servers,
            server: final(config).server,
            ..*old(config)
        }),
        final(config).servers@ == with_server(old(config).servers@, saved),
        if old(config).active_source matches Source::Server(a) && a@ == saved.id@ && old(
            config,
        ).server is Some {
            final(config).server == Some(
                MusicServer {
                    name: saved.name,
                    url: saved.url,
                    service: saved.service,
                    yt_browser: saved.yt_browser,
                    yt_anonymous: saved.yt_anonymous,
                    apple_music_storefront: saved.apple_music_storefront,
                    apple_music_language: saved.apple_music_language,
                    ..old(config).server->0
                },
            )
        } else {
            final(config).server == old(config).server
        },
{
    let active = match config.active_source.server_id() {
        Some(id) => str_eq(id, saved.id.as_str()),
        None => false,
    };
    if active {
        if let Some(server) = &config.server {
            let live = MusicServer {
                id: match &server.id {
                    Some(i) => Some(i.clone()),
                    None => None,
                },
                name: saved.name.clone(),
                url: saved.url.clone(),
                service: saved.service,
                access_token: match &server.access_token {
                    Some(t) => Some(t.clone()),
                    None => None,
                },
                user_id: match &server.user_id {
                    Some(u) => Some(u.clone()),
                    None => None,
                },
                yt_browser: saved.yt_browser,
                yt_anonymous: saved.yt_anonymous,
                apple_music_storefront: saved.apple_music_storefront.clone(),
                apple_music_language: saved.apple_music_language.clone(),
            };
            config.server = Some(live);
        }
    }
    upsert_saved(&mut config.servers, saved);
}

// ---------------------------------------------------------------- a server's options

/// The settings keys answering a server's options writes: its row, and the
/// settings keys some of its options live under. An unknown server is not
/// found.
pub fn source_settings_keys(config: &AppConfig, id: &str, values: &[FieldValue]) -> (r: Result<
    Vec<String>,
    ApiError,
>)
    ensures
        match r {
            Ok(keys) => crate::config_service::saved_server(config.servers@, id@) matches Some(s)
                && keys.deep_view() == seq!["servers"@] + config_key_list(
                s.service,
                values.deep_view(),
            ),
            Err(e) => crate::config_service::saved_server(config.servers@, id@) is None && e.code
                == ErrorCode::NotFound && e.message@ == "no such server"@,
        },
{
    let existing = match crate::config_service::find_saved_server(config, id) {
        Some(s) => s,
        None => {
            return Err(ApiError::not_found("no such server"));
        },
    };
    let mut keys: Vec<String> = Vec::new();
    push_deep(&mut keys, owned("servers"));
    let extra = config_keys(existing, values);
    let mut i: usize = 0;
    let ghost want = config_key_list(existing.service, values.deep_view());
    while i < extra.len()
        invariant
            i <= extra.len(),
            extra@.map_values(|k: &str| k@) == want,
            keys.deep_view() == seq!["servers"@] + want.take(i as int),
        decreases extra.len() - i,
    {
        push_deep(&mut keys, owned(extra[i]));
        assert(keys.deep_view() =~= seq!["servers"@] + want.take(i + 1));
        i += 1;
    }
    assert(want.take(extra.len() as int) =~= want);
    Ok(keys)
}

/// Answer a server's own options. An absent key is left alone; the Spotify
/// ones live on the settings rather than the row. Where the server is the
/// active one, the live copy takes the new browser and Apple Music options.
/// An unknown server changes nothing.
pub fn apply_source_settings(config: &mut AppConfig, id: &str, values: &[FieldValue])
    ensures
        crate::config_service::saved_server(old(config).servers@, id@) is None ==> *final(config)
            == *old(config),
        ({
            let k = server_index(old(config).servers@, id@);
            k >= 0 ==> {
                let before = old(config).servers@[k];
                let after = final(config).servers@[k];
                &&& final(config).servers@.len() == old(config).servers@.len()
                &&& forall|j: int|
                    0 <= j < old(config).servers@.len() && j != k ==> final(config).servers@[j]
                        == old(config).servers@[j]
                &&& after.id == before.id && after.name == before.name && after.url == before.url
                    && after.service == before.service && after.yt_anonymous == before.yt_anonymous
                &&& after.yt_browser == match answer_of(values.deep_view(), crate::services::BROWSER@) {
                    Some(b) => browser_named(b),
                    None => before.yt_browser,
                }
                &&& after.apple_music_storefront@ == crate::services::nonblank_or(
                    values.deep_view(),
                    crate::services::STOREFRONT@,
                    before.apple_music_storefront@,
                )
                &&& after.apple_music_language@ == crate::services::nonblank_or(
                    values.deep_view(),
                    crate::services::LANGUAGE@,
                    before.apple_music_language@,
                )
            }
        }),
{
    let index = match server_position(&config.servers, id) {
        Some(i) => i,
        None => {
            return;
        },
    };
    let mut saved = config.servers[index].duplicate();
    crate::services::apply_server_settings(values, &mut saved);
    crate::services::apply_config_settings(saved.service, values, config);
    let active = match config.active_source.server_id() {
        Some(active) => str_eq(active, saved.id.as_str()),
        None => false,
    };
    if active {
        if let Some(server) = &config.server {
            let live = MusicServer {
                id: match &server.id {
                    Some(i) => Some(i.clone()),
                    None => None,
                },
                name: server.name.clone(),
                url: server.url.clone(),
                service: server.service,
                access_token: match &server.access_token {
                    Some(t) => Some(t.clone()),
                    None => None,
                },
                user_id: match &server.user_id {
                    Some(u) => Some(u.clone()),
                    None => None,
                },
                yt_browser: saved.yt_browser,
                yt_anonymous: server.yt_anonymous,
                apple_music_storefront: saved.apple_music_storefront.clone(),
                apple_music_language: saved.apple_music_language.clone(),
            };
            config.server = Some(live);
        }
    }
    config.servers.set(index, saved);
}

/// Where the first saved server with this id is.
fn server_position(servers: &Vec<SavedServer>, id: &str) -> (r: Option<usize>)
    ensures
        match r {
            Some(i) => i < servers@.len() && server_index(servers@, id@) == i
                && crate::config_service::saved_server(servers@, id@) == Some(servers@[i as int]),
            None => server_index(servers@, id@) == -1 && crate::config_service::saved_server(
                servers@,
                id@,
            ) is None,
        },
{
    let mut i: usize = 0;
    while i < servers.len()
        invariant
            i <= servers.len(),
            forall|j: int| 0 <= j < i ==> servers@[j].id@ != id@,
        decreases servers.len() - i,
    {
        if str_eq(servers[i].id.as_str(), id) {
            proof {
                lemma_server_index(servers@, id@, i as int);
                lemma_saved_server_at(servers@, id@, i as int);
            }
            return Some(i);
        }
        i += 1;
    }
    proof {
        lemma_server_index(servers@, id@, servers@.len() as int);
        lemma_saved_server_absent(servers@, id@);
    }
    None
}

proof fn lemma_saved_server_at(all: Seq<SavedServer>, id: Seq<char>, k: int)
    requires
        0 <= k < all.len(),
        forall|j: int| 0 <= j < k ==> all[j].id@ != id,
        all[k].id@ == id,
    ensures
        crate::config_service::saved_server(all, id) == Some(all[k]),
    decreases all.len(),
{
    if k > 0 {
        let rest = all.drop_first();
        assert forall|j: int| 0 <= j < k - 1 implies rest[j].id@ != id by {
            assert(rest[j] == all[j + 1]);
        }
        assert(rest[k - 1] == all[k]);
        lemma_saved_server_at(rest, id, k - 1);
    }
}

proof fn lemma_saved_server_absent(all: Seq<SavedServer>, id: Seq<char>)
    requires
        forall|j: int| 0 <= j < all.len() ==> all[j].id@ != id,
    ensures
        crate::config_service::saved_server(all, id) is None,
    decreases all.len(),
{
    if all.len() > 0 {
        let rest = all.drop_first();
        assert forall|j: int| 0 <= j < rest.len() implies rest[j].id@ != id by {
            assert(rest[j] == all[j + 1]);
        }
        lemma_saved_server_absent(rest, id);
    }
}

// ---------------------------------------------------------------- removing a server

/// The saved servers other than `id`.
pub open spec fn without_server(all: Seq<SavedServer>, id: Seq<char>) -> Seq<SavedServer>
    decreases all.len(),
{
    if all.len() == 0 {
        all
    } else {
        let rest = without_server(all.drop_last(), id);
        if all.last().id@ == id {
            rest
        } else {
            rest.push(all.last())
        }
    }
}

/// Forget a server. Where it was the active one, the default library takes
/// over. Answers its service, if it was configured, and whether it was
/// active.
pub fn delete_server(config: &mut AppConfig, id: &str) -> (r: (Option<MusicService>, bool))
    ensures
        r.0 == match crate::config_service::saved_server(old(config).servers@, id@) {
            Some(s) => Some(s.service),
            None => None,
        },
        r.1 == (old(config).active_source matches Source::Server(a) && a@ == id@),
        final(config).servers@ == without_server(old(config).servers@, id@),
        if r.1 {
            *final(config) == (AppConfig {
                servers: final(config).servers,
                active_source: Source::Local,
                server: None,
                ..*old(config)
            })
        } else {
            *final(config) == (AppConfig { servers: final(config).servers, ..*old(config) })
        },
{
    let service = match crate::config_service::find_saved_server(config, id) {
        Some(s) => Some(s.service),
        None => None,
    };
    let was_active = match config.active_source.server_id() {
        Some(active) => str_eq(active, id),
        None => false,
    };
    let ghost all = config.servers@;
    let mut i: usize = 0;
    let ghost mut j: int = 0;
    assert(config.servers@ =~= without_server(all.take(0), id@) + all.skip(0));
    while i < config.servers.len()
        invariant
            0 <= j <= all.len(),
            i == without_server(all.take(j), id@).len(),
            config.servers@ == without_server(all.take(j), id@) + all.skip(j),
            *config == (AppConfig { servers: config.servers, ..*old(config) }),
        decreases config.servers.len() - i,
    {
        assert(config.servers@[i as int] == all[j]);
        assert(all.take(j + 1).drop_last() =~= all.take(j));
        if str_eq(config.servers[i].id.as_str(), id) {
            config.servers.remove(i);
            assert(config.servers@ =~= without_server(all.take(j + 1), id@) + all.skip(j + 1));
        } else {
            assert(config.servers@ =~= without_server(all.take(j + 1), id@) + all.skip(j + 1));
            i += 1;
        }
        proof {
            j = j + 1;
        }
    }
    assert(j == all.len()) by {
        if j < all.len() {
            assert(config.servers@.len() > i);
        }
    }
    assert(all.take(j) =~= all);
    assert(config.servers@ =~= without_server(all, id@));
    if was_active {
        config.clear_active_server();
    }
    (service, was_active)
}

/// Whether a service keeps a browser profile of its own, which goes with the
/// server rather than being left behind holding a session.
pub open spec fn has_signin_profile(service: MusicService) -> bool {
    service == MusicService::YtMusic || service == MusicService::SoundCloud || service
        == MusicService::AppleMusic
}

pub fn keeps_signin_profile(service: Option<MusicService>) -> (r: bool)
    ensures
        r == (service matches Some(s) && has_signin_profile(s)),
{
    match service {
        Some(MusicService::YtMusic) | Some(MusicService::SoundCloud) | Some(
            MusicService::AppleMusic,
        ) => true,
        _ => false,
    }
}

// ---------------------------------------------------------------- credentials

/// A secret obtained elsewhere must say something.
pub fn check_provision(provision: &CredentialProvision) -> (r: Result<(), ApiError>)
    ensures
        r is Ok <==> provision.secret@.len() > 0,
        r matches Err(e) ==> e.code == ErrorCode::InvalidInput && e.message@
            == "the credential is empty"@,
{
    if provision.secret.as_str().is_empty() {
        return Err(ApiError::invalid_input("the credential is empty"));
    }
    Ok(())
}

/// `server` holding what `provision` brings: its secret as the token, its
/// user, and the browser it names, where it names one.
pub open spec fn provisioned_with(server: MusicServer, provision: CredentialProvision) -> MusicServer {
    MusicServer {
        access_token: Some(provision.secret),
        user_id: provision.user_id,
        yt_browser: match provision.browser {
            Some(b) => browser_named(b@),
            None => server.yt_browser,
        },
        ..server
    }
}

/// The server with a provisioned secret: its token and user, and the browser
/// it signed in with where one is named, which must be one the daemon knows.
pub fn provisioned(server: MusicServer, provision: CredentialProvision) -> (r: Result<
    MusicServer,
    ApiError,
>)
    ensures
        match provision.browser {
            Some(b) if browser_named(b@) is None => r matches Err(e) && e.code
                == ErrorCode::InvalidInput && e.message@ == "no such browser"@,
            _ => r == Ok::<MusicServer, ApiError>(provisioned_with(server, provision)),
        },
{
    let mut server = server;
    if let Some(b) = &provision.browser {
        match Browser::from_id(b.as_str()) {
            Some(browser) => {
                server.yt_browser = Some(browser);
            },
            None => {
                return Err(ApiError::invalid_input("no such browser"));
            },
        }
    }
    server.access_token = Some(provision.secret);
    server.user_id = provision.user_id;
    Ok(server)
}

/// A provisioned secret never reaches the answer: two provisions that differ
/// only in their secret make servers that are described alike.
pub proof fn provisioned_secret_is_not_described(
    current: AppConfig,
    resolved: AppConfig,
    server: MusicServer,
    first: CredentialProvision,
    second: CredentialProvision,
    caps: Capabilities,
    a: SourceInfo,
    b: SourceInfo,
)
    requires
        second == (CredentialProvision { secret: second.secret, ..first }),
        describes(
            current,
            AppConfig { server: Some(provisioned_with(server, first)), ..resolved },
            caps,
            a,
        ),
        describes(
            current,
            AppConfig { server: Some(provisioned_with(server, second)), ..resolved },
            caps,
            b,
        ),
    ensures
        described_alike(a, b),
{
    let shared = MusicServer { access_token: None, ..provisioned_with(server, first) };
    assert(provisioned_with(server, first) == MusicServer { access_token: Some(first.secret), ..shared });
    assert(provisioned_with(server, second) == MusicServer { access_token: Some(second.secret), ..shared });
    secret_is_not_described(current, resolved, shared, first.secret, second.secret, caps, a, b);
}

/// `saved` is the stored row of `server`: everything but its credentials.
pub open spec fn row_of(saved: SavedServer, server: MusicServer) -> bool {
    &&& saved.id@ == match server.id {
        Some(id) => id@,
        None => Seq::<char>::empty(),
    }
    &&& saved.name == server.name && saved.url == server.url && saved.service == server.service
    &&& saved.yt_browser == server.yt_browser && saved.yt_anonymous == server.yt_anonymous
    &&& saved.apple_music_storefront == server.apple_music_storefront
    &&& saved.apple_music_language == server.apple_music_language
}

/// Keep a provisioned server: its row is stored, and where it is the active
/// one the live copy becomes it.
pub fn store_provisioned(config: &mut AppConfig, server: MusicServer, active: bool)
    ensures
        *final(config) == (AppConfig {
            servers: final(config).servers,
            server: final(config).server,
            ..*old(config)
        }),
        final(config).server == if active {
            Some(server)
        } else {
            old(config).server
        },
        exists|saved: SavedServer|
            row_of(saved, server) && final(config).servers@ == with_server(
                old(config).servers@,
                saved,
            ),
{
    let saved = SavedServer::from_music_server(&server);
    let ghost row = saved;
    upsert_saved(&mut config.servers, saved);
    assert(row_of(row, server));
    if active {
        config.server = Some(server);
    }
}

/// Whether `id` is the active server.
pub fn is_active_server(config: &AppConfig, id: &str) -> (r: bool)
    ensures
        r == (config.active_source matches Source::Server(a) && a@ == id@),
{
    match config.active_source.server_id() {
        Some(active) => str_eq(active, id),
        None => false,
    }
}

/// A username/password sign-in needs both.
pub fn check_login(request: &SourceLoginRequest) -> (r: Result<(), ApiError>)
    ensures
        r is Ok <==> (trimmed(request.username@).len() > 0 && request.password@.len() > 0),
        r matches Err(e) ==> e.code == ErrorCode::InvalidInput && e.message@
            == "a username and password are required"@,
{
    if is_blank(request.username.as_str()) || request.password.as_str().is_empty() {
        return Err(ApiError::invalid_input("a username and password are required"));
    }
    Ok(())
}

/// A server with its credentials cleared, and whether it had any.
pub fn cleared(server: MusicServer) -> (r: (MusicServer, bool))
    ensures
        r.0 == (MusicServer { access_token: None, user_id: None, ..server }),
        r.1 == (server.access_token is Some || server.user_id is Some),
{
    let had = server.access_token.is_some() || server.user_id.is_some();
    let mut server = server;
    server.access_token = None;
    server.user_id = None;
    (server, had)
}

/// The browser sign-in a service runs.
#[derive(Debug, Clone, Copy, PartialEq, Eq, Structural)]
pub enum SignInFlow {
    /// Resume stored cookies or the isolated profile, else sign in afresh.
    YtMusic,
    SoundCloud,
    AppleMusic,
    /// The PKCE flow, whose client id is the row's address.
    Spotify,
}

/// Which browser sign-in a service runs; the others sign in with a username
/// and a password.
pub fn signin_flow(service: MusicService) -> (r: Result<SignInFlow, ApiError>)
    ensures
        match service {
            MusicService::YtMusic => r == Ok::<SignInFlow, ApiError>(SignInFlow::YtMusic),
            MusicService::SoundCloud => r == Ok::<SignInFlow, ApiError>(SignInFlow::SoundCloud),
            MusicService::AppleMusic => r == Ok::<SignInFlow, ApiError>(SignInFlow::AppleMusic),
            MusicService::Spotify => r == Ok::<SignInFlow, ApiError>(SignInFlow::Spotify),
            _ => r matches Err(e) && e.code == ErrorCode::Unsupported && e.message@
                == "this source signs in with a username and password"@,
        },
{
    match service {
        MusicService::YtMusic => Ok(SignInFlow::YtMusic),
        MusicService::SoundCloud => Ok(SignInFlow::SoundCloud),
        MusicService::AppleMusic => Ok(SignInFlow::AppleMusic),
        MusicService::Spotify => Ok(SignInFlow::Spotify),
        _ => Err(ApiError::unsupported("this source signs in with a username and password")),
    }
}

/// The browser a sign-in drives: the server's own, else Chrome.
pub fn signin_browser(server: &MusicServer) -> (r: Browser)
    ensures
        r == match server.yt_browser {
            Some(b) => b,
            None => Browser::Chrome,
        },
{
    match server.yt_browser {
        Some(b) => b,
        None => Browser::Chrome,
    }
}

/// What browsing a server's folders needs: a folder tree, and a user and a
/// secret to ask with.
pub fn browse_credentials<'a>(server: &'a MusicServer, caps: Capabilities) -> (r: Result<
    (&'a str, &'a str),
    ApiError,
>)
    ensures
        match r {
            Ok((user, secret)) => {
                &&& caps.browse_folders
                &&& server.user_id matches Some(u) && u@ == user@
                &&& server.access_token matches Some(t) && t@ == secret@
            },
            Err(e) => if !caps.browse_folders {
                e.code == ErrorCode::Unsupported && e.message@
                    == "this source's library is not a folder tree"@
            } else {
                (server.user_id is None || server.access_token is None) && e.code
                    == ErrorCode::SourceAuthExpired && e.message@ == "not signed in"@
            },
        },
{
    if !caps.browse_folders {
        return Err(ApiError::unsupported("this source's library is not a folder tree"));
    }
    let user = match &server.user_id {
        Some(u) => u.as_str(),
        None => {
            return Err(ApiError::new(ErrorCode::SourceAuthExpired, "not signed in"));
        },
    };
    let secret = match &server.access_token {
        Some(t) => t.as_str(),
        None => {
            return Err(ApiError::new(ErrorCode::SourceAuthExpired, "not signed in"));
        },
    };
    Ok((user, secret))
}

// ---------------------------------------------------------------- keeping sessions alive

/// How many upkeep ticks pass between Spotify token refreshes; YouTube Music
/// cookies rotate on every tick.
pub const SPOTIFY_EVERY: u32 = 6;

/// Counts upkeep ticks towards the next Spotify refresh.
pub struct UpkeepClock {
    pub since_spotify: u32,
}

impl UpkeepClock {
    pub fn new() -> (r: UpkeepClock)
        ensures
            r.since_spotify == 0,
    {
        UpkeepClock { since_spotify: 0 }
    }

    /// One tick. Answers whether Spotify's token is due a refresh now.
    pub fn tick(&mut self) -> (r: bool)
        requires
            old(self).since_spotify < SPOTIFY_EVERY,
        ensures
            r == (old(self).since_spotify + 1 >= SPOTIFY_EVERY),
            final(self).since_spotify == if r {
                0
            } else {
                old(self).since_spotify + 1
            },
            final(self).since_spotify < SPOTIFY_EVERY,
    {
        self.since_spotify = self.since_spotify + 1;
        if self.since_spotify >= SPOTIFY_EVERY {
            self.since_spotify = 0;
            true
        } else {
            false
        }
    }
}

/// The active server's token and id, where the active server is of this
/// service and holds one: what a keepalive works on.
pub fn upkeep_target(config: &AppConfig, service: MusicService) -> (r: Option<(String, String)>)
    ensures
        match r {
            Some((token, id)) => {
                &&& config.server matches Some(s) && s.service == service && s.access_token == Some(
                    token,
                )
                &&& config.active_source matches Source::Server(a) && a == id
            },
            None => !(config.server matches Some(s) && s.service == service
                && s.access_token is Some && config.active_source is Server),
        },
{
    let server = match &config.server {
        Some(s) => s,
        None => {
            return None;
        },
    };
    if server.service != service {
        return None;
    }
    match (&server.access_token, &config.active_source) {
        (Some(token), Source::Server(id)) => Some((token.clone(), id.clone())),
        _ => None,
    }
}

} // verus!
