//! The settings the daemon's decisions read: which services and browsers
//! exist, what a configured server holds, and which source is active.

use vstd::prelude::*;
use crate::text::{chars_of, chars_eq, owned, push_deep, str_eq, has_prefix, starts_with};

verus! {

// ---------------------------------------------------------------- services

/// A backend the daemon can be pointed at.
#[derive(Debug, Clone, Copy, PartialEq, Eq, Structural)]
pub enum MusicService {
    Jellyfin,
    Subsonic,
    Custom,
    YtMusic,
    SoundCloud,
    AppleMusic,
    Spotify,
    Nextcloud,
}

/// Every service, in the order a client lists them.
pub open spec fn all_services() -> Seq<MusicService> {
    seq![
        MusicService::Jellyfin,
        MusicService::Subsonic,
        MusicService::Custom,
        MusicService::YtMusic,
        MusicService::SoundCloud,
        MusicService::AppleMusic,
        MusicService::Spotify,
        MusicService::Nextcloud,
    ]
}

/// The id a service is stored and named under.
pub open spec fn service_id(s: MusicService) -> Seq<char> {
    match s {
        MusicService::Jellyfin => "jellyfin"@,
        MusicService::Subsonic => "subsonic"@,
        MusicService::Custom => "custom"@,
        MusicService::YtMusic => "ytmusic"@,
        MusicService::SoundCloud => "soundcloud"@,
        MusicService::AppleMusic => "applemusic"@,
        MusicService::Spotify => "spotify"@,
        MusicService::Nextcloud => "nextcloud"@,
    }
}

/// The brand name a service shows everywhere.
pub open spec fn service_display_name(s: MusicService) -> Seq<char> {
    match s {
        MusicService::Jellyfin => "Jellyfin"@,
        MusicService::Subsonic => "Subsonic"@,
        MusicService::Custom => "Custom"@,
        MusicService::YtMusic => "YouTube Music"@,
        MusicService::SoundCloud => "SoundCloud"@,
        MusicService::AppleMusic => "Apple Music"@,
        MusicService::Spotify => "Spotify"@,
        MusicService::Nextcloud => "Nextcloud"@,
    }
}

/// Whether signing in to a service means driving a browser rather than
/// sending a username and password.
pub open spec fn spec_uses_browser_signin(s: MusicService) -> bool {
    match s {
        MusicService::YtMusic | MusicService::SoundCloud | MusicService::AppleMusic
        | MusicService::Spotify => true,
        _ => false,
    }
}

impl MusicService {
    pub fn all() -> (r: Vec<MusicService>)
        ensures
            r@ == all_services(),
    {
        let r = vec![
            MusicService::Jellyfin,
            MusicService::Subsonic,
            MusicService::Custom,
            MusicService::YtMusic,
            MusicService::SoundCloud,
            MusicService::AppleMusic,
            MusicService::Spotify,
            MusicService::Nextcloud,
        ];
        assert(r@ =~= all_services());
        r
    }

    pub fn id(self) -> (r: &'static str)
        ensures
            r@ == service_id(self),
    {
        match self {
            MusicService::Jellyfin => "jellyfin",
            MusicService::Subsonic => "subsonic",
            MusicService::Custom => "custom",
            MusicService::YtMusic => "ytmusic",
            MusicService::SoundCloud => "soundcloud",
            MusicService::AppleMusic => "applemusic",
            MusicService::Spotify => "spotify",
            MusicService::Nextcloud => "nextcloud",
        }
    }

    pub fn display_name(self) -> (r: &'static str)
        ensures
            r@ == service_display_name(self),
    {
        match self {
            MusicService::Jellyfin => "Jellyfin",
            MusicService::Subsonic => "Subsonic",
            MusicService::Custom => "Custom",
            MusicService::YtMusic => "YouTube Music",
            MusicService::SoundCloud => "SoundCloud",
            MusicService::AppleMusic => "Apple Music",
            MusicService::Spotify => "Spotify",
            MusicService::Nextcloud => "Nextcloud",
        }
    }

    pub fn uses_browser_signin(self) -> (r: bool)
        ensures
            r == spec_uses_browser_signin(self),
    {
        matches!(
            self,
            MusicService::YtMusic | MusicService::SoundCloud | MusicService::AppleMusic
                | MusicService::Spotify
        )
    }

    /// The service an id names, if any.
    pub fn from_id(id: &str) -> (r: Option<MusicService>)
        ensures
            r == service_named(id@),
    {
        let all = MusicService::all();
        let mut i: usize = 0;
        while i < all.len()
            invariant
                i <= all.len(),
                all@ == all_services(),
                forall|j: int| 0 <= j < i ==> service_id(#[trigger] all_services()[j]) != id@,
            decreases all.len() - i,
        {
            if str_eq(all[i].id(), id) {
                proof { lemma_service_named(all_services()[i as int]); }
                return Some(all[i]);
            }
            i += 1;
        }
        proof {
            if service_named(id@) is Some {
                let s = service_named(id@)->0;
                lemma_service_in_all(s);
            }
        }
        None
    }
}

/// The service whose id is `id`, if any.
pub open spec fn service_named(id: Seq<char>) -> Option<MusicService> {
    if exists|s: MusicService| service_id(s) == id {
        Some(choose|s: MusicService| service_id(s) == id)
    } else {
        None
    }
}

/// No two services share an id.
pub proof fn lemma_service_ids_distinct(a: MusicService, b: MusicService)
    ensures
        service_id(a) == service_id(b) ==> a == b,
{
    reveal_strlit("jellyfin");
    reveal_strlit("subsonic");
    reveal_strlit("custom");
    reveal_strlit("ytmusic");
    reveal_strlit("soundcloud");
    reveal_strlit("applemusic");
    reveal_strlit("spotify");
    reveal_strlit("nextcloud");
    if service_id(a) == service_id(b) {
        let x = service_id(a);
        assert(x.len() == service_id(b).len());
        assert(x[0] == service_id(b)[0]);
        assert(x[1] == service_id(b)[1]);
    }
}

proof fn lemma_service_named(s: MusicService)
    ensures
        service_named(service_id(s)) == Some(s),
{
    let c = choose|t: MusicService| service_id(t) == service_id(s);
    lemma_service_ids_distinct(c, s);
}

proof fn lemma_service_in_all(s: MusicService)
    ensures
        exists|j: int| 0 <= j < all_services().len() && all_services()[j] == s,
{
    match s {
        MusicService::Jellyfin => assert(all_services()[0] == s),
        MusicService::Subsonic => assert(all_services()[1] == s),
        MusicService::Custom => assert(all_services()[2] == s),
        MusicService::YtMusic => assert(all_services()[3] == s),
        MusicService::SoundCloud => assert(all_services()[4] == s),
        MusicService::AppleMusic => assert(all_services()[5] == s),
        MusicService::Spotify => assert(all_services()[6] == s),
        MusicService::Nextcloud => assert(all_services()[7] == s),
    }
}

/// Reading a service back by its id gives the service.
pub proof fn lemma_service_id_round_trip(s: MusicService)
    ensures
        service_named(service_id(s)) == Some(s),
{
    lemma_service_named(s);
}

// ---------------------------------------------------------------- browsers

/// A Chromium-family browser the daemon can drive for a sign-in.
#[derive(Debug, Clone, Copy, PartialEq, Eq, Structural)]
pub enum Browser {
    Chrome,
    Chromium,
    Edge,
    Brave,
}

pub open spec fn all_browsers() -> Seq<Browser> {
    seq![Browser::Chrome, Browser::Chromium, Browser::Edge, Browser::Brave]
}

pub open spec fn browser_id(b: Browser) -> Seq<char> {
    match b {
        Browser::Chrome => "chrome"@,
        Browser::Chromium => "chromium"@,
        Browser::Edge => "edge"@,
        Browser::Brave => "brave"@,
    }
}

pub open spec fn browser_label(b: Browser) -> Seq<char> {
    match b {
        Browser::Chrome => "Google Chrome"@,
        Browser::Chromium => "Chromium"@,
        Browser::Edge => "Microsoft Edge"@,
        Browser::Brave => "Brave"@,
    }
}

/// The browser whose id is `id`, if any.
pub open spec fn browser_named(id: Seq<char>) -> Option<Browser> {
    if exists|b: Browser| browser_id(b) == id {
        Some(choose|b: Browser| browser_id(b) == id)
    } else {
        None
    }
}

/// No two browsers share an id.
pub proof fn lemma_browser_ids_distinct(a: Browser, b: Browser)
    ensures
        browser_id(a) == browser_id(b) ==> a == b,
{
    reveal_strlit("chrome");
    reveal_strlit("chromium");
    reveal_strlit("edge");
    reveal_strlit("brave");
    if browser_id(a) == browser_id(b) {
        let x = browser_id(a);
        assert(x.len() == browser_id(b).len());
        assert(x[0] == browser_id(b)[0]);
    }
}

/// Reading a browser back by its id gives the browser.
pub proof fn lemma_browser_id_round_trip(b: Browser)
    ensures
        browser_named(browser_id(b)) == Some(b),
{
    let c = choose|t: Browser| browser_id(t) == browser_id(b);
    lemma_browser_ids_distinct(c, b);
}

impl Browser {
    pub fn all() -> (r: Vec<Browser>)
        ensures
            r@ == all_browsers(),
    {
        let r = vec![Browser::Chrome, Browser::Chromium, Browser::Edge, Browser::Brave];
        assert(r@ =~= all_browsers());
        r
    }

    pub fn id(self) -> (r: &'static str)
        ensures
            r@ == browser_id(self),
    {
        match self {
            Browser::Chrome => "chrome",
            Browser::Chromium => "chromium",
            Browser::Edge => "edge",
            Browser::Brave => "brave",
        }
    }

    pub fn label(self) -> (r: &'static str)
        ensures
            r@ == browser_label(self),
    {
        match self {
            Browser::Chrome => "Google Chrome",
            Browser::Chromium => "Chromium",
            Browser::Edge => "Microsoft Edge",
            Browser::Brave => "Brave",
        }
    }

    pub fn from_id(id: &str) -> (r: Option<Browser>)
        ensures
            r == browser_named(id@),
    {
        let all = Browser::all();
        let mut i: usize = 0;
        while i < all.len()
            invariant
                i <= all.len(),
                all@ == all_browsers(),
                forall|j: int| 0 <= j < i ==> browser_id(#[trigger] all_browsers()[j]) != id@,
            decreases all.len() - i,
        {
            if str_eq(all[i].id(), id) {
                proof { lemma_browser_id_round_trip(all_browsers()[i as int]); }
                return Some(all[i]);
            }
            i += 1;
        }
        proof {
            if browser_named(id@) is Some {
                let b = browser_named(id@)->0;
                match b {
                    Browser::Chrome => assert(all_browsers()[0] == b),
                    Browser::Chromium => assert(all_browsers()[1] == b),
                    Browser::Edge => assert(all_browsers()[2] == b),
                    Browser::Brave => assert(all_browsers()[3] == b),
                }
            }
        }
        None
    }
}

// ---------------------------------------------------------------- servers

/// A configured server, as stored.
#[derive(Debug, Clone, PartialEq, Eq)]
pub struct SavedServer {
    pub id: String,
    pub name: String,
    /// The address; for Spotify, the client id its sign-in needs.
    pub url: String,
    pub service: MusicService,
    pub yt_browser: Option<Browser>,
    pub yt_anonymous: bool,
    pub apple_music_storefront: String,
    pub apple_music_language: String,
}

/// The active server, with its credentials loaded.
#[derive(Debug, Clone, PartialEq, Eq)]
pub struct MusicServer {
    pub id: Option<String>,
    pub name: String,
    pub url: String,
    pub service: MusicService,
    pub access_token: Option<String>,
    pub user_id: Option<String>,
    pub yt_browser: Option<Browser>,
    pub yt_anonymous: bool,
    pub apple_music_storefront: String,
    pub apple_music_language: String,
}

impl SavedServer {
    /// A copy with the same values.
    pub fn duplicate(&self) -> (r: SavedServer)
        ensures
            r == *self,
    {
        SavedServer {
            id: self.id.clone(),
            name: self.name.clone(),
            url: self.url.clone(),
            service: self.service,
            yt_browser: self.yt_browser,
            yt_anonymous: self.yt_anonymous,
            apple_music_storefront: self.apple_music_storefront.clone(),
            apple_music_language: self.apple_music_language.clone(),
        }
    }

    /// A row for a new server, with the Apple Music defaults.
    pub fn new(name: String, url: String, service: MusicService) -> (s: SavedServer)
        ensures
            s.id@ == Seq::<char>::empty(),
            s.name == name,
            s.url == url,
            s.service == service,
            s.yt_browser is None,
            !s.yt_anonymous,
            s.apple_music_storefront@ == "us"@,
            s.apple_music_language@ == "en"@,
    {
        SavedServer {
            id: String::new(),
            name,
            url,
            service,
            yt_browser: None,
            yt_anonymous: false,
            apple_music_storefront: owned("us"),
            apple_music_language: owned("en"),
        }
    }
}

} // verus!

verus! {

// ---------------------------------------------------------------- sources

/// Which source the library reads from.
#[derive(Debug, Clone, PartialEq, Eq)]
pub enum Source {
    /// The single default local library.
    Local,
    /// A named local library, by its `local:` id.
    LocalLibrary(String),
    /// A configured server, by its id.
    Server(String),
}

/// A named local library.
#[derive(Debug, Clone, PartialEq, Eq)]
pub struct SavedLocalSource {
    pub id: String,
    pub name: String,
    pub directories: Vec<String>,
}

/// The folders picked on a server whose library is a folder tree.
#[derive(Debug, Clone, PartialEq, Eq)]
pub struct ServerFolders {
    pub server_id: String,
    pub folders: Vec<String>,
}

/// Where covers are looked for when a row has none.
#[derive(Debug, Clone, Copy, PartialEq, Eq, Structural)]
pub enum FetchStrategy {
    MusicBrainzFirst,
    LastFmFirst,
    MusicBrainzOnly,
    LastFmOnly,
}

/// The downloader's stored options, one per yt-dlp flag it can pass.
#[derive(Debug, Clone, PartialEq, Eq)]
pub struct YtdlpOptions {
    pub embed_metadata: bool,
    pub embed_thumbnail: bool,
    pub embed_chapters: bool,
    pub embed_subs: bool,
    pub embed_info_json: bool,
    pub write_thumbnail: bool,
    pub write_description: bool,
    pub write_info_json: bool,
    pub write_subs: bool,
    pub write_auto_subs: bool,
    pub write_comments: bool,
    pub sponsorblock: bool,
    pub sponsorblock_mark: bool,
    pub split_chapters: bool,
    pub postprocess_thumbnail_square: bool,
    pub no_playlist: bool,
    pub xattrs: bool,
    pub no_mtime: bool,
    pub convert_thumbnail: String,
    pub rate_limit: String,
    pub cookies_from_browser: String,
    pub js_runtimes: String,
    pub audio_quality: u8,
}

/// One finished or failed download, as stored.
#[derive(Debug, Clone, PartialEq, Eq)]
pub struct YtdlpHistoryEntry {
    pub url: String,
    pub title: String,
    /// A format id; rows written before formats had ids hold its label.
    pub format: String,
    /// `"completed"` or `"failed"`.
    pub status: String,
    pub error: Option<String>,
}

/// A downloaded copy of a server track: its item id and the file.
#[derive(Debug, Clone, PartialEq, Eq)]
pub struct OfflineTrack {
    pub item_id: String,
    pub path: String,
}

/// The settings the daemon's decisions read.
#[derive(Debug, Clone, PartialEq, Eq)]
pub struct AppConfig {
    pub active_source: Source,
    /// The active server with its credentials, when a server is active.
    pub server: Option<MusicServer>,
    pub servers: Vec<SavedServer>,
    pub local_sources: Vec<SavedLocalSource>,
    /// The default local library's scan roots.
    pub music_directory: Vec<String>,
    pub server_folders: Vec<ServerFolders>,
    /// The browser Spotify plays in; `None` picks one automatically.
    pub spotify_browser: Option<String>,
    pub spotify_prefer_active_device: bool,
    pub auto_fetch_covers: bool,
    pub cover_fetch_strategy: FetchStrategy,
    pub ytdlp_output_dir: String,
    pub ytdlp_options: YtdlpOptions,
    /// Newest first.
    pub ytdlp_history: Vec<YtdlpHistoryEntry>,
    pub offline_tracks: Vec<OfflineTrack>,
}

pub struct YtdlpHistoryEntryV {
    pub url: Seq<char>,
    pub title: Seq<char>,
    pub format: Seq<char>,
    pub status: Seq<char>,
    pub error: Option<Seq<char>>,
}

impl DeepView for YtdlpHistoryEntry {
    type V = YtdlpHistoryEntryV;

    open spec fn deep_view(&self) -> YtdlpHistoryEntryV {
        YtdlpHistoryEntryV {
            url: self.url@,
            title: self.title@,
            format: self.format@,
            status: self.status@,
            error: self.error.deep_view(),
        }
    }
}

impl YtdlpOptions {
    /// A copy with the same values.
    pub fn duplicate(&self) -> (r: YtdlpOptions)
        ensures
            r == *self,
    {
        YtdlpOptions {
            embed_metadata: self.embed_metadata,
            embed_thumbnail: self.embed_thumbnail,
            embed_chapters: self.embed_chapters,
            embed_subs: self.embed_subs,
            embed_info_json: self.embed_info_json,
            write_thumbnail: self.write_thumbnail,
            write_description: self.write_description,
            write_info_json: self.write_info_json,
            write_subs: self.write_subs,
            write_auto_subs: self.write_auto_subs,
            write_comments: self.write_comments,
            sponsorblock: self.sponsorblock,
            sponsorblock_mark: self.sponsorblock_mark,
            split_chapters: self.split_chapters,
            postprocess_thumbnail_square: self.postprocess_thumbnail_square,
            no_playlist: self.no_playlist,
            xattrs: self.xattrs,
            no_mtime: self.no_mtime,
            convert_thumbnail: self.convert_thumbnail.clone(),
            rate_limit: self.rate_limit.clone(),
            cookies_from_browser: self.cookies_from_browser.clone(),
            js_runtimes: self.js_runtimes.clone(),
            audio_quality: self.audio_quality,
        }
    }
}

impl DeepView for OfflineTrack {
    type V = (Seq<char>, Seq<char>);

    open spec fn deep_view(&self) -> (Seq<char>, Seq<char>) {
        (self.item_id@, self.path@)
    }
}

// ---------------------------------------------------------------- source ids

/// The column a source is stored and named under.
pub open spec fn source_column(s: Source) -> Seq<char> {
    match s {
        Source::Local => "local"@,
        Source::LocalLibrary(id) => id@,
        Source::Server(id) => id@,
    }
}

/// Whether an id names a local library rather than a server.
pub open spec fn is_local_column(id: Seq<char>) -> bool {
    id == "local"@ || has_prefix(id, "local:"@)
}

impl Source {
    /// The id this source is stored and named under.
    pub fn as_str(&self) -> (r: &str)
        ensures
            r@ == source_column(*self),
    {
        match self {
            Source::Local => "local",
            Source::LocalLibrary(id) => id.as_str(),
            Source::Server(id) => id.as_str(),
        }
    }

    /// The source an id names: the default library, a named local one, or
    /// otherwise a server.
    pub fn from_column(id: &str) -> (r: Source)
        ensures
            source_column(r) == id@,
            r is Local <==> id@ == "local"@,
            r is LocalLibrary <==> (id@ != "local"@ && has_prefix(id@, "local:"@)),
            r is Server <==> !is_local_column(id@),
    {
        if str_eq(id, "local") {
            proof {
                reveal_strlit("local");
            }
            Source::Local
        } else if starts_with(id, "local:") {
            Source::LocalLibrary(owned(id))
        } else {
            Source::Server(owned(id))
        }
    }

    /// The server this source is, if it is one.
    pub fn server_id(&self) -> (r: Option<&str>)
        ensures
            r.deep_view() == match *self {
                Source::Server(id) => Some(id@),
                _ => None,
            },
    {
        match self {
            Source::Server(id) => Some(id.as_str()),
            _ => None,
        }
    }

    /// The named local library this source is, if it is one.
    pub fn local_library_id(&self) -> (r: Option<&str>)
        ensures
            r.deep_view() == match *self {
                Source::LocalLibrary(id) => Some(id@),
                _ => None,
            },
    {
        match self {
            Source::LocalLibrary(id) => Some(id.as_str()),
            _ => None,
        }
    }
}

impl SavedServer {
    /// The stored row of an active server: everything but its credentials.
    pub fn from_music_server(server: &MusicServer) -> (s: SavedServer)
        ensures
            s.id@ == match server.id {
                Some(id) => id@,
                None => Seq::<char>::empty(),
            },
            s.name == server.name,
            s.url == server.url,
            s.service == server.service,
            s.yt_browser == server.yt_browser,
            s.yt_anonymous == server.yt_anonymous,
            s.apple_music_storefront == server.apple_music_storefront,
            s.apple_music_language == server.apple_music_language,
    {
        SavedServer {
            id: match &server.id {
                Some(id) => id.clone(),
                None => String::new(),
            },
            name: server.name.clone(),
            url: server.url.clone(),
            service: server.service,
            yt_browser: server.yt_browser,
            yt_anonymous: server.yt_anonymous,
            apple_music_storefront: server.apple_music_storefront.clone(),
            apple_music_language: server.apple_music_language.clone(),
        }
    }
}

/// The first folder selection stored for a server.
pub open spec fn folders_of(all: Seq<ServerFolders>, server_id: Seq<char>) -> Option<ServerFolders>
    decreases all.len(),
{
    if all.len() == 0 {
        None
    } else if all[0].server_id@ == server_id {
        Some(all[0])
    } else {
        folders_of(all.drop_first(), server_id)
    }
}

impl AppConfig {
    /// Make a local library the active source. No server is active then.
    pub fn set_active_local_source(&mut self, source: Source)
        ensures
            *final(self) == (AppConfig { active_source: source, server: None, ..*old(self) }),
    {
        self.active_source = source;
        self.server = None;
    }

    /// Make a server, with its credentials, the active source.
    pub fn set_active_server_snapshot(&mut self, server: MusicServer)
        ensures
            *final(self) == (AppConfig {
                active_source: final(self).active_source,
                server: Some(server),
                ..*old(self)
            }),
            final(self).active_source matches Source::Server(id) && id@ == match server.id {
                Some(i) => i@,
                None => Seq::<char>::empty(),
            },
    {
        let id = match &server.id {
            Some(id) => id.clone(),
            None => String::new(),
        };
        self.active_source = Source::Server(id);
        self.server = Some(server);
    }

    /// Back to the default library, with no server active.
    pub fn clear_active_server(&mut self)
        ensures
            *final(self) == (AppConfig { active_source: Source::Local, server: None, ..*old(self) }),
    {
        self.active_source = Source::Local;
        self.server = None;
    }

    /// The folders selected on a server, or none.
    pub fn folders_for(&self, server_id: &str) -> (r: Vec<String>)
        ensures
            r.deep_view() == match folders_of(self.server_folders@, server_id@) {
                Some(f) => f.folders.deep_view(),
                None => Seq::empty(),
            },
    {
        let all = &self.server_folders;
        let mut i: usize = 0;
        assert(all@.skip(0) =~= all@);
        while i < all.len()
            invariant
                i <= all.len(),
                all@ == self.server_folders@,
                folders_of(all@, server_id@) == folders_of(all@.skip(i as int), server_id@),
            decreases all.len() - i,
        {
            assert(all@.skip(i as int)[0] == all@[i as int]);
            if str_eq(all[i].server_id.as_str(), server_id) {
                return copy_strings(&all[i].folders);
            }
            assert(all@.skip(i as int).drop_first() =~= all@.skip(i + 1));
            i += 1;
        }
        Vec::new()
    }
}

/// A copy of a list of strings.
pub fn copy_strings(v: &Vec<String>) -> (r: Vec<String>)
    ensures
        r.deep_view() == v.deep_view(),
{
    let mut r: Vec<String> = Vec::new();
    let mut i: usize = 0;
    while i < v.len()
        invariant
            i <= v.len(),
            r.deep_view() == v.deep_view().take(i as int),
        decreases v.len() - i,
    {
        push_deep(&mut r, v[i].clone());
        assert(r.deep_view() =~= v.deep_view().take(i + 1));
        i += 1;
    }
    assert(v.deep_view().take(v.len() as int) =~= v.deep_view());
    r
}

} // verus!
