//! Sources as a frontend sees them: what is configured, which one is
//! active, and what each can do. No credential ever appears here.

use vstd::prelude::*;
use crate::schema::{FieldSpec, FieldSpecV, FieldValue, FieldValueV, Icon, IconV, Problem, Text, TextV};

verus! {

/// What kind of thing a source is, for grouping in a settings list.
#[derive(Debug, Clone, Copy, PartialEq, Eq, Structural)]
pub enum SourceKind {
    /// The single default local library.
    Local,
    /// One of the named local libraries.
    LocalLibrary,
    Server,
    Unknown,
}

/// How much of a playlist a source lets a client change.
#[derive(Debug, Clone, Copy, PartialEq, Eq, Structural)]
pub enum PlaylistCapability {
    /// Nothing can be changed.
    ReadOnly,
    AddRemove,
    Reorder,
}

/// Whether artists are a view of the local library or the source's own
/// catalog.
#[derive(Debug, Clone, Copy, PartialEq, Eq, Structural)]
pub enum ArtistPresentation {
    Library,
    Remote,
}

#[derive(Debug, Clone, Copy, PartialEq, Eq, Structural)]
pub enum AlbumPresentation {
    Standard,
    /// Albums are catalog entries the library holds only partially.
    Remote,
}

#[derive(Debug, Clone, Copy, PartialEq, Eq, Structural)]
pub enum FavoritesSyncMode {
    Instant,
    Paginated,
}

/// What the active source supports.
#[derive(Debug, Clone, Copy, PartialEq, Eq, Structural)]
pub struct SourceCapabilities {
    pub edit_tags: bool,
    pub delete_from_disk: bool,
    pub scan_folders: bool,
    pub folders: bool,
    pub browse_folders: bool,
    pub sync: bool,
    pub downloads: bool,
    pub discover: bool,
    pub track_radio: bool,
    pub playlist_radio: bool,
    pub external_devices: bool,
    pub playlists: PlaylistCapability,
    pub artists: ArtistPresentation,
    pub albums: AlbumPresentation,
    pub favorites_sync: FavoritesSyncMode,
}

/// What making a source usable takes.
#[derive(Debug, Clone, Copy, PartialEq, Eq, Structural)]
pub enum SignInKind {
    /// Nothing: a local library, or one already signed in.
    NotNeeded,
    /// A username and a password, which the client collects.
    Password,
    /// A browser the daemon drives.
    Browser,
}

/// A service the daemon can be pointed at, and the form for adding one.
#[derive(Debug, Clone, PartialEq, Eq)]
pub struct ServiceInfo {
    pub id: String,
    pub name: Text,
    pub icon: Icon,
    /// A colour to tint its rows with.
    pub accent: String,
    pub experimental: bool,
    pub fields: Vec<FieldSpec>,
}

/// Which service a configured source speaks: what to call it and how to
/// draw it.
#[derive(Debug, Clone, PartialEq, Eq)]
pub struct ServiceRef {
    pub id: String,
    pub name: Text,
    pub icon: Icon,
    pub accent: String,
}

/// One configured source.
#[derive(Debug, Clone, PartialEq, Eq)]
pub struct SourceInfo {
    pub id: String,
    pub name: String,
    pub kind: SourceKind,
    /// `None` for a local source.
    pub service: Option<ServiceRef>,
    pub active: bool,
    /// Whether the daemon holds usable credentials for it.
    pub authenticated: bool,
    pub sign_in: SignInKind,
    pub capabilities: SourceCapabilities,
    /// The line under its name.
    pub detail: Option<String>,
    /// Usable without an account.
    pub anonymous: bool,
    /// Its options, with the values it currently has.
    pub settings: Vec<FieldSpec>,
    /// Scan roots, for a local source.
    pub directories: Vec<String>,
}

/// A local source to create or update. `id` absent means create.
#[derive(Debug, Clone, PartialEq, Eq)]
pub struct LocalSourceDraft {
    pub id: Option<String>,
    pub name: String,
    pub directories: Vec<String>,
}

/// A server to create or update, as the answers to a service's form.
/// `secrets` are write-only and never come back.
#[derive(Clone, PartialEq, Eq)]
pub struct ServerDraft {
    pub id: Option<String>,
    pub name: String,
    pub service: String,
    pub values: Vec<FieldValue>,
    pub secrets: Vec<FieldValue>,
}

/// What a draft would do if it were saved.
#[derive(Debug, Clone, PartialEq, Eq)]
pub struct DraftCheck {
    pub sign_in: SignInKind,
    pub problems: Vec<Problem>,
}

/// Write-only: a secret a client obtained out of band.
#[derive(Debug, Clone, PartialEq, Eq)]
pub struct CredentialProvision {
    pub server_id: String,
    pub secret: String,
    pub user_id: Option<String>,
    pub browser: Option<String>,
}

/// Write-only username/password sign-in.
#[derive(Debug, Clone, PartialEq, Eq)]
pub struct SourceLoginRequest {
    pub server_id: String,
    pub username: String,
    pub password: String,
}

/// One entry when browsing a server's folder tree.
#[derive(Debug, Clone, PartialEq, Eq)]
pub struct SourceFolderEntry {
    pub path: String,
    pub name: String,
}

/// A scrobbling or metadata service, configured per account.
#[derive(Debug, Clone, Copy, PartialEq, Eq, Structural)]
pub enum IntegrationKind {
    ListenBrainz,
    LastFm,
    LibreFm,
    Unknown,
}

/// Whether an integration is set up. Deliberately not the credentials.
#[derive(Debug, Clone, Copy, PartialEq, Eq, Structural)]
pub struct IntegrationStatus {
    pub kind: IntegrationKind,
    pub configured: bool,
}

/// Write-only integration credentials.
#[derive(Debug, Clone, PartialEq, Eq)]
pub struct IntegrationProvision {
    pub kind: IntegrationKind,
    pub token: Option<String>,
    pub api_key: Option<String>,
    pub api_secret: Option<String>,
    pub session_key: Option<String>,
}

// ---------------------------------------------------------------- models

pub struct ServiceInfoV {
    pub id: Seq<char>,
    pub name: TextV,
    pub icon: IconV,
    pub accent: Seq<char>,
    pub experimental: bool,
    pub fields: Seq<FieldSpecV>,
}

pub struct ServiceRefV {
    pub id: Seq<char>,
    pub name: TextV,
    pub icon: IconV,
    pub accent: Seq<char>,
}

pub struct ServerDraftV {
    pub id: Option<Seq<char>>,
    pub name: Seq<char>,
    pub service: Seq<char>,
    pub values: Seq<FieldValueV>,
    pub secrets: Seq<FieldValueV>,
}

impl DeepView for ServerDraft {
    type V = ServerDraftV;

    open spec fn deep_view(&self) -> ServerDraftV {
        ServerDraftV {
            id: self.id.deep_view(),
            name: self.name@,
            service: self.service@,
            values: self.values.deep_view(),
            secrets: self.secrets.deep_view(),
        }
    }
}

impl DeepView for ServiceInfo {
    type V = ServiceInfoV;

    open spec fn deep_view(&self) -> ServiceInfoV {
        ServiceInfoV {
            id: self.id@,
            name: self.name.deep_view(),
            icon: self.icon.deep_view(),
            accent: self.accent@,
            experimental: self.experimental,
            fields: self.fields.deep_view(),
        }
    }
}

impl DeepView for ServiceRef {
    type V = ServiceRefV;

    open spec fn deep_view(&self) -> ServiceRefV {
        ServiceRefV {
            id: self.id@,
            name: self.name.deep_view(),
            icon: self.icon.deep_view(),
            accent: self.accent@,
        }
    }
}

impl Default for SourceCapabilities {
    fn default() -> (c: SourceCapabilities)
        ensures
            c == no_capabilities(),
    {
        SourceCapabilities {
            edit_tags: false,
            delete_from_disk: false,
            scan_folders: false,
            folders: false,
            browse_folders: false,
            sync: false,
            downloads: false,
            discover: false,
            track_radio: false,
            playlist_radio: false,
            external_devices: false,
            playlists: PlaylistCapability::ReadOnly,
            artists: ArtistPresentation::Library,
            albums: AlbumPresentation::Standard,
            favorites_sync: FavoritesSyncMode::Instant,
        }
    }
}

/// A source that supports nothing.
pub open spec fn no_capabilities() -> SourceCapabilities {
    SourceCapabilities {
        edit_tags: false,
        delete_from_disk: false,
        scan_folders: false,
        folders: false,
        browse_folders: false,
        sync: false,
        downloads: false,
        discover: false,
        track_radio: false,
        playlist_radio: false,
        external_devices: false,
        playlists: PlaylistCapability::ReadOnly,
        artists: ArtistPresentation::Library,
        albums: AlbumPresentation::Standard,
        favorites_sync: FavoritesSyncMode::Instant,
    }
}

} // verus!
