//! Long-running work a client starts and watches, and what the downloaders
//! report about it.

use vstd::prelude::*;
use crate::error::ErrorCode;

verus! {

/// One finished or failed URL download, as the downloader page lists them.
/// `format` is the id of one of the download formats.
#[derive(Debug, Clone, PartialEq, Eq)]
pub struct DownloadHistoryEntry {
    pub url: String,
    pub title: String,
    pub format: String,
    pub state: DownloadState,
    pub error: Option<String>,
}

#[derive(Debug, Clone, Copy, PartialEq, Eq, Structural)]
pub enum DownloadState {
    Finished,
    Failed,
}

/// Where one requested download has got to.
#[derive(Debug, Clone, Copy, PartialEq, Eq, Structural)]
pub enum DownloadItemState {
    Queued,
    Downloading,
    Failed,
}

/// One requested download, as the progress overlay renders it.
#[derive(Debug, Clone, PartialEq, Eq)]
pub struct DownloadItemStatus {
    pub key: String,
    pub state: DownloadItemState,
}

/// Returned by every command; `rev` names the state revision that includes
/// the command's effect, so a client can wait for the event stream to catch
/// up before trusting its local mirror.
#[derive(Debug, Clone, Copy, PartialEq, Eq, Structural)]
pub struct CommandAck {
    pub rev: u64,
}

#[derive(Debug, Clone, PartialEq, Eq)]
pub struct JobRef {
    pub job_id: String,
}

#[derive(Debug, Clone, Copy, PartialEq, Eq, Structural)]
pub enum JobState {
    Running,
    Finished,
    Failed,
    Cancelled,
    Unknown,
}

/// What a job does.
#[derive(Debug, Clone, Copy, PartialEq, Eq, Structural)]
pub enum JobKind {
    Scan,
    LibrarySync,
    FavoritesSync,
    PlaylistSync,
    Download,
    UrlDownload,
    Unknown,
}

/// An error as it travels: a code a client can act on, and a message for a
/// log.
#[derive(Debug, Clone, PartialEq, Eq)]
pub struct ErrorBody {
    pub code: ErrorCode,
    pub message: String,
}

#[derive(Debug, Clone, PartialEq, Eq)]
pub struct JobStatus {
    pub id: String,
    pub kind: JobKind,
    pub state: JobState,
    pub phase: String,
    pub current: Option<u64>,
    pub total: Option<u64>,
    pub message: Option<String>,
    pub error: Option<ErrorBody>,
}

/// The favorited refs, and a generation that moves whenever they change.
#[derive(Debug, Clone, PartialEq, Eq)]
pub struct FavoritesView {
    pub refs: Vec<String>,
    pub generation: u64,
}

pub struct DownloadHistoryEntryV {
    pub url: Seq<char>,
    pub title: Seq<char>,
    pub format: Seq<char>,
    pub state: DownloadState,
    pub error: Option<Seq<char>>,
}

impl DeepView for DownloadHistoryEntry {
    type V = DownloadHistoryEntryV;

    open spec fn deep_view(&self) -> DownloadHistoryEntryV {
        DownloadHistoryEntryV {
            url: self.url@,
            title: self.title@,
            format: self.format@,
            state: self.state,
            error: self.error.deep_view(),
        }
    }
}

} // verus!
