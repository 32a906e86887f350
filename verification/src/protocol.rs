//! What the library asks of its host, and what the host reports back.
//!
//! The library never touches the network or the disk. It names the next
//! operation as a [`Request`]; the host carries it out and answers with the
//! [`Reply`] of the same kind.

use crate::error::ResolveError;
use crate::error::ResolveErrorView;
use crate::platform::Architecture;
use crate::platform::Os;
use crate::release::Release;
use crate::release::ReleaseView;
use vstd::prelude::*;

verus! {

/// A progress notice shown by the host while a language server is installed.
#[derive(Debug, Clone, Copy, PartialEq, Eq, Structural)]
pub enum InstallationStatus {
    CheckingForUpdate,
    Downloading,
}

/// How a downloaded payload is to be unpacked.
#[derive(Debug, Clone, Copy, PartialEq, Eq, Structural)]
pub enum DownloadedFileType {
    Gzip,
    GzipTar,
    Zip,
    Uncompressed,
}

/// An operation for the host to carry out.
#[derive(Debug, Clone, PartialEq, Eq)]
pub enum Request {
    /// Report whether `path` currently names a regular file.
    ProbeFile { path: String },
    /// Show `status` for the language server `language_server_id`.
    SetInstallationStatus { language_server_id: String, status: InstallationStatus },
    /// Look up the latest release of `repository`.
    LatestRelease { repository: String, require_assets: bool, pre_release: bool },
    /// Report the operating system and architecture of the host.
    CurrentPlatform,
    /// Create the directory `path` with any missing parents.
    CreateDirectory { path: String },
    /// Fetch `url` to the file `path`.
    DownloadFile { url: String, path: String, file_type: DownloadedFileType },
    /// Mark the file `path` executable.
    MakeExecutable { path: String },
}

/// Mathematical counterpart of [`Request`].
pub enum RequestView {
    ProbeFile { path: Seq<char> },
    SetInstallationStatus { language_server_id: Seq<char>, status: InstallationStatus },
    LatestRelease { repository: Seq<char>, require_assets: bool, pre_release: bool },
    CurrentPlatform,
    CreateDirectory { path: Seq<char> },
    DownloadFile { url: Seq<char>, path: Seq<char>, file_type: DownloadedFileType },
    MakeExecutable { path: Seq<char> },
}

impl View for Request {
    type V = RequestView;

    open spec fn view(&self) -> RequestView {
        match self {
            Request::ProbeFile { path } => RequestView::ProbeFile { path: path@ },
            Request::SetInstallationStatus {
                language_server_id,
                status,
            } => RequestView::SetInstallationStatus {
                language_server_id: language_server_id@,
                status: *status,
            },
            Request::LatestRelease {
                repository,
                require_assets,
                pre_release,
            } => RequestView::LatestRelease {
                repository: repository@,
                require_assets: *require_assets,
                pre_release: *pre_release,
            },
            Request::CurrentPlatform => RequestView::CurrentPlatform,
            Request::CreateDirectory { path } => RequestView::CreateDirectory { path: path@ },
            Request::DownloadFile { url, path, file_type } => RequestView::DownloadFile {
                url: url@,
                path: path@,
                file_type: *file_type,
            },
            Request::MakeExecutable { path } => RequestView::MakeExecutable { path: path@ },
        }
    }
}

impl RequestView {
    /// Whether carrying the request out reaches over the network.
    pub open spec fn is_network(self) -> bool {
        self is LatestRelease || self is DownloadFile
    }
}

/// The host's report on a request it carried out. A failure carries the
/// host's description of the cause.
#[derive(Debug, PartialEq, Eq)]
pub enum Reply {
    /// Answers `ProbeFile`.
    FileProbed { is_file: bool },
    /// Answers `SetInstallationStatus`.
    StatusSet,
    /// Answers `LatestRelease`.
    ReleaseLookedUp(Result<Release, String>),
    /// Answers `CurrentPlatform`.
    Platform { os: Os, arch: Architecture },
    /// Answers `CreateDirectory`.
    DirectoryCreated(Result<(), String>),
    /// Answers `DownloadFile`.
    FileDownloaded(Result<(), String>),
    /// Answers `MakeExecutable`.
    MadeExecutable(Result<(), String>),
}

/// Mathematical counterpart of [`Reply`].
pub enum ReplyView {
    FileProbed { is_file: bool },
    StatusSet,
    ReleaseLookedUp(Result<ReleaseView, Seq<char>>),
    Platform { os: Os, arch: Architecture },
    DirectoryCreated(Result<(), Seq<char>>),
    FileDownloaded(Result<(), Seq<char>>),
    MadeExecutable(Result<(), Seq<char>>),
}

/// The outcome of an operation that yields nothing but success or a cause.
pub open spec fn outcome_view(outcome: Result<(), String>) -> Result<(), Seq<char>> {
    match outcome {
        Ok(_) => Ok(()),
        Err(cause) => Err(cause@),
    }
}

impl View for Reply {
    type V = ReplyView;

    open spec fn view(&self) -> ReplyView {
        match self {
            Reply::FileProbed { is_file } => ReplyView::FileProbed { is_file: *is_file },
            Reply::StatusSet => ReplyView::StatusSet,
            Reply::ReleaseLookedUp(found) => ReplyView::ReleaseLookedUp(
                match found {
                    Ok(release) => Ok(release@),
                    Err(cause) => Err(cause@),
                },
            ),
            Reply::Platform { os, arch } => ReplyView::Platform { os: *os, arch: *arch },
            Reply::DirectoryCreated(outcome) => ReplyView::DirectoryCreated(
                outcome_view(*outcome),
            ),
            Reply::FileDownloaded(outcome) => ReplyView::FileDownloaded(outcome_view(*outcome)),
            Reply::MadeExecutable(outcome) => ReplyView::MadeExecutable(outcome_view(*outcome)),
        }
    }
}

impl ReplyView {
    /// Whether this is the kind of reply that answers `request`.
    pub open spec fn answers(self, request: RequestView) -> bool {
        match request {
            RequestView::ProbeFile { .. } => self is FileProbed,
            RequestView::SetInstallationStatus { .. } => self is StatusSet,
            RequestView::LatestRelease { .. } => self is ReleaseLookedUp,
            RequestView::CurrentPlatform => self is Platform,
            RequestView::CreateDirectory { .. } => self is DirectoryCreated,
            RequestView::DownloadFile { .. } => self is FileDownloaded,
            RequestView::MakeExecutable { .. } => self is MadeExecutable,
        }
    }
}

/// What a resolution yields in the end: the path of a runnable executable, or
/// the reason there is none.
pub open spec fn result_view(result: Result<String, ResolveError>) -> Result<
    Seq<char>,
    ResolveErrorView,
> {
    match result {
        Ok(path) => Ok(path@),
        Err(error) => Err(error@),
    }
}

/// Where a resolution stands after the library has taken a reply into account.
#[derive(Debug, PartialEq, Eq)]
pub enum Step {
    /// The host is to carry out the request and report back.
    Perform(Request),
    /// The resolution is over.
    Finished(Result<String, ResolveError>),
}

/// Mathematical counterpart of [`Step`].
pub enum StepView {
    Perform(RequestView),
    Finished(Result<Seq<char>, ResolveErrorView>),
}

impl View for Step {
    type V = StepView;

    open spec fn view(&self) -> StepView {
        match self {
            Step::Perform(request) => StepView::Perform(request@),
            Step::Finished(result) => StepView::Finished(result_view(*result)),
        }
    }
}

} // verus!
