//! The resolution as a state machine over mathematical values.
//!
//! A resolution is a conversation: the library issues a request, the host
//! answers, and the answer decides what is asked next. This module says what
//! the library asks in each phase and how each reply moves it on.

use crate::error::ResolveErrorView;
use crate::layout::spec_binary_path;
use crate::layout::spec_version_dir;
use crate::platform::spec_asset_name;
use crate::protocol::DownloadedFileType;
use crate::protocol::InstallationStatus;
use crate::protocol::ReplyView;
use crate::protocol::RequestView;
use crate::protocol::StepView;
use crate::release::ReleaseView;
use vstd::prelude::*;

verus! {

/// The project whose releases are installed, as `<owner>/<name>`.
pub open spec fn repository() -> Seq<char> {
    "ThePrimeagen/htmx-lsp"@
}

/// Where a resolution stands between two replies, with what it has learnt so
/// far and still needs.
pub enum PhaseView {
    /// No resolution is under way.
    Idle,
    /// Waiting to hear whether the remembered path still names a file.
    ProbingCache { language_server_id: Seq<char>, path: Seq<char> },
    /// Waiting for the "checking for update" notice to be shown.
    AnnouncingCheck { language_server_id: Seq<char> },
    /// Waiting for the latest release.
    LookingUp { language_server_id: Seq<char> },
    /// Waiting for the host platform.
    QueryingPlatform { language_server_id: Seq<char>, release: ReleaseView },
    /// Waiting for the version directory to exist.
    CreatingDirectory {
        language_server_id: Seq<char>,
        directory: Seq<char>,
        asset_name: Seq<char>,
        download_url: Seq<char>,
    },
    /// Waiting to hear whether the binary is already on disk.
    ProbingTarget { language_server_id: Seq<char>, download_url: Seq<char>, path: Seq<char> },
    /// Waiting for the "downloading" notice to be shown.
    AnnouncingDownload {
        language_server_id: Seq<char>,
        download_url: Seq<char>,
        path: Seq<char>,
    },
    /// Waiting for the binary to be fetched.
    Downloading { download_url: Seq<char>, path: Seq<char> },
    /// Waiting for the binary to be marked executable.
    MarkingExecutable { path: Seq<char> },
}

impl PhaseView {
    /// The request the host has been asked to carry out in this phase.
    pub open spec fn pending(self) -> Option<RequestView> {
        match self {
            PhaseView::Idle => None,
            PhaseView::ProbingCache { path, .. } => Some(RequestView::ProbeFile { path }),
            PhaseView::AnnouncingCheck { language_server_id } => Some(
                RequestView::SetInstallationStatus {
                    language_server_id,
                    status: InstallationStatus::CheckingForUpdate,
                },
            ),
            PhaseView::LookingUp { .. } => Some(
                RequestView::LatestRelease {
                    repository: repository(),
                    require_assets: true,
                    pre_release: false,
                },
            ),
            PhaseView::QueryingPlatform { .. } => Some(RequestView::CurrentPlatform),
            PhaseView::CreatingDirectory { directory, .. } => Some(
                RequestView::CreateDirectory { path: directory },
            ),
            PhaseView::ProbingTarget { path, .. } => Some(RequestView::ProbeFile { path }),
            PhaseView::AnnouncingDownload { language_server_id, .. } => Some(
                RequestView::SetInstallationStatus {
                    language_server_id,
                    status: InstallationStatus::Downloading,
                },
            ),
            PhaseView::Downloading { download_url, path } => Some(
                RequestView::DownloadFile {
                    url: download_url,
                    path,
                    file_type: DownloadedFileType::Uncompressed,
                },
            ),
            PhaseView::MarkingExecutable { path } => Some(RequestView::MakeExecutable { path }),
        }
    }

    /// A bound on the number of requests a resolution in this phase still
    /// has outstanding, the pending one included.
    pub open spec fn remaining(self) -> nat {
        match self {
            PhaseView::Idle => 0,
            PhaseView::MarkingExecutable { .. } => 1,
            PhaseView::Downloading { .. } => 2,
            PhaseView::AnnouncingDownload { .. } => 3,
            PhaseView::ProbingTarget { .. } => 4,
            PhaseView::CreatingDirectory { .. } => 5,
            PhaseView::QueryingPlatform { .. } => 6,
            PhaseView::LookingUp { .. } => 7,
            PhaseView::AnnouncingCheck { .. } => 8,
            PhaseView::ProbingCache { .. } => 9,
        }
    }
}

/// Everything the extension holds: the one remembered path, and the phase of
/// the resolution under way, if any.
pub struct ExtensionState {
    pub cached_binary_path: Option<Seq<char>>,
    pub phase: PhaseView,
}

impl ExtensionState {
    /// The state of a newly loaded extension.
    pub open spec fn fresh() -> ExtensionState {
        ExtensionState { cached_binary_path: None, phase: PhaseView::Idle }
    }

    /// Moves on to `phase` and asks the host for what that phase waits on.
    pub open spec fn proceed(self, phase: PhaseView) -> (ExtensionState, StepView)
        recommends
            phase.pending() is Some,
    {
        (
            ExtensionState { cached_binary_path: self.cached_binary_path, phase },
            StepView::Perform(phase.pending().unwrap()),
        )
    }

    /// Ends the resolution with the remembered path, which was found intact.
    pub open spec fn reuse(self, path: Seq<char>) -> (ExtensionState, StepView) {
        (
            ExtensionState { cached_binary_path: self.cached_binary_path, phase: PhaseView::Idle },
            StepView::Finished(Ok(path)),
        )
    }

    /// Ends the resolution with an installed binary and remembers its path.
    pub open spec fn install(self, path: Seq<char>) -> (ExtensionState, StepView) {
        (
            ExtensionState { cached_binary_path: Some(path), phase: PhaseView::Idle },
            StepView::Finished(Ok(path)),
        )
    }

    /// Ends the resolution in failure; what is remembered stays as it was.
    pub open spec fn fail(self, error: ResolveErrorView) -> (ExtensionState, StepView) {
        (
            ExtensionState { cached_binary_path: self.cached_binary_path, phase: PhaseView::Idle },
            StepView::Finished(Err(error)),
        )
    }

    /// Starts a resolution for the language server `language_server_id`,
    /// dropping any that was under way: a remembered path is checked first,
    /// otherwise the update check is announced.
    pub open spec fn begin(self, language_server_id: Seq<char>) -> (ExtensionState, StepView) {
        match self.cached_binary_path {
            Some(path) => self.proceed(PhaseView::ProbingCache { language_server_id, path }),
            None => self.proceed(PhaseView::AnnouncingCheck { language_server_id }),
        }
    }

    /// Takes the host's reply into account. `None` where the reply does not
    /// answer the pending request.
    pub open spec fn advance(self, reply: ReplyView) -> Option<(ExtensionState, StepView)> {
        match (self.phase, reply) {
            (
                PhaseView::ProbingCache { language_server_id, path },
                ReplyView::FileProbed { is_file },
            ) => Some(
                if is_file {
                    self.reuse(path)
                } else {
                    self.proceed(PhaseView::AnnouncingCheck { language_server_id })
                },
            ),
            (PhaseView::AnnouncingCheck { language_server_id }, ReplyView::StatusSet) => Some(
                self.proceed(PhaseView::LookingUp { language_server_id }),
            ),
            (PhaseView::LookingUp { language_server_id }, ReplyView::ReleaseLookedUp(found)) => Some(
                match found {
                    Err(cause) => self.fail(ResolveErrorView::LookupError(cause)),
                    Ok(release) => self.proceed(
                        PhaseView::QueryingPlatform { language_server_id, release },
                    ),
                },
            ),
            (
                PhaseView::QueryingPlatform { language_server_id, release },
                ReplyView::Platform { os, arch },
            ) => Some(
                match spec_asset_name(os, arch) {
                    None => self.fail(ResolveErrorView::UnsupportedPlatform),
                    Some(asset_name) => match release.asset_named(asset_name) {
                        None => self.fail(ResolveErrorView::AssetNotFound(asset_name)),
                        Some(asset) => self.proceed(
                            PhaseView::CreatingDirectory {
                                language_server_id,
                                directory: spec_version_dir(release.version),
                                asset_name,
                                download_url: asset.download_url,
                            },
                        ),
                    },
                },
            ),
            (
                PhaseView::CreatingDirectory {
                    language_server_id,
                    directory,
                    asset_name,
                    download_url,
                },
                ReplyView::DirectoryCreated(outcome),
            ) => Some(
                match outcome {
                    Err(cause) => self.fail(ResolveErrorView::IoError { directory, cause }),
                    Ok(_) => self.proceed(
                        PhaseView::ProbingTarget {
                            language_server_id,
                            download_url,
                            path: spec_binary_path(directory, asset_name),
                        },
                    ),
                },
            ),
            (
                PhaseView::ProbingTarget { language_server_id, download_url, path },
                ReplyView::FileProbed { is_file },
            ) => Some(
                if is_file {
                    self.install(path)
                } else {
                    self.proceed(
                        PhaseView::AnnouncingDownload { language_server_id, download_url, path },
                    )
                },
            ),
            (PhaseView::AnnouncingDownload { download_url, path, .. }, ReplyView::StatusSet) => Some(
                self.proceed(PhaseView::Downloading { download_url, path }),
            ),
            (PhaseView::Downloading { path, .. }, ReplyView::FileDownloaded(outcome)) => Some(
                match outcome {
                    Err(cause) => self.fail(ResolveErrorView::DownloadError(cause)),
                    Ok(_) => self.proceed(PhaseView::MarkingExecutable { path }),
                },
            ),
            (PhaseView::MarkingExecutable { path }, ReplyView::MadeExecutable(outcome)) => Some(
                match outcome {
                    Err(cause) => self.fail(ResolveErrorView::PermissionError(cause)),
                    Ok(_) => self.install(path),
                },
            ),
            _ => None,
        }
    }

    /// A reply is taken exactly when it answers the pending request.
    pub proof fn lemma_advance_defined(self, reply: ReplyView)
        ensures
            self.advance(reply) is Some <==> (self.phase.pending() matches Some(request)
                && reply.answers(request)),
    {
    }

    /// Each reply taken either ends the resolution, leaving nothing pending,
    /// or brings it strictly closer to its end and names the request that is
    /// pending from then on.
    pub proof fn lemma_advance_progress(self, reply: ReplyView)
        requires
            self.advance(reply) is Some,
        ensures
            ({
                let (next, step) = self.advance(reply).unwrap();
                match step {
                    StepView::Perform(request) => next.phase.pending() == Some(request)
                        && next.phase.remaining() < self.phase.remaining(),
                    StepView::Finished(_) => next.phase is Idle,
                }
            }),
    {
    }
}

} // verus!
