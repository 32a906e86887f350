//! The extension as the host holds it: one remembered path, and the
//! resolution under way.

use crate::error::ResolveError;
use crate::layout::binary_path;
use crate::layout::version_dir;
use crate::machine::ExtensionState;
use crate::machine::PhaseView;
use crate::platform::asset_name;
use crate::protocol::DownloadedFileType;
use crate::protocol::InstallationStatus;
use crate::protocol::Reply;
use crate::protocol::Request;
use crate::protocol::Step;
use crate::release::Release;
use vstd::prelude::*;

verus! {

/// Where the resolution under way stands; see [`PhaseView`].
enum Phase {
    Idle,
    ProbingCache { language_server_id: String, path: String },
    AnnouncingCheck { language_server_id: String },
    LookingUp { language_server_id: String },
    QueryingPlatform { language_server_id: String, release: Release },
    CreatingDirectory {
        language_server_id: String,
        directory: String,
        asset_name: String,
        download_url: String,
    },
    ProbingTarget { language_server_id: String, download_url: String, path: String },
    AnnouncingDownload { language_server_id: String, download_url: String, path: String },
    Downloading { download_url: String, path: String },
    MarkingExecutable { path: String },
}

impl View for Phase {
    type V = PhaseView;

    closed spec fn view(&self) -> PhaseView {
        match self {
            Phase::Idle => PhaseView::Idle,
            Phase::ProbingCache { language_server_id, path } => PhaseView::ProbingCache {
                language_server_id: language_server_id@,
                path: path@,
            },
            Phase::AnnouncingCheck { language_server_id } => PhaseView::AnnouncingCheck {
                language_server_id: language_server_id@,
            },
            Phase::LookingUp { language_server_id } => PhaseView::LookingUp {
                language_server_id: language_server_id@,
            },
            Phase::QueryingPlatform { language_server_id, release } => PhaseView::QueryingPlatform {
                language_server_id: language_server_id@,
                release: release@,
            },
            Phase::CreatingDirectory {
                language_server_id,
                directory,
                asset_name,
                download_url,
            } => PhaseView::CreatingDirectory {
                language_server_id: language_server_id@,
                directory: directory@,
                asset_name: asset_name@,
                download_url: download_url@,
            },
            Phase::ProbingTarget { language_server_id, download_url, path } => PhaseView::ProbingTarget {
                language_server_id: language_server_id@,
                download_url: download_url@,
                path: path@,
            },
            Phase::AnnouncingDownload {
                language_server_id,
                download_url,
                path,
            } => PhaseView::AnnouncingDownload {
                language_server_id: language_server_id@,
                download_url: download_url@,
                path: path@,
            },
            Phase::Downloading { download_url, path } => PhaseView::Downloading {
                download_url: download_url@,
                path: path@,
            },
            Phase::MarkingExecutable { path } => PhaseView::MarkingExecutable { path: path@ },
        }
    }
}

/// Provisions the htmx language server for a host, one request at a time.
///
/// A resolution starts with [`HtmxExtension::language_server_binary_path`] and
/// goes on with [`HtmxExtension::advance`] for each reply of the host, until a
/// step comes back finished.
pub struct HtmxExtension {
    cached_binary_path: Option<String>,
    phase: Phase,
}

impl View for HtmxExtension {
    type V = ExtensionState;

    closed spec fn view(&self) -> ExtensionState {
        ExtensionState {
            cached_binary_path: match self.cached_binary_path {
                Some(path) => Some(path@),
                None => None,
            },
            phase: self.phase@,
        }
    }
}

impl HtmxExtension {
    /// A newly loaded extension: nothing remembered, nothing under way.
    pub fn new() -> (extension: Self)
        ensures
            extension@ == ExtensionState::fresh(),
    {
        HtmxExtension { cached_binary_path: None, phase: Phase::Idle }
    }

    /// The path remembered from the last installation, if any.
    pub fn cached_binary_path(&self) -> (path: Option<&String>)
        ensures
            match path {
                Some(text) => self@.cached_binary_path == Some(text@),
                None => self@.cached_binary_path is None,
            },
    {
        self.cached_binary_path.as_ref()
    }

    /// The request the host has been asked to carry out and has not answered
    /// yet, or `None` where no resolution is under way.
    pub fn pending(&self) -> (request: Option<Request>)
        ensures
            match request {
                Some(asked) => self@.phase.pending() == Some(asked@),
                None => self@.phase.pending() is None,
            },
    {
        match &self.phase {
            Phase::Idle => None,
            Phase::ProbingCache { path, .. } => Some(Request::ProbeFile { path: path.clone() }),
            Phase::AnnouncingCheck { language_server_id } => Some(
                Request::SetInstallationStatus {
                    language_server_id: language_server_id.clone(),
                    status: InstallationStatus::CheckingForUpdate,
                },
            ),
            Phase::LookingUp { .. } => Some(
                Request::LatestRelease {
                    repository: String::from_str("ThePrimeagen/htmx-lsp"),
                    require_assets: true,
                    pre_release: false,
                },
            ),
            Phase::QueryingPlatform { .. } => Some(Request::CurrentPlatform),
            Phase::CreatingDirectory { directory, .. } => Some(
                Request::CreateDirectory { path: directory.clone() },
            ),
            Phase::ProbingTarget { path, .. } => Some(Request::ProbeFile { path: path.clone() }),
            Phase::AnnouncingDownload { language_server_id, .. } => Some(
                Request::SetInstallationStatus {
                    language_server_id: language_server_id.clone(),
                    status: InstallationStatus::Downloading,
                },
            ),
            Phase::Downloading { download_url, path } => Some(
                Request::DownloadFile {
                    url: download_url.clone(),
                    path: path.clone(),
                    file_type: DownloadedFileType::Uncompressed,
                },
            ),
            Phase::MarkingExecutable { path } => Some(
                Request::MakeExecutable { path: path.clone() },
            ),
        }
    }

    /// Starts resolving the binary of the language server
    /// `language_server_id` and returns the first request for the host. A
    /// resolution that was under way is dropped.
    pub fn language_server_binary_path(&mut self, language_server_id: &str) -> (step: Step)
        ensures
            (final(self)@, step@) == old(self)@.begin(language_server_id@),
    {
        let language_server_id = String::from_str(language_server_id);
        match &self.cached_binary_path {
            Some(path) => {
                let request = Request::ProbeFile { path: path.clone() };
                self.phase = Phase::ProbingCache { language_server_id, path: path.clone() };
                Step::Perform(request)
            },
            None => {
                let request = Request::SetInstallationStatus {
                    language_server_id: language_server_id.clone(),
                    status: InstallationStatus::CheckingForUpdate,
                };
                self.phase = Phase::AnnouncingCheck { language_server_id };
                Step::Perform(request)
            },
        }
    }

    /// Takes the host's reply to the pending request into account and returns
    /// what comes next: a further request, or the end of the resolution. A
    /// reply that does not answer the pending request is refused with `None`
    /// and changes nothing.
    pub fn advance(&mut self, reply: Reply) -> (step: Option<Step>)
        ensures
            match old(self)@.advance(reply@) {
                Some((next, expected)) => {
                    &&& final(self)@ == next
                    &&& step matches Some(taken)
                    &&& taken@ == expected
                },
                None => final(self)@ == old(self)@ && step is None,
            },
    {
        let mut phase = Phase::Idle;
        core::mem::swap(&mut self.phase, &mut phase);
        match (phase, reply) {
            (Phase::ProbingCache { language_server_id, path }, Reply::FileProbed { is_file }) => {
                if is_file {
                    Some(Step::Finished(Ok(path)))
                } else {
                    let request = Request::SetInstallationStatus {
                        language_server_id: language_server_id.clone(),
                        status: InstallationStatus::CheckingForUpdate,
                    };
                    self.phase = Phase::AnnouncingCheck { language_server_id };
                    Some(Step::Perform(request))
                }
            },
            (Phase::AnnouncingCheck { language_server_id }, Reply::StatusSet) => {
                self.phase = Phase::LookingUp { language_server_id };
                Some(
                    Step::Perform(
                        Request::LatestRelease {
                            repository: String::from_str("ThePrimeagen/htmx-lsp"),
                            require_assets: true,
                            pre_release: false,
                        },
                    ),
                )
            },
            (Phase::LookingUp { language_server_id }, Reply::ReleaseLookedUp(found)) => {
                match found {
                    Err(cause) => Some(Step::Finished(Err(ResolveError::LookupError(cause)))),
                    Ok(release) => {
                        self.phase = Phase::QueryingPlatform { language_server_id, release };
                        Some(Step::Perform(Request::CurrentPlatform))
                    },
                }
            },
            (
                Phase::QueryingPlatform { language_server_id, release },
                Reply::Platform { os, arch },
            ) => {
                match asset_name(os, arch) {
                    Err(error) => Some(Step::Finished(Err(error))),
                    Ok(asset_name) => match release.find_asset(&asset_name) {
                        None => Some(
                            Step::Finished(Err(ResolveError::AssetNotFound(asset_name))),
                        ),
                        Some(asset) => {
                            let download_url = asset.download_url.clone();
                            let directory = version_dir(release.version.as_str());
                            let request = Request::CreateDirectory { path: directory.clone() };
                            self.phase = Phase::CreatingDirectory {
                                language_server_id,
                                directory,
                                asset_name,
                                download_url,
                            };
                            Some(Step::Perform(request))
                        },
                    },
                }
            },
            (
                Phase::CreatingDirectory { language_server_id, directory, asset_name, download_url },
                Reply::DirectoryCreated(outcome),
            ) => {
                match outcome {
                    Err(cause) => Some(
                        Step::Finished(Err(ResolveError::IoError { directory, cause })),
                    ),
                    Ok(_) => {
                        let path = binary_path(directory.as_str(), asset_name.as_str());
                        let request = Request::ProbeFile { path: path.clone() };
                        self.phase = Phase::ProbingTarget { language_server_id, download_url, path };
                        Some(Step::Perform(request))
                    },
                }
            },
            (
                Phase::ProbingTarget { language_server_id, download_url, path },
                Reply::FileProbed { is_file },
            ) => {
                if is_file {
                    self.cached_binary_path = Some(path.clone());
                    Some(Step::Finished(Ok(path)))
                } else {
                    let request = Request::SetInstallationStatus {
                        language_server_id: language_server_id.clone(),
                        status: InstallationStatus::Downloading,
                    };
                    self.phase = Phase::AnnouncingDownload { language_server_id, download_url, path };
                    Some(Step::Perform(request))
                }
            },
            (Phase::AnnouncingDownload { download_url, path, .. }, Reply::StatusSet) => {
                let request = Request::DownloadFile {
                    url: download_url.clone(),
                    path: path.clone(),
                    file_type: DownloadedFileType::Uncompressed,
                };
                self.phase = Phase::Downloading { download_url, path };
                Some(Step::Perform(request))
            },
            (Phase::Downloading { path, .. }, Reply::FileDownloaded(outcome)) => {
                match outcome {
                    Err(cause) => Some(Step::Finished(Err(ResolveError::DownloadError(cause)))),
                    Ok(_) => {
                        let request = Request::MakeExecutable { path: path.clone() };
                        self.phase = Phase::MarkingExecutable { path };
                        Some(Step::Perform(request))
                    },
                }
            },
            (Phase::MarkingExecutable { path }, Reply::MadeExecutable(outcome)) => {
                match outcome {
                    Err(cause) => Some(Step::Finished(Err(ResolveError::PermissionError(cause)))),
                    Ok(_) => {
                        self.cached_binary_path = Some(path.clone());
                        Some(Step::Finished(Ok(path)))
                    },
                }
            },
            (phase, _) => {
                self.phase = phase;
                None
            },
        }
    }
}

} // verus!
