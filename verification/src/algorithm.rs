//! A whole resolution in closed form, stage by stage, and the proof that the
//! state machine driven against a host performs exactly that.

use crate::error::ResolveErrorView;
use crate::host::resolve;
use crate::host::run;
use crate::host::Host;
use crate::host::Resolution;
use crate::layout::spec_binary_path;
use crate::layout::spec_version_dir;
use crate::machine::repository;
use crate::machine::ExtensionState;
use crate::machine::PhaseView;
use crate::platform::spec_asset_name;
use crate::protocol::DownloadedFileType;
use crate::protocol::InstallationStatus;
use crate::protocol::RequestView;
use crate::release::ReleaseView;
use vstd::prelude::*;

verus! {

/// An idle extension that remembers `cache`.
pub open spec fn idle(cache: Option<Seq<char>>) -> ExtensionState {
    ExtensionState { cached_binary_path: cache, phase: PhaseView::Idle }
}

/// The end of a resolution that failed: nothing was asked of the host any
/// more, and what was remembered stays.
pub open spec fn failed(cache: Option<Seq<char>>, error: ResolveErrorView) -> Resolution {
    Resolution { result: Err(error), state: idle(cache), requests: Seq::empty() }
}

/// The end of a resolution that found the remembered path intact.
pub open spec fn reused(cache: Option<Seq<char>>, path: Seq<char>) -> Resolution {
    Resolution { result: Ok(path), state: idle(cache), requests: Seq::empty() }
}

/// The end of a resolution that has the binary on disk at `path`, which is
/// remembered from then on.
pub open spec fn installed(path: Seq<char>) -> Resolution {
    Resolution { result: Ok(path), state: idle(Some(path)), requests: Seq::empty() }
}

/// The fetched file is marked executable.
pub open spec fn mark_stage(cache: Option<Seq<char>>, host: Host, path: Seq<char>) -> Resolution {
    (match host.make_executable {
        Err(cause) => failed(cache, ResolveErrorView::PermissionError(cause)),
        Ok(_) => installed(path),
    }).after(RequestView::MakeExecutable { path })
}

/// The download is announced and the asset fetched, as it is, to `path`.
pub open spec fn download_stage(
    cache: Option<Seq<char>>,
    host: Host,
    language_server_id: Seq<char>,
    download_url: Seq<char>,
    path: Seq<char>,
) -> Resolution {
    (match host.download {
        Err(cause) => failed(cache, ResolveErrorView::DownloadError(cause)),
        Ok(_) => mark_stage(cache, host, path),
    }).after(
        RequestView::DownloadFile {
            url: download_url,
            path,
            file_type: DownloadedFileType::Uncompressed,
        },
    ).after(
        RequestView::SetInstallationStatus {
            language_server_id,
            status: InstallationStatus::Downloading,
        },
    )
}

/// The version directory is created; the binary inside it is fetched only
/// where it is not on disk already.
pub open spec fn install_stage(
    cache: Option<Seq<char>>,
    host: Host,
    language_server_id: Seq<char>,
    download_url: Seq<char>,
    directory: Seq<char>,
    asset_name: Seq<char>,
) -> Resolution {
    (match host.create_directory {
        Err(cause) => failed(cache, ResolveErrorView::IoError { directory, cause }),
        Ok(_) => {
            let path = spec_binary_path(directory, asset_name);
            (if host.files.contains(path) {
                installed(path)
            } else {
                download_stage(cache, host, language_server_id, download_url, path)
            }).after(RequestView::ProbeFile { path })
        },
    }).after(RequestView::CreateDirectory { path: directory })
}

/// The platform is asked for, and the asset built for it is picked from the
/// release.
pub open spec fn select_stage(
    cache: Option<Seq<char>>,
    host: Host,
    language_server_id: Seq<char>,
    release: ReleaseView,
) -> Resolution {
    (match spec_asset_name(host.os, host.arch) {
        None => failed(cache, ResolveErrorView::UnsupportedPlatform),
        Some(asset_name) => match release.asset_named(asset_name) {
            None => failed(cache, ResolveErrorView::AssetNotFound(asset_name)),
            Some(asset) => install_stage(
                cache,
                host,
                language_server_id,
                asset.download_url,
                spec_version_dir(release.version),
                asset_name,
            ),
        },
    }).after(RequestView::CurrentPlatform)
}

/// The update check is announced and the latest stable release with assets
/// looked up.
pub open spec fn update_stage(
    cache: Option<Seq<char>>,
    host: Host,
    language_server_id: Seq<char>,
) -> Resolution {
    (match host.release {
        Err(cause) => failed(cache, ResolveErrorView::LookupError(cause)),
        Ok(release) => select_stage(cache, host, language_server_id, release),
    }).after(
        RequestView::LatestRelease {
            repository: repository(),
            require_assets: true,
            pre_release: false,
        },
    ).after(
        RequestView::SetInstallationStatus {
            language_server_id,
            status: InstallationStatus::CheckingForUpdate,
        },
    )
}

/// A whole resolution: a remembered path is trusted only if it still names a
/// file; otherwise the binary is looked up, located on disk or fetched, and
/// remembered.
pub open spec fn resolution(
    cache: Option<Seq<char>>,
    host: Host,
    language_server_id: Seq<char>,
) -> Resolution {
    match cache {
        Some(path) => (if host.files.contains(path) {
            reused(cache, path)
        } else {
            update_stage(cache, host, language_server_id)
        }).after(RequestView::ProbeFile { path }),
        None => update_stage(cache, host, language_server_id),
    }
}

/// From the last phase on, the machine does what the last stage says.
proof fn lemma_run_marking(state: ExtensionState, host: Host)
    requires
        state.phase is MarkingExecutable,
    ensures
        run(state, host) == Some(
            mark_stage(state.cached_binary_path, host, state.phase->MarkingExecutable_path),
        ),
{
}

proof fn lemma_run_downloading(state: ExtensionState, host: Host, language_server_id: Seq<char>)
    requires
        state.phase is Downloading,
    ensures
        run(state, host).unwrap().after(
            RequestView::SetInstallationStatus {
                language_server_id,
                status: InstallationStatus::Downloading,
            },
        ) == download_stage(
            state.cached_binary_path,
            host,
            language_server_id,
            state.phase->Downloading_download_url,
            state.phase->Downloading_path,
        ),
        run(state, host) is Some,
{
    let request = state.phase.pending().unwrap();
    let (next, step) = state.advance(host.answer(request)).unwrap();
    if host.download is Ok {
        lemma_run_marking(next, host);
    }
}

proof fn lemma_run_announcing_download(state: ExtensionState, host: Host)
    requires
        state.phase is AnnouncingDownload,
    ensures
        run(state, host) == Some(
            download_stage(
                state.cached_binary_path,
                host,
                state.phase->AnnouncingDownload_language_server_id,
                state.phase->AnnouncingDownload_download_url,
                state.phase->AnnouncingDownload_path,
            ),
        ),
{
    let request = state.phase.pending().unwrap();
    let (next, step) = state.advance(host.answer(request)).unwrap();
    lemma_run_downloading(next, host, state.phase->AnnouncingDownload_language_server_id);
}

proof fn lemma_run_probing_target(state: ExtensionState, host: Host)
    requires
        state.phase is ProbingTarget,
    ensures
        run(state, host) == Some(
            (if host.files.contains(state.phase->ProbingTarget_path) {
                installed(state.phase->ProbingTarget_path)
            } else {
                download_stage(
                    state.cached_binary_path,
                    host,
                    state.phase->ProbingTarget_language_server_id,
                    state.phase->ProbingTarget_download_url,
                    state.phase->ProbingTarget_path,
                )
            }).after(RequestView::ProbeFile { path: state.phase->ProbingTarget_path }),
        ),
{
    let request = state.phase.pending().unwrap();
    let (next, step) = state.advance(host.answer(request)).unwrap();
    if !host.files.contains(state.phase->ProbingTarget_path) {
        lemma_run_announcing_download(next, host);
    }
}

proof fn lemma_run_creating_directory(state: ExtensionState, host: Host)
    requires
        state.phase is CreatingDirectory,
    ensures
        run(state, host) == Some(
            install_stage(
                state.cached_binary_path,
                host,
                state.phase->CreatingDirectory_language_server_id,
                state.phase->CreatingDirectory_download_url,
                state.phase->CreatingDirectory_directory,
                state.phase->CreatingDirectory_asset_name,
            ),
        ),
{
    let request = state.phase.pending().unwrap();
    let (next, step) = state.advance(host.answer(request)).unwrap();
    if host.create_directory is Ok {
        lemma_run_probing_target(next, host);
    }
}

proof fn lemma_run_querying_platform(state: ExtensionState, host: Host)
    requires
        state.phase is QueryingPlatform,
    ensures
        run(state, host) == Some(
            select_stage(
                state.cached_binary_path,
                host,
                state.phase->QueryingPlatform_language_server_id,
                state.phase->QueryingPlatform_release,
            ),
        ),
{
    let request = state.phase.pending().unwrap();
    let (next, step) = state.advance(host.answer(request)).unwrap();
    if next.phase is CreatingDirectory {
        lemma_run_creating_directory(next, host);
    }
}

proof fn lemma_run_looking_up(state: ExtensionState, host: Host, language_server_id: Seq<char>)
    requires
        state.phase is LookingUp,
        state.phase->LookingUp_language_server_id == language_server_id,
    ensures
        run(state, host).unwrap().after(
            RequestView::SetInstallationStatus {
                language_server_id,
                status: InstallationStatus::CheckingForUpdate,
            },
        ) == update_stage(state.cached_binary_path, host, language_server_id),
        run(state, host) is Some,
{
    let request = state.phase.pending().unwrap();
    let (next, step) = state.advance(host.answer(request)).unwrap();
    if host.release is Ok {
        lemma_run_querying_platform(next, host);
    }
}

proof fn lemma_run_announcing_check(state: ExtensionState, host: Host)
    requires
        state.phase is AnnouncingCheck,
    ensures
        run(state, host) == Some(
            update_stage(
                state.cached_binary_path,
                host,
                state.phase->AnnouncingCheck_language_server_id,
            ),
        ),
{
    let request = state.phase.pending().unwrap();
    let (next, step) = state.advance(host.answer(request)).unwrap();
    lemma_run_looking_up(next, host, state.phase->AnnouncingCheck_language_server_id);
}

/// Started from any state and driven against a host, the machine performs
/// the resolution that [`resolution`] describes, request for request, and
/// comes to rest idle.
pub proof fn theorem_machine_performs_resolution(
    state: ExtensionState,
    language_server_id: Seq<char>,
    host: Host,
)
    ensures
        resolve(state, language_server_id, host) == Some(
            resolution(state.cached_binary_path, host, language_server_id),
        ),
{
    let started = state.begin(language_server_id).0;
    match state.cached_binary_path {
        Some(path) => {
            let request = started.phase.pending().unwrap();
            let (next, step) = started.advance(host.answer(request)).unwrap();
            if !host.files.contains(path) {
                lemma_run_announcing_check(next, host);
            }
        },
        None => {
            lemma_run_announcing_check(started, host);
        },
    }
}

} // verus!
