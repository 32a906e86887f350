//! What holds of every resolution, whatever the host answers.

use crate::algorithm::idle;
use crate::algorithm::resolution;
use crate::algorithm::theorem_machine_performs_resolution;
use crate::error::ResolveErrorView;
use crate::host::resolve;
use crate::host::Host;
use crate::layout::spec_binary_path;
use crate::layout::spec_version_dir;
use crate::machine::repository;
use crate::machine::ExtensionState;
use crate::platform::spec_asset_name;
use crate::protocol::InstallationStatus;
use crate::protocol::RequestView;
use crate::release::ReleaseView;
use vstd::prelude::*;

verus! {

/// Whether the remembered path of `state` names a file on `host`.
pub open spec fn warm(state: ExtensionState, host: Host) -> bool {
    state.cached_binary_path matches Some(path) && host.files.contains(path)
}

/// The look at the disk that opens a resolution where a path is remembered.
pub open spec fn cache_probe(state: ExtensionState) -> Seq<RequestView> {
    match state.cached_binary_path {
        Some(path) => seq![RequestView::ProbeFile { path }],
        None => Seq::empty(),
    }
}

/// The update check: its announcement, then the lookup of the latest stable
/// release with assets.
pub open spec fn update_check(language_server_id: Seq<char>) -> Seq<RequestView> {
    seq![
        RequestView::SetInstallationStatus {
            language_server_id,
            status: InstallationStatus::CheckingForUpdate,
        },
        RequestView::LatestRelease {
            repository: repository(),
            require_assets: true,
            pre_release: false,
        },
    ]
}

/// Whether carrying the request out creates or changes anything on disk.
pub open spec fn writes(request: RequestView) -> bool {
    request is CreateDirectory || request is DownloadFile || request is MakeExecutable
}

/// While the remembered path names a file, a call for any language server
/// returns that path after one look at the disk, asks nothing over the
/// network and leaves the extension as it was; the call after it, for any
/// language server again, does the same and returns the same path.
pub proof fn law_warm_cache_is_stable(
    state: ExtensionState,
    host: Host,
    later: Host,
    first_id: Seq<char>,
    second_id: Seq<char>,
    path: Seq<char>,
)
    requires
        state.cached_binary_path == Some(path),
        host.files.contains(path),
        later.files.contains(path),
    ensures
        resolve(state, first_id, host) matches Some(first) && {
            &&& first.result == Ok::<Seq<char>, ResolveErrorView>(path)
            &&& first.requests == seq![RequestView::ProbeFile { path }]
            &&& first.offline()
            &&& first.state == idle(Some(path))
            &&& resolve(first.state, second_id, later) matches Some(second) && {
                &&& second.result == first.result
                &&& second.requests == first.requests
                &&& second.offline()
                &&& second.state == first.state
            }
        },
{
    theorem_machine_performs_resolution(state, first_id, host);
    theorem_machine_performs_resolution(idle(Some(path)), second_id, later);
    assert(resolution(Some(path), host, first_id).requests =~= seq![
        RequestView::ProbeFile { path },
    ]);
    assert(resolution(Some(path), later, second_id).requests =~= seq![
        RequestView::ProbeFile { path },
    ]);
}

/// On an architecture no binary is published for, a call that gets past the
/// remembered path and finds a release fails with `UnsupportedPlatform` as
/// soon as the platform is known: the release lookup is the only request
/// that reached over the network, nothing was created, fetched or marked,
/// and what is remembered stays.
pub proof fn law_unsupported_architecture_installs_nothing(
    state: ExtensionState,
    host: Host,
    language_server_id: Seq<char>,
)
    requires
        !host.arch.supported(),
        !warm(state, host),
        host.release is Ok,
    ensures
        resolve(state, language_server_id, host) matches Some(outcome) && {
            &&& outcome.result == Err::<Seq<char>, ResolveErrorView>(
                ResolveErrorView::UnsupportedPlatform,
            )
            &&& outcome.requests == cache_probe(state) + update_check(language_server_id)
                + seq![RequestView::CurrentPlatform]
            &&& forall|i: int|
                0 <= i < outcome.requests.len() ==> !writes(#[trigger] outcome.requests[i])
            &&& forall|i: int|
                0 <= i < outcome.requests.len() && (#[trigger] outcome.requests[i]).is_network()
                    ==> outcome.requests[i] is LatestRelease
            &&& outcome.state == idle(state.cached_binary_path)
        },
{
    theorem_machine_performs_resolution(state, language_server_id, host);
    let outcome = resolution(state.cached_binary_path, host, language_server_id);
    assert(outcome.requests =~= cache_probe(state) + update_check(language_server_id)
        + seq![RequestView::CurrentPlatform]);
}

/// Where the binary of the latest release is on disk already and only the
/// memory of it is gone, a call returns its path and remembers it without
/// fetching anything; the file is taken as it is and not marked executable
/// again.
pub proof fn law_binary_on_disk_is_not_fetched_again(
    state: ExtensionState,
    host: Host,
    language_server_id: Seq<char>,
    release: ReleaseView,
    asset_name: Seq<char>,
)
    requires
        !warm(state, host),
        host.release == Ok::<ReleaseView, Seq<char>>(release),
        spec_asset_name(host.os, host.arch) == Some(asset_name),
        release.has_asset_named(asset_name),
        host.create_directory is Ok,
        host.files.contains(spec_binary_path(spec_version_dir(release.version), asset_name)),
    ensures
        ({
            let directory = spec_version_dir(release.version);
            let path = spec_binary_path(directory, asset_name);
            resolve(state, language_server_id, host) matches Some(outcome) && {
                &&& outcome.result == Ok::<Seq<char>, ResolveErrorView>(path)
                &&& outcome.state == idle(Some(path))
                &&& outcome.requests == cache_probe(state) + update_check(language_server_id)
                    + seq![
                    RequestView::CurrentPlatform,
                    RequestView::CreateDirectory { path: directory },
                    RequestView::ProbeFile { path },
                ]
                &&& forall|i: int|
                    0 <= i < outcome.requests.len() ==> !((#[trigger] outcome.requests[i])
                        is DownloadFile) && !(outcome.requests[i] is MakeExecutable)
            }
        }),
{
    theorem_machine_performs_resolution(state, language_server_id, host);
    release.lemma_asset_named(asset_name);
    let directory = spec_version_dir(release.version);
    let path = spec_binary_path(directory, asset_name);
    let outcome = resolution(state.cached_binary_path, host, language_server_id);
    assert(outcome.requests =~= cache_probe(state) + update_check(language_server_id) + seq![
        RequestView::CurrentPlatform,
        RequestView::CreateDirectory { path: directory },
        RequestView::ProbeFile { path },
    ]);
}

/// Where the latest release holds no asset of the name computed for the
/// platform, a call that gets past the remembered path fails with
/// `AssetNotFound`; the error carries exactly the computed name, its message
/// quotes it in full, and nothing was created, fetched or marked.
pub proof fn law_missing_asset_is_reported_by_name(
    state: ExtensionState,
    host: Host,
    language_server_id: Seq<char>,
    release: ReleaseView,
    asset_name: Seq<char>,
)
    requires
        !warm(state, host),
        host.release == Ok::<ReleaseView, Seq<char>>(release),
        spec_asset_name(host.os, host.arch) == Some(asset_name),
        !release.has_asset_named(asset_name),
    ensures
        resolve(state, language_server_id, host) matches Some(outcome) && {
            &&& outcome.result == Err::<Seq<char>, ResolveErrorView>(
                ResolveErrorView::AssetNotFound(asset_name),
            )
            &&& outcome.result->Err_0.message() == "No asset found matching \""@ + asset_name
                + "\""@
            &&& outcome.requests == cache_probe(state) + update_check(language_server_id)
                + seq![RequestView::CurrentPlatform]
            &&& forall|i: int|
                0 <= i < outcome.requests.len() ==> !writes(#[trigger] outcome.requests[i])
            &&& outcome.state == idle(state.cached_binary_path)
        },
{
    theorem_machine_performs_resolution(state, language_server_id, host);
    release.lemma_asset_named(asset_name);
    let outcome = resolution(state.cached_binary_path, host, language_server_id);
    assert(outcome.requests =~= cache_probe(state) + update_check(language_server_id)
        + seq![RequestView::CurrentPlatform]);
}

/// What is remembered changes only when a call succeeds, and then to the
/// path that the call returns; every call leaves the extension idle.
pub proof fn law_memory_follows_success(
    state: ExtensionState,
    host: Host,
    language_server_id: Seq<char>,
)
    ensures
        resolve(state, language_server_id, host) matches Some(outcome) && {
            &&& outcome.state.phase is Idle
            &&& outcome.result is Err ==> outcome.state.cached_binary_path
                == state.cached_binary_path
            &&& outcome.result matches Ok(path) ==> outcome.state.cached_binary_path == Some(
                path,
            )
        },
{
    theorem_machine_performs_resolution(state, language_server_id, host);
}

/// Whether the request fetches something to the file `path`.
pub open spec fn fetches_to(request: RequestView, path: Seq<char>) -> bool {
    request is DownloadFile && request->DownloadFile_path == path
}

/// A path is returned only for a file: one that the host found on disk
/// during the call, or one that it fetched to that path and marked
/// executable.
pub proof fn law_returned_path_names_a_file(
    state: ExtensionState,
    host: Host,
    language_server_id: Seq<char>,
)
    ensures
        resolve(state, language_server_id, host) matches Some(outcome) && (outcome.result matches Ok(
            path,
        ) ==> {
            ||| host.files.contains(path)
            ||| {
                &&& host.download is Ok
                &&& host.make_executable is Ok
                &&& exists|i: int|
                    0 <= i < outcome.requests.len() && fetches_to(
                        #[trigger] outcome.requests[i],
                        path,
                    )
            }
        }),
{
    theorem_machine_performs_resolution(state, language_server_id, host);
    let outcome = resolution(state.cached_binary_path, host, language_server_id);
    if outcome.result is Ok && !host.files.contains(outcome.result->Ok_0) {
        let at = outcome.requests.len() - 2;
        assert(fetches_to(outcome.requests[at], outcome.result->Ok_0));
    }
}

} // verus!
