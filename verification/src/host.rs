//! A model of the host during one resolution, and the conversation that
//! results when the state machine is driven against it.

use crate::error::ResolveErrorView;
use crate::machine::ExtensionState;
use crate::platform::Architecture;
use crate::platform::Os;
use crate::protocol::ReplyView;
use crate::protocol::RequestView;
use crate::protocol::StepView;
use crate::release::ReleaseView;
use vstd::prelude::*;

verus! {

/// What a host answers while one resolution runs, with nobody else touching
/// the disk meanwhile.
pub struct Host {
    /// The paths that name a regular file when the resolution starts.
    pub files: Set<Seq<char>>,
    /// What looking up the latest release yields.
    pub release: Result<ReleaseView, Seq<char>>,
    /// The operating system of the host.
    pub os: Os,
    /// The architecture of the host.
    pub arch: Architecture,
    /// How creating a directory goes.
    pub create_directory: Result<(), Seq<char>>,
    /// How fetching a file goes.
    pub download: Result<(), Seq<char>>,
    /// How marking a file executable goes.
    pub make_executable: Result<(), Seq<char>>,
}

impl Host {
    /// The reply this host gives to `request`.
    pub open spec fn answer(self, request: RequestView) -> ReplyView {
        match request {
            RequestView::ProbeFile { path } => ReplyView::FileProbed {
                is_file: self.files.contains(path),
            },
            RequestView::SetInstallationStatus { .. } => ReplyView::StatusSet,
            RequestView::LatestRelease { .. } => ReplyView::ReleaseLookedUp(self.release),
            RequestView::CurrentPlatform => ReplyView::Platform { os: self.os, arch: self.arch },
            RequestView::CreateDirectory { .. } => ReplyView::DirectoryCreated(
                self.create_directory,
            ),
            RequestView::DownloadFile { .. } => ReplyView::FileDownloaded(self.download),
            RequestView::MakeExecutable { .. } => ReplyView::MadeExecutable(self.make_executable),
        }
    }

    /// A host always gives the kind of reply that answers the request.
    pub proof fn lemma_answer_answers(self, request: RequestView)
        ensures
            self.answer(request).answers(request),
    {
    }
}

/// A resolution seen from outside, from its start to its end.
pub struct Resolution {
    /// What the caller gets: the path of the binary, or why there is none.
    pub result: Result<Seq<char>, ResolveErrorView>,
    /// The extension once the resolution is over.
    pub state: ExtensionState,
    /// The requests the host carried out, in order.
    pub requests: Seq<RequestView>,
}

impl Resolution {
    /// The same resolution with `request` carried out before everything else.
    pub open spec fn after(self, request: RequestView) -> Resolution {
        Resolution {
            result: self.result,
            state: self.state,
            requests: seq![request] + self.requests,
        }
    }

    /// Whether no request of the resolution reaches over the network.
    pub open spec fn offline(self) -> bool {
        forall|i: int| 0 <= i < self.requests.len() ==> !(#[trigger] self.requests[i]).is_network()
    }
}

/// Drives a resolution that is under way to its end: the host carries out
/// the pending request, the machine takes the reply, and so on until a step
/// comes back finished. `None` where nothing is under way.
pub open spec fn run(state: ExtensionState, host: Host) -> Option<Resolution>
    decreases state.phase.remaining(),
{
    match state.phase.pending() {
        None => None,
        Some(request) => match state.advance(host.answer(request)) {
            None => None,
            Some((next, StepView::Finished(result))) => Some(
                Resolution { result, state: next, requests: Seq::empty() }.after(request),
            ),
            Some((next, StepView::Perform(_))) => match run(next, host) {
                None => None,
                Some(rest) => Some(rest.after(request)),
            },
        },
    }
}

/// One whole call of the host for the binary of the language server
/// `language_server_id`: the resolution is started and driven to its end.
pub open spec fn resolve(state: ExtensionState, language_server_id: Seq<char>, host: Host) -> Option<
    Resolution,
> {
    run(state.begin(language_server_id).0, host)
}

} // verus!
