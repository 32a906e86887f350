use std::collections::BTreeSet;

use zed_htmx::error::ResolveError;
use zed_htmx::extension::HtmxExtension;
use zed_htmx::platform::Architecture;
use zed_htmx::platform::Os;
use zed_htmx::protocol::DownloadedFileType;
use zed_htmx::protocol::InstallationStatus;
use zed_htmx::protocol::Reply;
use zed_htmx::protocol::Request;
use zed_htmx::protocol::Step;
use zed_htmx::release::Asset;
use zed_htmx::release::Release;

/// A host that keeps its disk in memory and counts what it is asked.
struct Host {
    files: BTreeSet<String>,
    executables: BTreeSet<String>,
    directories: BTreeSet<String>,
    release: Result<Release, String>,
    os: Os,
    arch: Architecture,
    create_directory: Result<(), String>,
    download: Result<(), String>,
    make_executable: Result<(), String>,
    requests: Vec<Request>,
}

impl Host {
    fn new(os: Os, arch: Architecture, release: Result<Release, String>) -> Host {
        Host {
            files: BTreeSet::new(),
            executables: BTreeSet::new(),
            directories: BTreeSet::new(),
            release,
            os,
            arch,
            create_directory: Ok(()),
            download: Ok(()),
            make_executable: Ok(()),
            requests: Vec::new(),
        }
    }

    fn perform(&mut self, request: Request) -> Reply {
        self.requests.push(request.clone());
        match request {
            Request::ProbeFile { path } => Reply::FileProbed { is_file: self.files.contains(&path) },
            Request::SetInstallationStatus { .. } => Reply::StatusSet,
            Request::LatestRelease { .. } => Reply::ReleaseLookedUp(self.release.clone()),
            Request::CurrentPlatform => Reply::Platform { os: self.os, arch: self.arch },
            Request::CreateDirectory { path } => {
                if self.create_directory.is_ok() {
                    self.directories.insert(path);
                }
                Reply::DirectoryCreated(self.create_directory.clone())
            }
            Request::DownloadFile { path, .. } => {
                if self.download.is_ok() {
                    self.files.insert(path);
                }
                Reply::FileDownloaded(self.download.clone())
            }
            Request::MakeExecutable { path } => {
                if self.make_executable.is_ok() {
                    self.executables.insert(path);
                }
                Reply::MadeExecutable(self.make_executable.clone())
            }
        }
    }

    fn lookups(&self) -> usize {
        self.requests.iter().filter(|request| matches!(request, Request::LatestRelease { .. })).count()
    }

    fn downloads(&self) -> usize {
        self.requests.iter().filter(|request| matches!(request, Request::DownloadFile { .. })).count()
    }

    fn marks(&self) -> usize {
        self.requests.iter().filter(|request| matches!(request, Request::MakeExecutable { .. })).count()
    }

    fn created(&self) -> usize {
        self.requests.iter().filter(|request| matches!(request, Request::CreateDirectory { .. })).count()
    }
}

fn resolve(
    extension: &mut HtmxExtension,
    language_server_id: &str,
    host: &mut Host,
) -> Result<String, ResolveError> {
    let mut step = extension.language_server_binary_path(language_server_id);
    loop {
        match step {
            Step::Finished(result) => return result,
            Step::Perform(request) => {
                assert_eq!(extension.pending(), Some(request.clone()));
                let reply = host.perform(request);
                step = extension.advance(reply).expect("the reply answers the request");
            }
        }
    }
}

fn asset(name: &str) -> Asset {
    Asset { name: name.to_string(), download_url: format!("https://example.test/download/{name}") }
}

fn release(version: &str, names: &[&str]) -> Release {
    Release { version: version.to_string(), assets: names.iter().map(|name| asset(name)).collect() }
}

fn linux_host() -> Host {
    Host::new(
        Os::Linux,
        Architecture::X8664,
        Ok(release("0.2.0", &["htmx-lsp-darwin-arm64", "htmx-lsp-linux-x64", "htmx-lsp-windows-x64.exe"])),
    )
}

fn probe(path: &str) -> Request {
    Request::ProbeFile { path: path.to_string() }
}

fn status(language_server_id: &str, status: InstallationStatus) -> Request {
    Request::SetInstallationStatus { language_server_id: language_server_id.to_string(), status }
}

fn lookup() -> Request {
    Request::LatestRelease {
        repository: "ThePrimeagen/htmx-lsp".to_string(),
        require_assets: true,
        pre_release: false,
    }
}

const PATH: &str = "htmx-lsp-0.2.0/htmx-lsp-linux-x64";

#[test]
fn new_extension_remembers_nothing() {
    let extension = HtmxExtension::new();
    assert_eq!(extension.cached_binary_path(), None);
    assert_eq!(extension.pending(), None);
}

#[test]
fn first_install_on_linux_x64() {
    let mut extension = HtmxExtension::new();
    let mut host = linux_host();
    let path = resolve(&mut extension, "X", &mut host);
    assert_eq!(path, Ok(PATH.to_string()));
    assert!(host.directories.contains("htmx-lsp-0.2.0"));
    assert!(host.files.contains(PATH));
    assert!(host.executables.contains(PATH));
    assert_eq!(extension.cached_binary_path(), Some(&PATH.to_string()));
    assert_eq!(extension.pending(), None);
    assert_eq!(
        host.requests,
        vec![
            status("X", InstallationStatus::CheckingForUpdate),
            lookup(),
            Request::CurrentPlatform,
            Request::CreateDirectory { path: "htmx-lsp-0.2.0".to_string() },
            probe(PATH),
            status("X", InstallationStatus::Downloading),
            Request::DownloadFile {
                url: "https://example.test/download/htmx-lsp-linux-x64".to_string(),
                path: PATH.to_string(),
                file_type: DownloadedFileType::Uncompressed,
            },
            Request::MakeExecutable { path: PATH.to_string() },
        ]
    );
}

#[test]
fn first_install_on_windows_arm64() {
    let mut extension = HtmxExtension::new();
    let mut host = Host::new(
        Os::Windows,
        Architecture::Aarch64,
        Ok(release("1.4.0", &["htmx-lsp-windows-arm64", "htmx-lsp-windows-arm64.exe"])),
    );
    let path = resolve(&mut extension, "htmx", &mut host);
    assert_eq!(path, Ok("htmx-lsp-1.4.0/htmx-lsp-windows-arm64.exe".to_string()));
    assert_eq!(
        host.requests.last(),
        Some(&Request::MakeExecutable {
            path: "htmx-lsp-1.4.0/htmx-lsp-windows-arm64.exe".to_string()
        })
    );
    assert_eq!(host.downloads(), 1);
}

#[test]
fn warm_cache_asks_nothing_over_the_network() {
    let mut extension = HtmxExtension::new();
    let mut host = linux_host();
    assert_eq!(resolve(&mut extension, "X", &mut host), Ok(PATH.to_string()));
    host.requests.clear();

    let first = resolve(&mut extension, "X", &mut host);
    let second = resolve(&mut extension, "another server", &mut host);
    assert_eq!(first, Ok(PATH.to_string()));
    assert_eq!(second, first);
    assert_eq!(host.lookups(), 0);
    assert_eq!(host.downloads(), 0);
    assert_eq!(host.requests, vec![probe(PATH), probe(PATH)]);
    assert_eq!(extension.cached_binary_path(), Some(&PATH.to_string()));
}

#[test]
fn removed_file_forces_a_new_check() {
    let mut extension = HtmxExtension::new();
    let mut host = linux_host();
    assert_eq!(resolve(&mut extension, "X", &mut host), Ok(PATH.to_string()));
    host.files.clear();
    host.requests.clear();

    assert_eq!(resolve(&mut extension, "X", &mut host), Ok(PATH.to_string()));
    assert_eq!(host.requests[0], probe(PATH));
    assert_eq!(host.requests[1], status("X", InstallationStatus::CheckingForUpdate));
    assert_eq!(host.lookups(), 1);
    assert_eq!(host.downloads(), 1);
    assert!(host.files.contains(PATH));
}

#[test]
fn newer_release_replaces_a_stale_memory() {
    let mut extension = HtmxExtension::new();
    let mut host = linux_host();
    assert_eq!(resolve(&mut extension, "X", &mut host), Ok(PATH.to_string()));
    host.files.clear();
    host.release = Ok(release("0.3.0", &["htmx-lsp-linux-x64"]));

    let path = resolve(&mut extension, "X", &mut host);
    assert_eq!(path, Ok("htmx-lsp-0.3.0/htmx-lsp-linux-x64".to_string()));
    assert_eq!(
        extension.cached_binary_path(),
        Some(&"htmx-lsp-0.3.0/htmx-lsp-linux-x64".to_string())
    );
}

#[test]
fn unsupported_architecture_installs_nothing() {
    for os in [Os::Mac, Os::Linux, Os::Windows] {
        let mut extension = HtmxExtension::new();
        let mut host = Host::new(os, Architecture::X86, Ok(release("0.2.0", &["htmx-lsp-linux-x64"])));
        let result = resolve(&mut extension, "X", &mut host);
        assert_eq!(result, Err(ResolveError::UnsupportedPlatform));
        assert_eq!(
            host.requests,
            vec![
                status("X", InstallationStatus::CheckingForUpdate),
                lookup(),
                Request::CurrentPlatform,
            ]
        );
        assert_eq!(host.lookups(), 1);
        assert_eq!(host.created(), 0);
        assert_eq!(host.downloads(), 0);
        assert_eq!(host.marks(), 0);
        assert!(host.files.is_empty());
        assert_eq!(extension.cached_binary_path(), None);
    }
}

#[test]
fn binary_on_disk_is_not_fetched_again() {
    let mut extension = HtmxExtension::new();
    let mut host = linux_host();
    host.files.insert(PATH.to_string());

    let path = resolve(&mut extension, "X", &mut host);
    assert_eq!(path, Ok(PATH.to_string()));
    assert_eq!(host.downloads(), 0);
    assert_eq!(host.marks(), 0);
    assert!(!host.executables.contains(PATH));
    assert_eq!(extension.cached_binary_path(), Some(&PATH.to_string()));
    assert_eq!(
        host.requests,
        vec![
            status("X", InstallationStatus::CheckingForUpdate),
            lookup(),
            Request::CurrentPlatform,
            Request::CreateDirectory { path: "htmx-lsp-0.2.0".to_string() },
            probe(PATH),
        ]
    );
}

#[test]
fn missing_asset_is_reported_by_name() {
    let mut extension = HtmxExtension::new();
    let mut host = Host::new(
        Os::Linux,
        Architecture::X8664,
        Ok(release("0.2.0", &["htmx-lsp-darwin-arm64", "htmx-lsp-linux-arm64"])),
    );
    let result = resolve(&mut extension, "X", &mut host);
    assert_eq!(result, Err(ResolveError::AssetNotFound("htmx-lsp-linux-x64".to_string())));
    let message = result.unwrap_err().message();
    assert_eq!(message, "No asset found matching \"htmx-lsp-linux-x64\"");
    assert!(message.contains("htmx-lsp-linux-x64"));
    assert_eq!(host.created(), 0);
    assert_eq!(host.downloads(), 0);
    assert_eq!(extension.cached_binary_path(), None);
}

#[test]
fn failed_lookup_is_passed_on_verbatim() {
    let mut extension = HtmxExtension::new();
    let mut host = Host::new(Os::Linux, Architecture::X8664, Err("no release found".to_string()));
    let result = resolve(&mut extension, "X", &mut host);
    assert_eq!(result, Err(ResolveError::LookupError("no release found".to_string())));
    assert_eq!(result.unwrap_err().message(), "no release found");
    assert_eq!(
        host.requests,
        vec![status("X", InstallationStatus::CheckingForUpdate), lookup()]
    );
}

#[test]
fn failed_lookup_comes_before_the_platform() {
    let mut extension = HtmxExtension::new();
    let mut host = Host::new(Os::Linux, Architecture::X86, Err("offline".to_string()));
    let result = resolve(&mut extension, "X", &mut host);
    assert_eq!(result, Err(ResolveError::LookupError("offline".to_string())));
}

#[test]
fn failed_directory_names_it_and_the_cause() {
    let mut extension = HtmxExtension::new();
    let mut host = linux_host();
    host.create_directory = Err("Permission denied (os error 13)".to_string());
    let result = resolve(&mut extension, "X", &mut host);
    assert_eq!(
        result,
        Err(ResolveError::IoError {
            directory: "htmx-lsp-0.2.0".to_string(),
            cause: "Permission denied (os error 13)".to_string(),
        })
    );
    assert_eq!(
        result.unwrap_err().message(),
        "Failed to create directory 'htmx-lsp-0.2.0': Permission denied (os error 13)"
    );
    assert_eq!(host.downloads(), 0);
    assert_eq!(host.requests.last(), Some(&Request::CreateDirectory { path: "htmx-lsp-0.2.0".to_string() }));
}

#[test]
fn failed_download_is_tried_again_next_time() {
    let mut extension = HtmxExtension::new();
    let mut host = linux_host();
    host.download = Err("connection reset".to_string());
    let result = resolve(&mut extension, "X", &mut host);
    assert_eq!(result, Err(ResolveError::DownloadError("connection reset".to_string())));
    assert_eq!(result.unwrap_err().message(), "Failed to download file: connection reset");
    assert!(!host.files.contains(PATH));
    assert_eq!(host.marks(), 0);
    assert_eq!(extension.cached_binary_path(), None);

    host.download = Ok(());
    assert_eq!(resolve(&mut extension, "X", &mut host), Ok(PATH.to_string()));
    assert_eq!(host.downloads(), 2);
    assert_eq!(host.marks(), 1);
}

#[test]
fn failed_mark_leaves_the_file_and_is_not_tried_again() {
    let mut extension = HtmxExtension::new();
    let mut host = linux_host();
    host.make_executable = Err("Operation not permitted".to_string());
    let result = resolve(&mut extension, "X", &mut host);
    assert_eq!(result, Err(ResolveError::PermissionError("Operation not permitted".to_string())));
    assert_eq!(
        result.unwrap_err().message(),
        "Failed to make file executable: Operation not permitted"
    );
    assert!(host.files.contains(PATH));
    assert_eq!(extension.cached_binary_path(), None);

    host.make_executable = Ok(());
    assert_eq!(resolve(&mut extension, "X", &mut host), Ok(PATH.to_string()));
    assert_eq!(host.downloads(), 1);
    assert_eq!(host.marks(), 1);
    assert!(!host.executables.contains(PATH));
}

#[test]
fn failure_keeps_what_was_remembered() {
    let mut extension = HtmxExtension::new();
    let mut host = linux_host();
    assert_eq!(resolve(&mut extension, "X", &mut host), Ok(PATH.to_string()));
    host.files.clear();
    host.release = Err("rate limited".to_string());
    assert_eq!(
        resolve(&mut extension, "X", &mut host),
        Err(ResolveError::LookupError("rate limited".to_string()))
    );
    assert_eq!(extension.cached_binary_path(), Some(&PATH.to_string()));
}

#[test]
fn first_matching_asset_is_fetched() {
    let mut extension = HtmxExtension::new();
    let mut host = Host::new(
        Os::Mac,
        Architecture::Aarch64,
        Ok(Release {
            version: "0.2.0".to_string(),
            assets: vec![
                Asset { name: "htmx-lsp-darwin-x64".to_string(), download_url: "u0".to_string() },
                Asset { name: "htmx-lsp-darwin-arm64".to_string(), download_url: "u1".to_string() },
                Asset { name: "htmx-lsp-darwin-arm64".to_string(), download_url: "u2".to_string() },
            ],
        }),
    );
    assert_eq!(
        resolve(&mut extension, "X", &mut host),
        Ok("htmx-lsp-0.2.0/htmx-lsp-darwin-arm64".to_string())
    );
    assert!(host.requests.contains(&Request::DownloadFile {
        url: "u1".to_string(),
        path: "htmx-lsp-0.2.0/htmx-lsp-darwin-arm64".to_string(),
        file_type: DownloadedFileType::Uncompressed,
    }));
}

#[test]
fn reply_of_the_wrong_kind_is_refused() {
    let mut extension = HtmxExtension::new();
    assert_eq!(extension.advance(Reply::StatusSet), None);
    assert_eq!(extension.pending(), None);

    let step = extension.language_server_binary_path("X");
    assert_eq!(step, Step::Perform(status("X", InstallationStatus::CheckingForUpdate)));
    assert_eq!(extension.advance(Reply::FileProbed { is_file: true }), None);
    assert_eq!(extension.advance(Reply::FileDownloaded(Ok(()))), None);
    assert_eq!(
        extension.advance(Reply::Platform { os: Os::Linux, arch: Architecture::X8664 }),
        None
    );
    assert_eq!(extension.pending(), Some(status("X", InstallationStatus::CheckingForUpdate)));
    assert_eq!(extension.advance(Reply::StatusSet), Some(Step::Perform(lookup())));
    assert_eq!(extension.advance(Reply::StatusSet), None);
    assert_eq!(extension.pending(), Some(lookup()));
    assert_eq!(extension.cached_binary_path(), None);
}

#[test]
fn starting_again_drops_what_was_under_way() {
    let mut extension = HtmxExtension::new();
    let mut host = linux_host();
    extension.language_server_binary_path("X");
    assert_eq!(extension.advance(Reply::StatusSet), Some(Step::Perform(lookup())));
    let step = extension.language_server_binary_path("Y");
    assert_eq!(step, Step::Perform(status("Y", InstallationStatus::CheckingForUpdate)));
    assert_eq!(extension.advance(Reply::ReleaseLookedUp(Err("late".to_string()))), None);
    assert_eq!(resolve(&mut extension, "Y", &mut host), Ok(PATH.to_string()));
}

#[test]
fn each_reply_moves_one_phase_on() {
    let mut extension = HtmxExtension::new();
    extension.language_server_binary_path("X");
    assert_eq!(extension.advance(Reply::StatusSet), Some(Step::Perform(lookup())));
    assert_eq!(
        extension.advance(Reply::ReleaseLookedUp(Ok(release("0.2.0", &["htmx-lsp-linux-x64"])))),
        Some(Step::Perform(Request::CurrentPlatform))
    );
    assert_eq!(
        extension.advance(Reply::Platform { os: Os::Linux, arch: Architecture::X8664 }),
        Some(Step::Perform(Request::CreateDirectory { path: "htmx-lsp-0.2.0".to_string() }))
    );
    assert_eq!(extension.advance(Reply::DirectoryCreated(Ok(()))), Some(Step::Perform(probe(PATH))));
    assert_eq!(
        extension.advance(Reply::FileProbed { is_file: false }),
        Some(Step::Perform(status("X", InstallationStatus::Downloading)))
    );
    assert_eq!(
        extension.advance(Reply::StatusSet),
        Some(Step::Perform(Request::DownloadFile {
            url: "https://example.test/download/htmx-lsp-linux-x64".to_string(),
            path: PATH.to_string(),
            file_type: DownloadedFileType::Uncompressed,
        }))
    );
    assert_eq!(
        extension.advance(Reply::FileDownloaded(Ok(()))),
        Some(Step::Perform(Request::MakeExecutable { path: PATH.to_string() }))
    );
    assert_eq!(extension.cached_binary_path(), None);
    assert_eq!(
        extension.advance(Reply::MadeExecutable(Ok(()))),
        Some(Step::Finished(Ok(PATH.to_string())))
    );
    assert_eq!(extension.cached_binary_path(), Some(&PATH.to_string()));
    assert_eq!(extension.advance(Reply::MadeExecutable(Ok(()))), None);
}
