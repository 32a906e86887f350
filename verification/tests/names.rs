use zed_htmx::command::language_server_command;
use zed_htmx::command::Command;
use zed_htmx::error::ResolveError;
use zed_htmx::layout::binary_path;
use zed_htmx::layout::version_dir;
use zed_htmx::platform::asset_name;
use zed_htmx::platform::Architecture;
use zed_htmx::platform::Os;
use zed_htmx::release::Asset;
use zed_htmx::release::Release;

fn asset(name: &str, download_url: &str) -> Asset {
    Asset { name: name.to_string(), download_url: download_url.to_string() }
}

#[test]
fn asset_name_of_every_supported_platform() {
    let expected = [
        (Os::Mac, Architecture::Aarch64, "htmx-lsp-darwin-arm64"),
        (Os::Mac, Architecture::X8664, "htmx-lsp-darwin-x64"),
        (Os::Linux, Architecture::Aarch64, "htmx-lsp-linux-arm64"),
        (Os::Linux, Architecture::X8664, "htmx-lsp-linux-x64"),
        (Os::Windows, Architecture::Aarch64, "htmx-lsp-windows-arm64.exe"),
        (Os::Windows, Architecture::X8664, "htmx-lsp-windows-x64.exe"),
    ];
    for (os, arch, name) in expected {
        assert_eq!(asset_name(os, arch), Ok(name.to_string()));
    }
}

#[test]
fn asset_name_ends_in_exe_only_on_windows() {
    for arch in [Architecture::Aarch64, Architecture::X8664] {
        assert!(asset_name(Os::Windows, arch).unwrap().ends_with(".exe"));
        assert!(!asset_name(Os::Mac, arch).unwrap().ends_with(".exe"));
        assert!(!asset_name(Os::Linux, arch).unwrap().ends_with(".exe"));
    }
}

#[test]
fn asset_name_of_unsupported_architecture() {
    for os in [Os::Mac, Os::Linux, Os::Windows] {
        assert_eq!(asset_name(os, Architecture::X86), Err(ResolveError::UnsupportedPlatform));
    }
}

#[test]
fn platform_tags() {
    assert_eq!(Os::Mac.asset_tag(), "darwin");
    assert_eq!(Os::Linux.asset_tag(), "linux");
    assert_eq!(Os::Windows.asset_tag(), "windows");
    assert_eq!(Os::Mac.asset_extension(), "");
    assert_eq!(Os::Linux.asset_extension(), "");
    assert_eq!(Os::Windows.asset_extension(), ".exe");
    assert_eq!(Architecture::Aarch64.asset_tag(), Some("arm64"));
    assert_eq!(Architecture::X8664.asset_tag(), Some("x64"));
    assert_eq!(Architecture::X86.asset_tag(), None);
}

#[test]
fn version_dir_prefixes_the_product() {
    assert_eq!(version_dir("0.2.0"), "htmx-lsp-0.2.0");
    assert_eq!(version_dir("v1.0.0-rc.1"), "htmx-lsp-v1.0.0-rc.1");
    assert_eq!(version_dir(""), "htmx-lsp-");
}

#[test]
fn binary_path_joins_with_a_slash() {
    assert_eq!(
        binary_path("htmx-lsp-0.2.0", "htmx-lsp-linux-x64"),
        "htmx-lsp-0.2.0/htmx-lsp-linux-x64"
    );
    assert_eq!(
        binary_path("htmx-lsp-0.1.0", "htmx-lsp-windows-arm64.exe"),
        "htmx-lsp-0.1.0/htmx-lsp-windows-arm64.exe"
    );
    assert_eq!(binary_path("", ""), "/");
}

#[test]
fn find_asset_returns_the_first_exact_match() {
    let release = Release {
        version: "0.2.0".to_string(),
        assets: vec![
            asset("htmx-lsp-linux-x64.sha256", "https://example.test/0"),
            asset("htmx-lsp-linux-x64", "https://example.test/1"),
            asset("htmx-lsp-darwin-arm64", "https://example.test/2"),
            asset("htmx-lsp-linux-x64", "https://example.test/3"),
        ],
    };
    let found = release.find_asset(&"htmx-lsp-linux-x64".to_string());
    assert_eq!(found, Some(&asset("htmx-lsp-linux-x64", "https://example.test/1")));
    let found = release.find_asset(&"htmx-lsp-darwin-arm64".to_string());
    assert_eq!(found, Some(&asset("htmx-lsp-darwin-arm64", "https://example.test/2")));
}

#[test]
fn find_asset_wants_the_whole_name() {
    let release = Release {
        version: "0.2.0".to_string(),
        assets: vec![
            asset("htmx-lsp-linux-x64.tar.gz", "https://example.test/0"),
            asset("HTMX-LSP-LINUX-X64", "https://example.test/1"),
            asset("htmx-lsp-linux-x6", "https://example.test/2"),
        ],
    };
    assert_eq!(release.find_asset(&"htmx-lsp-linux-x64".to_string()), None);
    let empty = Release { version: "0.2.0".to_string(), assets: vec![] };
    assert_eq!(empty.find_asset(&"htmx-lsp-linux-x64".to_string()), None);
}

#[test]
fn message_of_each_error() {
    assert_eq!(
        ResolveError::LookupError("no releases found".to_string()).message(),
        "no releases found"
    );
    assert_eq!(ResolveError::UnsupportedPlatform.message(), "Unsupported architecture");
    assert_eq!(
        ResolveError::AssetNotFound("htmx-lsp-linux-x64".to_string()).message(),
        "No asset found matching \"htmx-lsp-linux-x64\""
    );
    assert_eq!(
        ResolveError::IoError {
            directory: "htmx-lsp-0.2.0".to_string(),
            cause: "Permission denied (os error 13)".to_string(),
        }
        .message(),
        "Failed to create directory 'htmx-lsp-0.2.0': Permission denied (os error 13)"
    );
    assert_eq!(
        ResolveError::DownloadError("connection reset".to_string()).message(),
        "Failed to download file: connection reset"
    );
    assert_eq!(
        ResolveError::PermissionError("read-only file system".to_string()).message(),
        "Failed to make file executable: read-only file system"
    );
}

#[test]
fn command_runs_the_binary_bare() {
    let command = language_server_command(Ok("htmx-lsp-0.2.0/htmx-lsp-linux-x64".to_string()));
    assert_eq!(
        command,
        Ok(Command {
            command: "htmx-lsp-0.2.0/htmx-lsp-linux-x64".to_string(),
            args: vec![],
            env: vec![],
        })
    );
}

#[test]
fn command_of_a_failure_is_its_message() {
    assert_eq!(
        language_server_command(Err(ResolveError::UnsupportedPlatform)),
        Err("Unsupported architecture".to_string())
    );
    assert_eq!(
        language_server_command(Err(ResolveError::AssetNotFound(
            "htmx-lsp-windows-x64.exe".to_string()
        ))),
        Err("No asset found matching \"htmx-lsp-windows-x64.exe\"".to_string())
    );
    assert_eq!(
        language_server_command(Err(ResolveError::LookupError("rate limited".to_string()))),
        Err("rate limited".to_string())
    );
}
