//! The host platform and the name of the release asset built for it.

use crate::error::ResolveError;
use crate::error::ResolveErrorView;
use vstd::prelude::*;

verus! {

/// An operating system a host can run on.
#[derive(Debug, Clone, Copy, PartialEq, Eq, Structural)]
pub enum Os {
    Mac,
    Linux,
    Windows,
}

/// A processor architecture a host can run on.
#[derive(Debug, Clone, Copy, PartialEq, Eq, Structural)]
pub enum Architecture {
    Aarch64,
    X86,
    X8664,
}

impl Os {
    /// The operating system's tag inside an asset name.
    pub open spec fn tag(self) -> Seq<char> {
        match self {
            Os::Mac => "darwin"@,
            Os::Linux => "linux"@,
            Os::Windows => "windows"@,
        }
    }

    /// The file extension of an executable on this operating system.
    pub open spec fn extension(self) -> Seq<char> {
        match self {
            Os::Windows => ".exe"@,
            Os::Mac | Os::Linux => Seq::empty(),
        }
    }

    /// The operating system's tag inside an asset name.
    pub fn asset_tag(self) -> (tag: &'static str)
        ensures
            tag@ == self.tag(),
    {
        match self {
            Os::Mac => "darwin",
            Os::Linux => "linux",
            Os::Windows => "windows",
        }
    }

    /// The file extension of an executable on this operating system.
    pub fn asset_extension(self) -> (extension: &'static str)
        ensures
            extension@ == self.extension(),
    {
        proof {
            reveal_strlit("");
            assert(""@ =~= Seq::<char>::empty());
        }
        match self {
            Os::Windows => ".exe",
            Os::Mac | Os::Linux => "",
        }
    }
}

impl Architecture {
    /// The architecture's tag inside an asset name, where a binary is
    /// published for it.
    pub open spec fn tag(self) -> Option<Seq<char>> {
        match self {
            Architecture::Aarch64 => Some("arm64"@),
            Architecture::X8664 => Some("x64"@),
            Architecture::X86 => None,
        }
    }

    /// Whether a binary is published for this architecture.
    pub open spec fn supported(self) -> bool {
        self.tag() is Some
    }

    /// The architecture's tag inside an asset name, or `None` where no binary
    /// is published for it.
    pub fn asset_tag(self) -> (tag: Option<&'static str>)
        ensures
            match tag {
                Some(text) => self.tag() == Some(text@),
                None => self.tag() is None,
            },
    {
        match self {
            Architecture::Aarch64 => Some("arm64"),
            Architecture::X8664 => Some("x64"),
            Architecture::X86 => None,
        }
    }
}

/// The product whose binary is provisioned; it prefixes asset names and
/// version directories.
pub open spec fn product() -> Seq<char> {
    "htmx-lsp"@
}

/// The name of the release asset for a platform:
/// `<product>-<os tag>-<architecture tag><extension>`.
pub open spec fn spec_asset_name(os: Os, arch: Architecture) -> Option<Seq<char>> {
    match arch.tag() {
        Some(arch_tag) => Some(product() + "-"@ + os.tag() + "-"@ + arch_tag + os.extension()),
        None => None,
    }
}

/// Computes the name of the release asset for a platform, or fails with
/// `UnsupportedPlatform` where no binary is published for the architecture.
pub fn asset_name(os: Os, arch: Architecture) -> (name: Result<String, ResolveError>)
    ensures
        match spec_asset_name(os, arch) {
            Some(expected) => name matches Ok(text) && text@ == expected,
            None => name matches Err(error) && error@ == ResolveErrorView::UnsupportedPlatform,
        },
{
    match arch.asset_tag() {
        None => Err(ResolveError::UnsupportedPlatform),
        Some(arch_tag) => {
            let mut name = String::from_str("htmx-lsp");
            name.append("-");
            name.append(os.asset_tag());
            name.append("-");
            name.append(arch_tag);
            name.append(os.asset_extension());
            Ok(name)
        },
    }
}

/// Every platform a binary is published for has its asset name in the form
/// `htmx-lsp-<os>-<arch><ext>`, with `<os>` one of `darwin`, `linux` and
/// `windows`, `<arch>` one of `arm64` and `x64`, and `<ext>` empty except on
/// Windows, where it is `.exe`; so a name ends in `.exe` on Windows and
/// nowhere else.
pub proof fn law_asset_name_format(os: Os, arch: Architecture)
    requires
        arch.supported(),
    ensures
        spec_asset_name(os, arch) matches Some(name) && {
            &&& name == "htmx-lsp-"@ + os.tag() + "-"@ + arch.tag().unwrap() + os.extension()
            &&& os.tag() == "darwin"@ || os.tag() == "linux"@ || os.tag() == "windows"@
            &&& arch.tag() == Some("arm64"@) || arch.tag() == Some("x64"@)
            &&& os.extension() == if os == Os::Windows {
                ".exe"@
            } else {
                Seq::<char>::empty()
            }
            &&& ".exe"@.is_suffix_of(name) <==> os == Os::Windows
        },
{
    reveal_strlit("htmx-lsp");
    reveal_strlit("htmx-lsp-");
    reveal_strlit("-");
    reveal_strlit("darwin");
    reveal_strlit("linux");
    reveal_strlit("windows");
    reveal_strlit("arm64");
    reveal_strlit("x64");
    reveal_strlit(".exe");
    let name = spec_asset_name(os, arch).unwrap();
    assert(name =~= "htmx-lsp-"@ + os.tag() + "-"@ + arch.tag().unwrap() + os.extension());
    let end = name.len() - 1;
    if os == Os::Windows {
        assert(".exe"@ =~= name.subrange(name.len() - 4, name.len() as int));
    } else {
        assert(name[end] == '4');
        assert(".exe"@.is_suffix_of(name) ==> name.subrange(name.len() - 4, name.len() as int)[3]
            == 'e');
    }
}

/// The asset name of each platform a binary is published for, letter for
/// letter; for the one remaining architecture there is none.
pub proof fn law_asset_name_table()
    ensures
        spec_asset_name(Os::Mac, Architecture::Aarch64) == Some("htmx-lsp-darwin-arm64"@),
        spec_asset_name(Os::Mac, Architecture::X8664) == Some("htmx-lsp-darwin-x64"@),
        spec_asset_name(Os::Linux, Architecture::Aarch64) == Some("htmx-lsp-linux-arm64"@),
        spec_asset_name(Os::Linux, Architecture::X8664) == Some("htmx-lsp-linux-x64"@),
        spec_asset_name(Os::Windows, Architecture::Aarch64) == Some(
            "htmx-lsp-windows-arm64.exe"@,
        ),
        spec_asset_name(Os::Windows, Architecture::X8664) == Some("htmx-lsp-windows-x64.exe"@),
        forall|os: Os| spec_asset_name(os, Architecture::X86) is None,
{
    reveal_strlit("htmx-lsp");
    reveal_strlit("-");
    reveal_strlit("darwin");
    reveal_strlit("linux");
    reveal_strlit("windows");
    reveal_strlit("arm64");
    reveal_strlit("x64");
    reveal_strlit(".exe");
    reveal_strlit("htmx-lsp-darwin-arm64");
    reveal_strlit("htmx-lsp-darwin-x64");
    reveal_strlit("htmx-lsp-linux-arm64");
    reveal_strlit("htmx-lsp-linux-x64");
    reveal_strlit("htmx-lsp-windows-arm64.exe");
    reveal_strlit("htmx-lsp-windows-x64.exe");
    assert(spec_asset_name(Os::Mac, Architecture::Aarch64).unwrap() =~= "htmx-lsp-darwin-arm64"@);
    assert(spec_asset_name(Os::Mac, Architecture::X8664).unwrap() =~= "htmx-lsp-darwin-x64"@);
    assert(spec_asset_name(Os::Linux, Architecture::Aarch64).unwrap()
        =~= "htmx-lsp-linux-arm64"@);
    assert(spec_asset_name(Os::Linux, Architecture::X8664).unwrap() =~= "htmx-lsp-linux-x64"@);
    assert(spec_asset_name(Os::Windows, Architecture::Aarch64).unwrap()
        =~= "htmx-lsp-windows-arm64.exe"@);
    assert(spec_asset_name(Os::Windows, Architecture::X8664).unwrap()
        =~= "htmx-lsp-windows-x64.exe"@);
}

} // verus!
