//! The ways in which a resolution can fail, and the text shown for each.

use vstd::prelude::*;

verus! {

/// Why a resolution did not produce a path.
#[derive(Debug, Clone, PartialEq, Eq)]
pub enum ResolveError {
    /// The release registry could not be queried or holds no qualifying
    /// release. Carries the registry's own message.
    LookupError(String),
    /// The host architecture is not one a binary is published for.
    UnsupportedPlatform,
    /// The release holds no asset of the computed name, which is carried.
    AssetNotFound(String),
    /// The version directory could not be created.
    IoError { directory: String, cause: String },
    /// The asset could not be fetched.
    DownloadError(String),
    /// The fetched file could not be marked executable.
    PermissionError(String),
}

/// Mathematical counterpart of [`ResolveError`].
pub enum ResolveErrorView {
    LookupError(Seq<char>),
    UnsupportedPlatform,
    AssetNotFound(Seq<char>),
    IoError { directory: Seq<char>, cause: Seq<char> },
    DownloadError(Seq<char>),
    PermissionError(Seq<char>),
}

impl View for ResolveError {
    type V = ResolveErrorView;

    open spec fn view(&self) -> ResolveErrorView {
        match self {
            ResolveError::LookupError(message) => ResolveErrorView::LookupError(message@),
            ResolveError::UnsupportedPlatform => ResolveErrorView::UnsupportedPlatform,
            ResolveError::AssetNotFound(name) => ResolveErrorView::AssetNotFound(name@),
            ResolveError::IoError { directory, cause } => ResolveErrorView::IoError {
                directory: directory@,
                cause: cause@,
            },
            ResolveError::DownloadError(cause) => ResolveErrorView::DownloadError(cause@),
            ResolveError::PermissionError(cause) => ResolveErrorView::PermissionError(cause@),
        }
    }
}

impl ResolveErrorView {
    /// The text a host shows for this failure.
    pub open spec fn message(self) -> Seq<char> {
        match self {
            ResolveErrorView::LookupError(message) => message,
            ResolveErrorView::UnsupportedPlatform => "Unsupported architecture"@,
            ResolveErrorView::AssetNotFound(name) => "No asset found matching \""@ + name + "\""@,
            ResolveErrorView::IoError { directory, cause } => "Failed to create directory '"@
                + directory + "': "@ + cause,
            ResolveErrorView::DownloadError(cause) => "Failed to download file: "@ + cause,
            ResolveErrorView::PermissionError(cause) => "Failed to make file executable: "@
                + cause,
        }
    }
}

impl ResolveError {
    /// Renders the failure as the text a host shows.
    pub fn message(&self) -> (text: String)
        ensures
            text@ == self@.message(),
    {
        match self {
            ResolveError::LookupError(message) => message.clone(),
            ResolveError::UnsupportedPlatform => String::from_str("Unsupported architecture"),
            ResolveError::AssetNotFound(name) => {
                let mut text = String::from_str("No asset found matching \"");
                text.append(name.as_str());
                text.append("\"");
                text
            },
            ResolveError::IoError { directory, cause } => {
                let mut text = String::from_str("Failed to create directory '");
                text.append(directory.as_str());
                text.append("': ");
                text.append(cause.as_str());
                text
            },
            ResolveError::DownloadError(cause) => {
                let mut text = String::from_str("Failed to download file: ");
                text.append(cause.as_str());
                text
            },
            ResolveError::PermissionError(cause) => {
                let mut text = String::from_str("Failed to make file executable: ");
                text.append(cause.as_str());
                text
            },
        }
    }
}

} // verus!
