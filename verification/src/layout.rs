//! Where an installed release lives on disk: `<version directory>/<asset name>`.

use crate::platform::product;
use vstd::prelude::*;

verus! {

/// The directory that holds one installed release: `<product>-<version>`.
pub open spec fn spec_version_dir(version: Seq<char>) -> Seq<char> {
    product() + "-"@ + version
}

/// The path of an asset inside a version directory.
pub open spec fn spec_binary_path(version_dir: Seq<char>, asset_name: Seq<char>) -> Seq<char> {
    version_dir + "/"@ + asset_name
}

/// Names the directory that holds the release of the given version.
pub fn version_dir(version: &str) -> (directory: String)
    ensures
        directory@ == spec_version_dir(version@),
{
    let mut directory = String::from_str("htmx-lsp");
    directory.append("-");
    directory.append(version);
    directory
}

/// Names the file an asset is installed as inside a version directory.
pub fn binary_path(version_dir: &str, asset_name: &str) -> (path: String)
    ensures
        path@ == spec_binary_path(version_dir@, asset_name@),
{
    let mut path = String::from_str(version_dir);
    path.append("/");
    path.append(asset_name);
    path
}

} // verus!
