//! The fixed artifact set and where each artifact lives: its remote URL under
//! the release endpoint, and its file in the local cache root.

use vstd::prelude::*;
use crate::paths::GlobalPaths;
use crate::strings;

verus! {

/// The remote URL of a named artifact.
pub fn artifact_url(name: &str) -> (r: String)
    ensures
        r@ == strings::ARTIFACT_URL@ + "/"@ + name@,
{
    strings::path_join(strings::ARTIFACT_URL, name)
}

/// The cache file a named artifact is downloaded to.
pub fn artifact_cache_path(paths: &GlobalPaths, name: &str) -> (r: String)
    ensures
        r@ == paths.app_data_dir@ + "/"@ + name@,
{
    strings::path_join(paths.app_data_dir.as_str(), name)
}

} // verus!
