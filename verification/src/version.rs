//! The fixed version allow-list and the names derived from a version
//! identifier: the `versions/` directory entry and the profile-registry key
//! the pipeline owns.

use vstd::prelude::*;
use crate::strings;

verus! {

/// The allow-list: the only version the prebuilt artifacts currently cover.
pub open spec fn version_supported(v: Seq<char>) -> bool {
    v == "1.16.5"@
}

/// Checks the requested version against the fixed allow-list. This runs
/// before any network or filesystem activity.
pub fn is_supported_version(v: &str) -> (r: bool)
    ensures
        r == version_supported(v@),
{
    strings::str_eq(v, "1.16.5")
}

/// The name of the version directory installed under `versions/`.
pub fn profile_dir_name(version: &str) -> (r: String)
    ensures
        r@ == version@ + "-arm"@,
{
    strings::str_concat(version, "-arm")
}

/// The registry key this pipeline owns for the given version.
pub fn launcher_profile_key(version: &str) -> (r: String)
    ensures
        r@ == strings::LAUNCHER_PROFILE_KEY_PREFIX@ + version@,
{
    strings::str_concat(strings::LAUNCHER_PROFILE_KEY_PREFIX, version)
}

} // verus!
