//! Validation of the externally-owned launcher tree. The pipeline never
//! creates these locations; they must already exist from the launcher's own
//! first run.

use vstd::prelude::*;

verus! {

/// Whether the launcher tree is usable: its root, its profile registry and
/// its `versions/` directory must all be present. The caller reports each
/// location's existence.
pub fn check_minecraft_launcher_paths(
    mcl_dir_exists: bool,
    launcher_profiles_exists: bool,
    versions_dir_exists: bool,
) -> (r: bool)
    ensures
        r == (mcl_dir_exists && launcher_profiles_exists && versions_dir_exists),
{
    mcl_dir_exists && launcher_profiles_exists && versions_dir_exists
}

} // verus!
