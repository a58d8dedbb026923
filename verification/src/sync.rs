//! Cache freshness decision: the local artifact cache is refreshed whenever
//! the locally cached checksum manifest differs from the remote one, or is
//! absent. The two manifests are compared as whole texts; no per-artifact
//! diffing is attempted.

use vstd::prelude::*;

verus! {

/// The cache is fresh exactly when a local manifest is present and its text
/// equals the remote manifest's text.
pub open spec fn cache_is_fresh(local: Option<Seq<char>>, remote: Seq<char>) -> bool {
    local matches Some(l) && l == remote
}

/// Decides whether the local cache must be refreshed: any difference between
/// the local and remote manifest texts (including a missing local manifest)
/// counts as stale.
pub fn is_stale(local: &Option<String>, remote: &String) -> (stale: bool)
    ensures
        stale == !cache_is_fresh(
            match local {
                Some(l) => Some(l@),
                None => None,
            },
            remote@,
        ),
{
    match local {
        Some(l) => !(*l == *remote),
        None => true,
    }
}

} // verus!
