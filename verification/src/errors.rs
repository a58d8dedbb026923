//! Error taxonomy of the install pipeline. Every fatal condition surfaces as
//! one of these variants; none is retried automatically. `LaunchFailure` is
//! special: it is reported, but the install itself is already durable when it
//! can occur.

use vstd::prelude::*;

verus! {

#[derive(Debug, Clone, Copy, PartialEq, Eq, Structural)]
pub enum InstallError {
    /// The platform's per-user data directory could not be determined.
    PathsUnavailable,
    /// The requested version is not in the fixed allow-list.
    UnsupportedVersion,
    /// The target launcher tree is missing; it must have been run once before.
    TargetNotFound,
    /// An artifact fetch failed on the network side.
    NetworkFailure,
    /// A fetched artifact could not be written to the cache.
    WriteFailure,
    /// An archive could not be extracted.
    ExtractFailure,
    /// A stale directory could not be removed before or after extraction.
    CleanupFailure,
    /// The profile registry is not JSON of the expected top-level shape.
    ParseFailure,
    /// Launching the target application failed; the install is still complete.
    LaunchFailure,
}

impl InstallError {
    /// The fixed human-readable message of each variant.
    pub open spec fn spec_message(self) -> Seq<char> {
        match self {
            InstallError::PathsUnavailable => "could not determine the user data directory"@,
            InstallError::UnsupportedVersion => "the requested version is not supported"@,
            InstallError::TargetNotFound => "Minecraft launcher not found; run it once first"@,
            InstallError::NetworkFailure => "failed to download a required artifact"@,
            InstallError::WriteFailure => "failed to write a downloaded artifact"@,
            InstallError::ExtractFailure => "failed to extract an archive"@,
            InstallError::CleanupFailure => "failed to remove a stale directory"@,
            InstallError::ParseFailure => "launcher_profiles.json is malformed"@,
            InstallError::LaunchFailure => "failed to start the Minecraft launcher"@,
        }
    }

    /// A human-readable message for reporting; advisory only.
    pub fn message(&self) -> (r: &'static str)
        ensures
            r@ == self.spec_message(),
    {
        match self {
            InstallError::PathsUnavailable => "could not determine the user data directory",
            InstallError::UnsupportedVersion => "the requested version is not supported",
            InstallError::TargetNotFound => "Minecraft launcher not found; run it once first",
            InstallError::NetworkFailure => "failed to download a required artifact",
            InstallError::WriteFailure => "failed to write a downloaded artifact",
            InstallError::ExtractFailure => "failed to extract an archive",
            InstallError::CleanupFailure => "failed to remove a stale directory",
            InstallError::ParseFailure => "launcher_profiles.json is malformed",
            InstallError::LaunchFailure => "failed to start the Minecraft launcher",
        }
    }
}

} // verus!
