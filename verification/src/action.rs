//! The vocabulary between the decision core and the I/O shell that runs it:
//! `Action` is what the core asks the shell to perform; `Event` is what the
//! shell reports back. The core never touches the network or the filesystem
//! itself.

use vstd::prelude::*;
use crate::errors::InstallError;

verus! {

/// One outside operation the pipeline orders. The shell performs actions in
/// the order given and reports the outcome with the matching `Event`.
#[derive(Debug, Clone, PartialEq)]
pub enum Action {
    /// Download `url` and write it atomically to `dest`.
    FetchArtifact { url: String, dest: String },
    /// Remove the directory `path` recursively; failure is fatal.
    RemoveDir { path: String },
    /// Remove the directory `path` recursively if it exists.
    RemoveDirIfExists { path: String },
    /// Extract the archive at `archive` into the directory `dest`.
    Unzip { archive: String, dest: String },
    /// Install the archive at `archive` into `dest_root`, refreshing its
    /// inner directory `inner_dir`: the shell checks whether the inner
    /// directory exists, plans with `extract_zip_plan`, and performs the
    /// planned primitive actions in order.
    InstallArchive { archive: String, dest_root: String, inner_dir: String },
    /// Download and extract the runtime, rediscover it under `glob_pattern`,
    /// and mark its `bin_subdir` executables.
    InstallRuntime {
        url: String,
        zip_path: String,
        extract_dest: String,
        glob_pattern: String,
        bin_subdir: String,
    },
    /// Copy the directory `src` into the directory `into`.
    CopyDir { src: String, into: String },
    /// Copy the file `src` to `dest`.
    CopyFile { src: String, dest: String },
    /// Merge the owned profile entry for `version` into the registry file at
    /// `registry_path`, pointing it at the java binary `java_bin`.
    MergeProfile { registry_path: String, java_bin: String, version: String },
    /// Start the target application; failure does not undo the install.
    LaunchGame,
}

/// The outcome of one artifact fetch.
#[derive(Debug, Clone, Copy, PartialEq, Eq, Structural)]
pub enum FetchResult {
    Fetched,
    NetworkFailure,
    WriteFailure,
}

impl FetchResult {
    /// The install error a failed fetch surfaces as; consulted only for
    /// failed fetches, so a successful one maps to an arbitrary fixed error.
    pub open spec fn spec_error(self) -> InstallError {
        match self {
            FetchResult::Fetched => InstallError::NetworkFailure,
            FetchResult::NetworkFailure => InstallError::NetworkFailure,
            FetchResult::WriteFailure => InstallError::WriteFailure,
        }
    }
}

/// What the shell reports back to the decision core.
#[derive(Debug, Clone, PartialEq)]
pub enum Event {
    /// Whether each required location of the launcher tree exists.
    TargetChecked { mcl_dir: bool, launcher_profiles: bool, versions_dir: bool },
    /// The local manifest text if present, and the remote manifest text
    /// unless the network failed.
    ManifestsLoaded { local: Option<String>, remote: Option<String> },
    /// The outcome of the three concurrent artifact fetches.
    FetchBatchDone { profiles: FetchResult, natives: FetchResult, manifest: FetchResult },
    /// The outcome of extracting the fetched archives into the cache.
    ArchivesExtracted { error: Option<InstallError> },
    /// The outcome of installing the runtime: the discovered runtime path on
    /// success, the failure otherwise.
    RuntimeInstalled { jre_path: Option<String>, error: Option<InstallError> },
    /// Whether each provisioning destination in the launcher tree exists.
    ProvisionChecked {
        natives_exists: bool,
        fatjar_exists: bool,
        version_dir_exists: bool,
        jre_exists: bool,
    },
    /// The outcome of the ordered provisioning copies.
    ProvisionDone { error: Option<InstallError> },
    /// The outcome of merging the profile entry.
    ProfilePatched { error: Option<InstallError> },
    /// Whether the target application started.
    LaunchFinished { ok: bool },
}

} // verus!
