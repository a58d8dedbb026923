//! The install orchestrator: a state machine that drives validation, cache
//! sync, runtime installation, provisioning, profile patching and launch.
//! Each step consumes one report from the I/O shell and decides the next
//! state and the outside actions to perform; every transition is pinned by
//! `step_post`. Within the cache sync, the three artifact fetches are joined
//! all-or-nothing: a single failure fails the step and orders nothing, so no
//! extraction ever runs against a partially-populated cache.

use vstd::prelude::*;
use crate::action::{Action, Event, FetchResult};
use crate::archive;
use crate::artifacts;
use crate::errors::InstallError;
use crate::paths::GlobalPaths;
use crate::strings;
use crate::sync;
use crate::version;

verus! {

/// Where the cache sync stands: deciding freshness, waiting for the three
/// fetches, or waiting for the extraction of the fetched archives.
#[derive(Debug, Clone, Copy, PartialEq, Eq, Structural)]
pub enum SyncPhase {
    CheckingManifests,
    Fetching,
    Extracting,
}

/// Where provisioning stands: deciding which copies are needed, or waiting
/// for them to finish.
#[derive(Debug, Clone, Copy, PartialEq, Eq, Structural)]
pub enum ProvisionPhase {
    Deciding,
    Copying,
}

/// The orchestrator's states. `Failed` is terminal and reachable from every
/// state; `Done` records whether the final best-effort launch succeeded.
#[derive(Debug, Clone, Copy, PartialEq, Eq, Structural)]
pub enum InstallState {
    ValidatingTarget,
    SyncingCache(SyncPhase),
    InstallingRuntime,
    ProvisioningFiles(ProvisionPhase),
    PatchingProfile,
    Launching,
    Done { launch_ok: bool },
    Failed(InstallError),
}

/// One install run: the current state, the resolved locations, and the
/// requested version (validated against the allow-list on construction).
#[derive(Debug)]
pub struct Installer {
    pub state: InstallState,
    pub paths: GlobalPaths,
    pub version: String,
}

/// The first failure among the three fetches, in the order they were
/// ordered.
pub open spec fn first_fetch_error(p: FetchResult, n: FetchResult, m: FetchResult) -> InstallError {
    if p != FetchResult::Fetched {
        p.spec_error()
    } else if n != FetchResult::Fetched {
        n.spec_error()
    } else {
        m.spec_error()
    }
}

/// The three concurrent artifact fetches of a cache refresh: the profiles
/// archive, the native-library archive and the checksum manifest, each into
/// the cache root.
pub open spec fn is_fetch_actions(actions: Seq<Action>, paths: GlobalPaths) -> bool {
    &&& actions.len() == 3
    &&& (actions[0] matches Action::FetchArtifact { url, dest } && url@ == strings::ARTIFACT_URL@
        + "/"@ + "mcl_profiles.zip"@ && dest@ == paths.app_data_dir@ + "/"@ + "mcl_profiles.zip"@)
    &&& (actions[1] matches Action::FetchArtifact { url, dest } && url@ == strings::ARTIFACT_URL@
        + "/"@ + "lwjgl.zip"@ && dest@ == paths.app_data_dir@ + "/"@ + "lwjgl.zip"@)
    &&& (actions[2] matches Action::FetchArtifact { url, dest } && url@ == strings::ARTIFACT_URL@
        + "/"@ + "checksums.txt"@ && dest@ == paths.app_data_dir@ + "/"@ + "checksums.txt"@)
}

/// The extraction of the two fetched archives into the cache root.
pub open spec fn is_install_archive_actions(actions: Seq<Action>, paths: GlobalPaths) -> bool {
    &&& actions.len() == 2
    &&& (actions[0] matches Action::InstallArchive { archive, dest_root, inner_dir } && archive@
        == paths.app_data_dir@ + "/"@ + "mcl_profiles.zip"@ && dest_root@ == paths.app_data_dir@
        && inner_dir@ == strings::MCL_PROFILES@)
    &&& (actions[1] matches Action::InstallArchive { archive, dest_root, inner_dir } && archive@
        == paths.app_data_dir@ + "/"@ + "lwjgl.zip"@ && dest_root@ == paths.app_data_dir@
        && inner_dir@ == "lwjgl"@)
}

/// The composite runtime installation: fetch the runtime archive into the
/// cache, extract it there, rediscover the runtime directory, and mark its
/// binaries executable.
pub open spec fn is_install_runtime_action(actions: Seq<Action>, paths: GlobalPaths) -> bool {
    &&& actions.len() == 1
    &&& (actions[0] matches Action::InstallRuntime {
        url,
        zip_path,
        extract_dest,
        glob_pattern,
        bin_subdir,
    } && url@ == strings::JAVA_8_URL@ && zip_path@ == paths.app_data_dir@ + "/"@
        + strings::JAVA_8_ZIP@ && extract_dest@ == paths.app_data_dir@ && glob_pattern@
        == paths.app_data_dir@ + "/zulu8*_aarch64/zulu-8.jre"@ && bin_subdir@
        == "Contents/Home/bin"@)
}

/// Which of the four provisioning copies are ordered, in their fixed order:
/// native libraries, the fat jar, the version directory, the runtime. A copy
/// is ordered exactly when its destination does not exist yet.
pub open spec fn provision_plan(
    natives_exists: bool,
    fatjar_exists: bool,
    version_dir_exists: bool,
    jre_exists: bool,
) -> Seq<int> {
    (if !natives_exists {
        seq![0int]
    } else {
        Seq::<int>::empty()
    }) + (if !fatjar_exists {
        seq![1int]
    } else {
        Seq::<int>::empty()
    }) + (if !version_dir_exists {
        seq![2int]
    } else {
        Seq::<int>::empty()
    }) + (if !jre_exists {
        seq![3int]
    } else {
        Seq::<int>::empty()
    })
}

/// The concrete copy each provisioning slot stands for.
pub open spec fn is_copy_action(
    a: Action,
    which: int,
    paths: GlobalPaths,
    ver: Seq<char>,
) -> bool {
    if which == 0 {
        a matches Action::CopyDir { src, into } && src@ == paths.res_lwjglnatives@ && into@
            == paths.mcl_dir@
    } else if which == 1 {
        a matches Action::CopyFile { src, dest } && src@ == paths.res_lwjglfat_jar@ && dest@
            == paths.mcl_lwjglfat_jar@
    } else if which == 2 {
        a matches Action::CopyDir { src, into } && src@ == paths.res_mcl_profiles@ + "/"@ + (ver
            + "-arm"@) && into@ == paths.mcl_versions_dir@
    } else {
        a matches Action::CopyDir { src, into } && src@ == paths.res_jre->0@ && into@
            == paths.mcl_runtime_dir@
    }
}

/// The ordered provisioning copies for the reported destinations.
pub open spec fn is_provision_actions(
    actions: Seq<Action>,
    paths: GlobalPaths,
    ver: Seq<char>,
    natives_exists: bool,
    fatjar_exists: bool,
    version_dir_exists: bool,
    jre_exists: bool,
) -> bool {
    let plan = provision_plan(natives_exists, fatjar_exists, version_dir_exists, jre_exists);
    &&& actions.len() == plan.len()
    &&& forall|i: int|
        0 <= i < actions.len() ==> is_copy_action(#[trigger] actions[i], plan[i], paths, ver)
}

/// The single profile-merge order.
pub open spec fn is_merge_profile_action(
    actions: Seq<Action>,
    paths: GlobalPaths,
    ver: Seq<char>,
) -> bool {
    &&& actions.len() == 1
    &&& (actions[0] matches Action::MergeProfile { registry_path, java_bin, version } &&
        registry_path@ == paths.mcl_launcher_profiles@ && java_bin@ == paths.mcl_jre@
        + "/Contents/Home/bin/java"@ && version@ == ver)
}

/// Entering the runtime step: skipped entirely when a runtime was already
/// discovered, otherwise the composite installation is ordered.
pub open spec fn runtime_decision(pre: Installer, post: Installer, actions: Seq<Action>) -> bool {
    &&& post.paths == pre.paths
    &&& post.version == pre.version
    &&& if pre.paths.res_jre is Some {
        &&& post.state == InstallState::ProvisioningFiles(ProvisionPhase::Deciding)
        &&& actions.len() == 0
    } else {
        &&& post.state == InstallState::InstallingRuntime
        &&& is_install_runtime_action(actions, pre.paths)
    }
}

/// `post` is `pre` moved to `state`, with nothing ordered.
pub open spec fn moved_to(pre: Installer, post: Installer, state: InstallState, actions: Seq<
    Action,
>) -> bool {
    &&& post.state == state
    &&& post.paths == pre.paths
    &&& post.version == pre.version
    &&& actions.len() == 0
}

/// The full transition relation of one `step` call.
pub open spec fn step_post(pre: Installer, event: Event, post: Installer, actions: Seq<
    Action,
>) -> bool {
    match (pre.state, event) {
        (
            InstallState::ValidatingTarget,
            Event::TargetChecked { mcl_dir, launcher_profiles, versions_dir },
        ) => {
            if mcl_dir && launcher_profiles && versions_dir {
                moved_to(pre, post, InstallState::SyncingCache(SyncPhase::CheckingManifests),
                    actions)
            } else {
                moved_to(pre, post, InstallState::Failed(InstallError::TargetNotFound), actions)
            }
        },
        (
            InstallState::SyncingCache(SyncPhase::CheckingManifests),
            Event::ManifestsLoaded { local, remote },
        ) => {
            match remote {
                None => moved_to(pre, post, InstallState::Failed(InstallError::NetworkFailure),
                    actions),
                Some(r) => {
                    if sync::cache_is_fresh(
                        match local {
                            Some(l) => Some(l@),
                            None => None,
                        },
                        r@,
                    ) {
                        runtime_decision(pre, post, actions)
                    } else {
                        &&& post.state == InstallState::SyncingCache(SyncPhase::Fetching)
                        &&& post.paths == pre.paths
                        &&& post.version == pre.version
                        &&& is_fetch_actions(actions, pre.paths)
                    }
                },
            }
        },
        (
            InstallState::SyncingCache(SyncPhase::Fetching),
            Event::FetchBatchDone { profiles, natives, manifest },
        ) => {
            if profiles == FetchResult::Fetched && natives == FetchResult::Fetched && manifest
                == FetchResult::Fetched {
                &&& post.state == InstallState::SyncingCache(SyncPhase::Extracting)
                &&& post.paths == pre.paths
                &&& post.version == pre.version
                &&& is_install_archive_actions(actions, pre.paths)
            } else {
                moved_to(pre, post, InstallState::Failed(
                    first_fetch_error(profiles, natives, manifest)), actions)
            }
        },
        (InstallState::SyncingCache(SyncPhase::Extracting), Event::ArchivesExtracted { error }) => {
            match error {
                None => runtime_decision(pre, post, actions),
                Some(e) => moved_to(pre, post, InstallState::Failed(e), actions),
            }
        },
        (InstallState::InstallingRuntime, Event::RuntimeInstalled { jre_path, error }) => {
            match error {
                Some(e) => moved_to(pre, post, InstallState::Failed(e), actions),
                None => {
                    match jre_path {
                        Some(p) => {
                            &&& post.state == InstallState::ProvisioningFiles(
                                ProvisionPhase::Deciding)
                            &&& post.paths == (GlobalPaths { res_jre: Some(p), ..pre.paths })
                            &&& post.version == pre.version
                            &&& actions.len() == 0
                        },
                        None => moved_to(pre, post, InstallState::Failed(
                            InstallError::ExtractFailure), actions),
                    }
                },
            }
        },
        (
            InstallState::ProvisioningFiles(ProvisionPhase::Deciding),
            Event::ProvisionChecked { natives_exists, fatjar_exists, version_dir_exists, jre_exists },
        ) => {
            &&& post.state == InstallState::ProvisioningFiles(ProvisionPhase::Copying)
            &&& post.paths == pre.paths
            &&& post.version == pre.version
            &&& is_provision_actions(actions, pre.paths, pre.version@, natives_exists,
                fatjar_exists, version_dir_exists, jre_exists)
        },
        (InstallState::ProvisioningFiles(ProvisionPhase::Copying), Event::ProvisionDone { error }) => {
            match error {
                None => {
                    &&& post.state == InstallState::PatchingProfile
                    &&& post.paths == pre.paths
                    &&& post.version == pre.version
                    &&& is_merge_profile_action(actions, pre.paths, pre.version@)
                },
                Some(e) => moved_to(pre, post, InstallState::Failed(e), actions),
            }
        },
        (InstallState::PatchingProfile, Event::ProfilePatched { error }) => {
            match error {
                None => {
                    &&& post.state == InstallState::Launching
                    &&& post.paths == pre.paths
                    &&& post.version == pre.version
                    &&& actions.len() == 1
                    &&& actions[0] == Action::LaunchGame
                },
                Some(e) => moved_to(pre, post, InstallState::Failed(e), actions),
            }
        },
        (InstallState::Launching, Event::LaunchFinished { ok }) => {
            // A launch failure is reported but does not unwind the install.
            moved_to(pre, post, InstallState::Done { launch_ok: ok }, actions)
        },
        _ => {
            // Terminal states, and reports that do not belong to the current
            // state, change nothing and order nothing.
            post == pre && actions.len() == 0
        },
    }
}

impl Installer {
    /// A runtime location is known from provisioning onwards.
    pub open spec fn wf(self) -> bool {
        self.state matches InstallState::ProvisioningFiles(_) ==> self.paths.res_jre is Some
    }

    /// Starts a run for the requested version. An unsupported version is
    /// rejected here, before any network or filesystem activity.
    pub fn new(paths: GlobalPaths, requested: String) -> (r: Result<Installer, InstallError>)
        ensures
            r is Ok <==> version::version_supported(requested@),
            r matches Err(e) ==> e == InstallError::UnsupportedVersion,
            r matches Ok(inst) ==> inst == (Installer {
                state: InstallState::ValidatingTarget,
                paths,
                version: requested,
            }) && inst.wf(),
    {
        if version::is_supported_version(requested.as_str()) {
            Ok(Installer { state: InstallState::ValidatingTarget, paths, version: requested })
        } else {
            Err(InstallError::UnsupportedVersion)
        }
    }

    /// Consumes one report from the shell and returns the actions to perform
    /// next, per the transition relation `step_post`.
    pub fn step(&mut self, event: Event) -> (actions: Vec<Action>)
        requires
            old(self).wf(),
        ensures
            final(self).wf(),
            step_post(*old(self), event, *final(self), actions@),
    {
        let mut actions: Vec<Action> = Vec::new();
        match (self.state, event) {
            (
                InstallState::ValidatingTarget,
                Event::TargetChecked { mcl_dir, launcher_profiles, versions_dir },
            ) => {
                if crate::mcl::check_minecraft_launcher_paths(
                    mcl_dir,
                    launcher_profiles,
                    versions_dir,
                ) {
                    self.state = InstallState::SyncingCache(SyncPhase::CheckingManifests);
                } else {
                    self.state = InstallState::Failed(InstallError::TargetNotFound);
                }
            },
            (
                InstallState::SyncingCache(SyncPhase::CheckingManifests),
                Event::ManifestsLoaded { local, remote },
            ) => {
                match remote {
                    None => {
                        self.state = InstallState::Failed(InstallError::NetworkFailure);
                    },
                    Some(r) => {
                        if sync::is_stale(&local, &r) {
                            actions.push(self.fetch_action("mcl_profiles.zip"));
                            actions.push(self.fetch_action("lwjgl.zip"));
                            actions.push(self.fetch_action("checksums.txt"));
                            self.state = InstallState::SyncingCache(SyncPhase::Fetching);
                        } else {
                            self.runtime_step(&mut actions);
                        }
                    },
                }
            },
            (
                InstallState::SyncingCache(SyncPhase::Fetching),
                Event::FetchBatchDone { profiles, natives, manifest },
            ) => {
                if matches!(profiles, FetchResult::Fetched) && matches!(
                    natives,
                    FetchResult::Fetched,
                ) && matches!(manifest, FetchResult::Fetched) {
                    actions.push(
                        Action::InstallArchive {
                            archive: artifacts::artifact_cache_path(&self.paths,
                                "mcl_profiles.zip"),
                            dest_root: self.paths.app_data_dir.clone(),
                            inner_dir: strings::MCL_PROFILES.to_owned(),
                        },
                    );
                    actions.push(
                        Action::InstallArchive {
                            archive: artifacts::artifact_cache_path(&self.paths, "lwjgl.zip"),
                            dest_root: self.paths.app_data_dir.clone(),
                            inner_dir: "lwjgl".to_owned(),
                        },
                    );
                    self.state = InstallState::SyncingCache(SyncPhase::Extracting);
                } else {
                    let e = if !matches!(profiles, FetchResult::Fetched) {
                        fetch_error(profiles)
                    } else if !matches!(natives, FetchResult::Fetched) {
                        fetch_error(natives)
                    } else {
                        fetch_error(manifest)
                    };
                    self.state = InstallState::Failed(e);
                }
            },
            (
                InstallState::SyncingCache(SyncPhase::Extracting),
                Event::ArchivesExtracted { error },
            ) => {
                match error {
                    None => {
                        self.runtime_step(&mut actions);
                    },
                    Some(e) => {
                        self.state = InstallState::Failed(e);
                    },
                }
            },
            (InstallState::InstallingRuntime, Event::RuntimeInstalled { jre_path, error }) => {
                match error {
                    Some(e) => {
                        self.state = InstallState::Failed(e);
                    },
                    None => {
                        match jre_path {
                            Some(p) => {
                                self.paths.set_optional(Some(p));
                                self.state = InstallState::ProvisioningFiles(
                                    ProvisionPhase::Deciding,
                                );
                            },
                            None => {
                                self.state = InstallState::Failed(InstallError::ExtractFailure);
                            },
                        }
                    },
                }
            },
            (
                InstallState::ProvisioningFiles(ProvisionPhase::Deciding),
                Event::ProvisionChecked {
                    natives_exists,
                    fatjar_exists,
                    version_dir_exists,
                    jre_exists,
                },
            ) => {
                if !natives_exists {
                    actions.push(
                        Action::CopyDir {
                            src: self.paths.res_lwjglnatives.clone(),
                            into: self.paths.mcl_dir.clone(),
                        },
                    );
                }
                if !fatjar_exists {
                    actions.push(
                        Action::CopyFile {
                            src: self.paths.res_lwjglfat_jar.clone(),
                            dest: self.paths.mcl_lwjglfat_jar.clone(),
                        },
                    );
                }
                if !version_dir_exists {
                    let dir_name = version::profile_dir_name(self.version.as_str());
                    actions.push(
                        Action::CopyDir {
                            src: strings::path_join(
                                self.paths.res_mcl_profiles.as_str(),
                                dir_name.as_str(),
                            ),
                            into: self.paths.mcl_versions_dir.clone(),
                        },
                    );
                }
                if !jre_exists {
                    let jre = match &self.paths.res_jre {
                        Some(p) => p.clone(),
                        None => unreached(),
                    };
                    actions.push(
                        Action::CopyDir { src: jre, into: self.paths.mcl_runtime_dir.clone() },
                    );
                }
                self.state = InstallState::ProvisioningFiles(ProvisionPhase::Copying);
            },
            (
                InstallState::ProvisioningFiles(ProvisionPhase::Copying),
                Event::ProvisionDone { error },
            ) => {
                match error {
                    None => {
                        actions.push(
                            Action::MergeProfile {
                                registry_path: self.paths.mcl_launcher_profiles.clone(),
                                java_bin: strings::str_concat(
                                    self.paths.mcl_jre.as_str(),
                                    "/Contents/Home/bin/java",
                                ),
                                version: self.version.clone(),
                            },
                        );
                        self.state = InstallState::PatchingProfile;
                    },
                    Some(e) => {
                        self.state = InstallState::Failed(e);
                    },
                }
            },
            (InstallState::PatchingProfile, Event::ProfilePatched { error }) => {
                match error {
                    None => {
                        actions.push(Action::LaunchGame);
                        self.state = InstallState::Launching;
                    },
                    Some(e) => {
                        self.state = InstallState::Failed(e);
                    },
                }
            },
            (InstallState::Launching, Event::LaunchFinished { ok }) => {
                self.state = InstallState::Done { launch_ok: ok };
            },
            (_, _) => {},
        }
        actions
    }

    /// Orders one artifact fetch into the cache root.
    fn fetch_action(&self, name: &str) -> (a: Action)
        ensures
            a matches Action::FetchArtifact { url, dest } && url@ == strings::ARTIFACT_URL@ + "/"@
                + name@ && dest@ == self.paths.app_data_dir@ + "/"@ + name@,
    {
        Action::FetchArtifact {
            url: artifacts::artifact_url(name),
            dest: artifacts::artifact_cache_path(&self.paths, name),
        }
    }

    /// Applies the runtime decision: skip when a runtime is already
    /// discovered, order its installation otherwise.
    fn runtime_step(&mut self, actions: &mut Vec<Action>)
        requires
            old(actions)@.len() == 0,
        ensures
            runtime_decision(*old(self), *final(self), final(actions)@),
            final(self).paths == old(self).paths,
            final(self).version == old(self).version,
            final(self).state matches InstallState::ProvisioningFiles(_)
                ==> final(self).paths.res_jre is Some,
    {
        if self.paths.res_jre.is_some() {
            self.state = InstallState::ProvisioningFiles(ProvisionPhase::Deciding);
        } else {
            actions.push(
                Action::InstallRuntime {
                    url: strings::JAVA_8_URL.to_owned(),
                    zip_path: artifacts::artifact_cache_path(&self.paths, strings::JAVA_8_ZIP),
                    extract_dest: self.paths.app_data_dir.clone(),
                    glob_pattern: self.paths.jre_glob_pattern(),
                    bin_subdir: "Contents/Home/bin".to_owned(),
                },
            );
            self.state = InstallState::InstallingRuntime;
        }
    }
}

/// Law: the fetch batch is all-or-nothing — when any of the three concurrent
/// fetches fails, the sync step fails the run and orders nothing: no archive
/// is extracted, and the (empty) order list leaves any cache tree exactly as
/// it was, so the previous archives stay on disk untouched.
pub proof fn lemma_fetch_all_or_nothing(
    pre: Installer,
    event: Event,
    post: Installer,
    actions: Seq<Action>,
    fs: archive::FsModel,
    files: archive::FsModel,
)
    requires
        step_post(pre, event, post, actions),
        pre.state == InstallState::SyncingCache(SyncPhase::Fetching),
        event matches Event::FetchBatchDone { profiles, natives, manifest } && !(profiles
            == FetchResult::Fetched && natives == FetchResult::Fetched && manifest
            == FetchResult::Fetched),
    ensures
        post.state matches InstallState::Failed(_),
        actions.len() == 0,
        archive::apply_plan(fs, actions, files) == fs,
{
}

/// Law: provisioning never clobbers — for every destination reported as
/// already existing, no ordered action is the copy that writes it, so its
/// content stays as it was.
pub proof fn lemma_provision_non_clobber(
    pre: Installer,
    event: Event,
    post: Installer,
    actions: Seq<Action>,
    base: Seq<char>,
    ne: bool,
    fe: bool,
    ve: bool,
    je: bool,
)
    requires
        step_post(pre, event, post, actions),
        pre.state == InstallState::ProvisioningFiles(ProvisionPhase::Deciding),
        pre.paths.resolved_from(base),
        event == (Event::ProvisionChecked {
            natives_exists: ne,
            fatjar_exists: fe,
            version_dir_exists: ve,
            jre_exists: je,
        }),
    ensures
        ne ==> forall|i: int|
            0 <= i < actions.len() ==> !is_copy_action(#[trigger] actions[i], 0, pre.paths,
            pre.version@),
        fe ==> forall|i: int|
            0 <= i < actions.len() ==> !is_copy_action(#[trigger] actions[i], 1, pre.paths,
            pre.version@),
        ve ==> forall|i: int|
            0 <= i < actions.len() ==> !is_copy_action(#[trigger] actions[i], 2, pre.paths,
            pre.version@),
        je ==> forall|i: int|
            0 <= i < actions.len() ==> !is_copy_action(#[trigger] actions[i], 3, pre.paths,
            pre.version@),
{
    reveal_strlit("/");
    reveal_strlit("versions");
    reveal_strlit("runtime");
    let paths = pre.paths;
    assert(paths.mcl_versions_dir@.len() > paths.mcl_dir@.len());
    assert(paths.mcl_runtime_dir@.len() > paths.mcl_dir@.len());
    assert(paths.mcl_versions_dir@.len() != paths.mcl_runtime_dir@.len());
    let plan = provision_plan(ne, fe, ve, je);
    assert forall|i: int| 0 <= i < actions.len() implies {
        &&& ne ==> !is_copy_action(#[trigger] actions[i], 0, paths, pre.version@)
        &&& fe ==> !is_copy_action(actions[i], 1, paths, pre.version@)
        &&& ve ==> !is_copy_action(actions[i], 2, paths, pre.version@)
        &&& je ==> !is_copy_action(actions[i], 3, paths, pre.version@)
    } by {
        assert(is_copy_action(actions[i], plan[i], paths, pre.version@));
        assert(ne ==> plan[i] != 0);
        assert(fe ==> plan[i] != 1);
        assert(ve ==> plan[i] != 2);
        assert(je ==> plan[i] != 3);
    }
}

/// The install error a failed fetch surfaces as.
fn fetch_error(r: FetchResult) -> (e: InstallError)
    ensures
        e == r.spec_error(),
{
    match r {
        FetchResult::Fetched => InstallError::NetworkFailure,
        FetchResult::NetworkFailure => InstallError::NetworkFailure,
        FetchResult::WriteFailure => InstallError::WriteFailure,
    }
}

} // verus!
