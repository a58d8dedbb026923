//! The fixed set of filesystem locations the pipeline reads from and writes
//! to, resolved once at startup from the platform's per-user data directory
//! and passed explicitly into every component. All fields are plain paths;
//! only `res_jre` changes after construction, when an installed runtime is
//! discovered under the cache root.

use vstd::prelude::*;
use crate::errors::InstallError;
use crate::strings;

verus! {

/// Every location the pipeline touches. Paths under `mcl_*` belong to the
/// externally-owned launcher tree; paths under `res_*` belong to this
/// pipeline's own cache root (`app_data_dir`).
#[derive(Debug, Clone, PartialEq)]
pub struct GlobalPaths {
    pub app_data_dir: String,
    pub config_file: String,

    pub mcl_dir: String,
    pub mcl_launcher_profiles: String,
    pub mcl_versions_dir: String,
    pub mcl_lwjglfat_jar: String,
    pub mcl_lwjglnatives: String,
    pub mcl_jre: String,
    pub mcl_runtime_dir: String,

    pub res_lwjgl: String,
    pub res_lwjglnatives: String,
    pub res_lwjglfat_jar: String,
    pub res_mcl_profiles: String,
    pub res_checksums: String,
    pub res_jre: Option<String>,
}

impl GlobalPaths {
    /// Every path stands in its documented place under the data directory
    /// `base`; nothing is guessed.
    pub open spec fn resolved_from(self, base: Seq<char>) -> bool {
        &&& self.app_data_dir@ == base + "/"@ + strings::APP_BUNDLE_ID@
        &&& self.config_file@ == self.app_data_dir@ + "/"@ + "config.json"@
        &&& self.mcl_dir@ == base + "/"@ + "minecraft"@
        &&& self.mcl_launcher_profiles@ == self.mcl_dir@ + "/"@ + "launcher_profiles.json"@
        &&& self.mcl_versions_dir@ == self.mcl_dir@ + "/"@ + "versions"@
        &&& self.mcl_lwjglfat_jar@ == self.mcl_dir@ + "/"@ + "libraries"@ + "/"@
            + strings::LWJGLFAT_JAR@
        &&& self.mcl_lwjglnatives@ == self.mcl_dir@ + "/"@ + strings::LWJGL_NATIVES@
        &&& self.mcl_jre@ == self.mcl_dir@ + "/"@ + "runtime/zulu-8.jre"@
        &&& self.mcl_runtime_dir@ == self.mcl_dir@ + "/"@ + "runtime"@
        &&& self.res_lwjgl@ == self.app_data_dir@ + "/"@ + "lwjgl"@
        &&& self.res_lwjglnatives@ == self.res_lwjgl@ + "/"@ + strings::LWJGL_NATIVES@
        &&& self.res_lwjglfat_jar@ == self.res_lwjgl@ + "/"@ + strings::LWJGLFAT_JAR@
        &&& self.res_mcl_profiles@ == self.app_data_dir@ + "/"@ + strings::MCL_PROFILES@
        &&& self.res_checksums@ == self.app_data_dir@ + "/"@ + strings::CHECKSUMS_TXT@
    }

    /// Resolves all locations from the platform's per-user data directory,
    /// handed in by the caller (`None` when the platform offers none, which
    /// is fatal). The runtime path starts out undiscovered.
    pub fn init(data_local_dir: Option<String>) -> (r: Result<GlobalPaths, InstallError>)
        ensures
            r is Ok <==> data_local_dir is Some,
            r matches Err(e) ==> e == InstallError::PathsUnavailable,
            r matches Ok(p) ==> {
                &&& p.resolved_from(data_local_dir->0@)
                &&& p.res_jre is None
            },
    {
        let base = match data_local_dir {
            Some(b) => b,
            None => {
                return Err(InstallError::PathsUnavailable);
            },
        };
        let app_data_dir = strings::path_join(base.as_str(), strings::APP_BUNDLE_ID);
        let mcl_dir = strings::path_join(base.as_str(), "minecraft");
        let res_lwjgl = strings::path_join(app_data_dir.as_str(), "lwjgl");
        let mcl_libraries = strings::path_join(mcl_dir.as_str(), "libraries");

        let paths = GlobalPaths {
            config_file: strings::path_join(app_data_dir.as_str(), "config.json"),

            mcl_launcher_profiles: strings::path_join(mcl_dir.as_str(), "launcher_profiles.json"),
            mcl_versions_dir: strings::path_join(mcl_dir.as_str(), "versions"),
            mcl_lwjglfat_jar: strings::path_join(mcl_libraries.as_str(), strings::LWJGLFAT_JAR),
            mcl_lwjglnatives: strings::path_join(mcl_dir.as_str(), strings::LWJGL_NATIVES),
            mcl_jre: strings::path_join(mcl_dir.as_str(), "runtime/zulu-8.jre"),
            mcl_runtime_dir: strings::path_join(mcl_dir.as_str(), "runtime"),

            res_lwjglnatives: strings::path_join(res_lwjgl.as_str(), strings::LWJGL_NATIVES),
            res_lwjglfat_jar: strings::path_join(res_lwjgl.as_str(), strings::LWJGLFAT_JAR),
            res_mcl_profiles: strings::path_join(app_data_dir.as_str(), strings::MCL_PROFILES),
            res_checksums: strings::path_join(app_data_dir.as_str(), strings::CHECKSUMS_TXT),
            res_jre: None,

            app_data_dir,
            mcl_dir,
            res_lwjgl,
        };
        Ok(paths)
    }

    /// Records the outcome of the one dynamic discovery the pipeline makes:
    /// the glob match for an installed runtime under the cache root. `None`
    /// (no match) is not an error; it means "not yet installed".
    pub fn set_optional(&mut self, jre_match: Option<String>)
        ensures
            final(self).res_jre == jre_match,
            *final(self) == (GlobalPaths { res_jre: jre_match, ..*old(self) }),
    {
        self.res_jre = jre_match;
    }

    /// The glob pattern that discovers an installed runtime directory.
    pub fn jre_glob_pattern(&self) -> (r: String)
        ensures
            r@ == self.app_data_dir@ + "/zulu8*_aarch64/zulu-8.jre"@,
    {
        strings::str_concat(self.app_data_dir.as_str(), "/zulu8*_aarch64/zulu-8.jre")
    }

    /// Unwraps a resolved path set; the caller must have initialized it.
    pub fn get(paths: &Option<GlobalPaths>) -> (r: &GlobalPaths)
        requires
            paths is Some,
        ensures
            *r == paths->0,
    {
        match paths {
            Some(p) => p,
            None => unreached(),
        }
    }
}

} // verus!
