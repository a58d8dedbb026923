//! Fixed names and endpoints of the pipeline: artifact file names, remote
//! URLs, the profile key prefix, and small string helpers used to build
//! paths and keys from them.

use vstd::prelude::*;
use vstd::string::StringExecFns;

verus! {

pub const APP_BUNDLE_ID: &'static str = "raphtlw.apps.M1necraft";

pub const ARTIFACT_URL: &'static str = "https://github.com/raphtlw/m1necraft/releases/download/resources";

pub const JAVA_8_URL: &'static str =
    "https://cdn.azul.com/zulu/bin/zulu8.58.0.13-ca-jre8.0.312-macosx_aarch64.zip";

pub const CHECKSUMS_TXT: &'static str = "checksums.txt";

pub const LWJGLFAT_JAR: &'static str = "lwjglfat.jar";

pub const LWJGL_NATIVES: &'static str = "lwjglnatives";

pub const MCL_PROFILES: &'static str = "mcl_profiles";

pub const JAVA_8_ZIP: &'static str = "jre8.zip";

pub const LAUNCHER_PROFILE_KEY_PREFIX: &'static str = "m1necraft-";

pub const ZIP_MACOSX_METADATA_FOLDER: &'static str = "__MACOSX";

/// Whether two string slices hold the same characters.
pub fn str_eq(a: &str, b: &str) -> (r: bool)
    ensures
        r == (a@ == b@),
{
    let x = a.to_owned();
    let y = b.to_owned();
    x == y
}

/// Joins one path component onto a base path with a `/` separator.
pub fn path_join(base: &str, child: &str) -> (r: String)
    ensures
        r@ == base@ + "/"@ + child@,
{
    let mut s = base.to_owned();
    s.append("/");
    s.append(child);
    s
}

/// Concatenates two strings.
pub fn str_concat(a: &str, b: &str) -> (r: String)
    ensures
        r@ == a@ + b@,
{
    let mut s = a.to_owned();
    s.append(b);
    s
}

} // verus!
