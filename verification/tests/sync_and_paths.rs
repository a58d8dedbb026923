use m1necraft::artifacts::{artifact_cache_path, artifact_url};
use m1necraft::errors::InstallError;
use m1necraft::mcl::check_minecraft_launcher_paths;
use m1necraft::paths::GlobalPaths;
use m1necraft::sync::is_stale;
use m1necraft::version::{is_supported_version, launcher_profile_key, profile_dir_name};

fn resolved() -> GlobalPaths {
    GlobalPaths::init(Some("/home/user/.local/share".to_string())).unwrap()
}

#[test]
fn equal_manifests_are_fresh() {
    let local = Some("a1b2 archive.zip\nc3d4 other.zip\n".to_string());
    let remote = "a1b2 archive.zip\nc3d4 other.zip\n".to_string();
    assert!(!is_stale(&local, &remote));
}

#[test]
fn different_manifests_are_stale() {
    let local = Some("a1b2 archive.zip\n".to_string());
    let remote = "ffff archive.zip\n".to_string();
    assert!(is_stale(&local, &remote));
}

#[test]
fn missing_local_manifest_is_stale() {
    assert!(is_stale(&None, &"anything".to_string()));
}

#[test]
fn any_byte_difference_is_stale() {
    let local = Some("abc".to_string());
    assert!(is_stale(&local, &"abc ".to_string()));
    assert!(is_stale(&local, &"ab".to_string()));
    assert!(is_stale(&local, &"".to_string()));
    assert!(!is_stale(&local, &"abc".to_string()));
}

#[test]
fn paths_resolve_under_the_data_directory() {
    let p = resolved();
    assert_eq!(p.app_data_dir, "/home/user/.local/share/raphtlw.apps.M1necraft");
    assert_eq!(p.config_file, "/home/user/.local/share/raphtlw.apps.M1necraft/config.json");
    assert_eq!(p.mcl_dir, "/home/user/.local/share/minecraft");
    assert_eq!(p.mcl_launcher_profiles, "/home/user/.local/share/minecraft/launcher_profiles.json");
    assert_eq!(p.mcl_versions_dir, "/home/user/.local/share/minecraft/versions");
    assert_eq!(p.mcl_lwjglfat_jar, "/home/user/.local/share/minecraft/libraries/lwjglfat.jar");
    assert_eq!(p.mcl_lwjglnatives, "/home/user/.local/share/minecraft/lwjglnatives");
    assert_eq!(p.mcl_jre, "/home/user/.local/share/minecraft/runtime/zulu-8.jre");
    assert_eq!(p.mcl_runtime_dir, "/home/user/.local/share/minecraft/runtime");
    assert_eq!(p.res_lwjgl, "/home/user/.local/share/raphtlw.apps.M1necraft/lwjgl");
    assert_eq!(
        p.res_lwjglnatives,
        "/home/user/.local/share/raphtlw.apps.M1necraft/lwjgl/lwjglnatives"
    );
    assert_eq!(
        p.res_lwjglfat_jar,
        "/home/user/.local/share/raphtlw.apps.M1necraft/lwjgl/lwjglfat.jar"
    );
    assert_eq!(
        p.res_mcl_profiles,
        "/home/user/.local/share/raphtlw.apps.M1necraft/mcl_profiles"
    );
    assert_eq!(p.res_checksums, "/home/user/.local/share/raphtlw.apps.M1necraft/checksums.txt");
    assert_eq!(p.res_jre, None);
}

#[test]
fn missing_data_directory_is_fatal() {
    assert_eq!(GlobalPaths::init(None).unwrap_err(), InstallError::PathsUnavailable);
}

#[test]
fn runtime_discovery_is_recorded() {
    let mut p = resolved();
    p.set_optional(Some("/cache/zulu8.58_aarch64/zulu-8.jre".to_string()));
    assert_eq!(p.res_jre.as_deref(), Some("/cache/zulu8.58_aarch64/zulu-8.jre"));
    p.set_optional(None);
    assert_eq!(p.res_jre, None);
}

#[test]
fn jre_glob_pattern_is_under_the_cache_root() {
    let p = resolved();
    assert_eq!(
        p.jre_glob_pattern(),
        "/home/user/.local/share/raphtlw.apps.M1necraft/zulu8*_aarch64/zulu-8.jre"
    );
}

#[test]
fn get_unwraps_initialized_paths() {
    let p = resolved();
    let holder = Some(p.clone());
    assert_eq!(GlobalPaths::get(&holder), &p);
}

#[test]
fn launcher_paths_check_needs_all_three() {
    assert!(check_minecraft_launcher_paths(true, true, true));
    assert!(!check_minecraft_launcher_paths(false, true, true));
    assert!(!check_minecraft_launcher_paths(true, false, true));
    assert!(!check_minecraft_launcher_paths(true, true, false));
}

#[test]
fn version_allow_list() {
    assert!(is_supported_version("1.16.5"));
    assert!(!is_supported_version("1.12.0"));
    assert!(!is_supported_version(""));
    assert!(!is_supported_version("1.16.5 "));
}

#[test]
fn version_derived_names() {
    assert_eq!(profile_dir_name("1.16.5"), "1.16.5-arm");
    assert_eq!(launcher_profile_key("1.16.5"), "m1necraft-1.16.5");
}

#[test]
fn artifact_locations() {
    let p = resolved();
    assert_eq!(
        artifact_url("mcl_profiles.zip"),
        "https://github.com/raphtlw/m1necraft/releases/download/resources/mcl_profiles.zip"
    );
    assert_eq!(
        artifact_cache_path(&p, "lwjgl.zip"),
        "/home/user/.local/share/raphtlw.apps.M1necraft/lwjgl.zip"
    );
}

#[test]
fn error_messages_name_the_failure() {
    assert_eq!(
        InstallError::TargetNotFound.message(),
        "Minecraft launcher not found; run it once first"
    );
    assert_eq!(InstallError::ParseFailure.message(), "launcher_profiles.json is malformed");
}
