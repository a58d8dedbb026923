use m1necraft::errors::InstallError;
use m1necraft::registry::{ProfileEntry, ProfileRegistry};

fn entry() -> ProfileEntry {
    ProfileEntry::new(
        "2022-01-01T00:00:00+00:00".to_string(),
        "/data/minecraft/runtime/zulu-8.jre/Contents/Home/bin/java".to_string(),
        "1.16.5",
    )
}

#[test]
fn entry_fields_are_fixed() {
    let e = entry();
    assert_eq!(e.created, "2022-01-01T00:00:00+00:00");
    assert_eq!(e.icon, "Grass");
    assert_eq!(e.name, "M1necraft");
    assert_eq!(e.profile_type, "custom");
    assert_eq!(e.last_version_id, "1.16.5-arm");
}

#[test]
fn entry_with_clock_timestamp_keeps_fixed_fields() {
    let e = ProfileEntry::new_now("/java".to_string(), "1.16.5");
    assert_eq!(e.icon, "Grass");
    assert_eq!(e.name, "M1necraft");
    assert_eq!(e.profile_type, "custom");
    assert_eq!(e.last_version_id, "1.16.5-arm");
    assert_eq!(e.java_dir, "/java");
}

#[test]
fn merge_is_idempotent_and_preserves_unrelated_keys() {
    let doc = "{\"profiles\":{\"existing\":{\"name\":\"keep\"}},\"settings\":{\"locale\":\"en\"}}";
    let mut reg = ProfileRegistry::from_text(doc).unwrap();

    let inserted = reg.ensure_entry("m1necraft-1.16.5", &entry());
    assert!(inserted);
    let text1 = reg.to_text();

    let inserted_again = reg.ensure_entry("m1necraft-1.16.5", &entry());
    assert!(!inserted_again);
    let text2 = reg.to_text();

    assert_eq!(text1, text2);

    let v: serde_json::Value = serde_json::from_str(&text2).unwrap();
    assert_eq!(v["settings"]["locale"].as_str(), Some("en"));
    assert_eq!(v["profiles"]["existing"]["name"].as_str(), Some("keep"));
    let own = &v["profiles"]["m1necraft-1.16.5"];
    assert_eq!(own["created"].as_str(), Some("2022-01-01T00:00:00+00:00"));
    assert_eq!(own["icon"].as_str(), Some("Grass"));
    assert_eq!(own["lastVersionId"].as_str(), Some("1.16.5-arm"));
    assert_eq!(own["name"].as_str(), Some("M1necraft"));
    assert_eq!(own["type"].as_str(), Some("custom"));
}

#[test]
fn merge_never_overwrites_an_existing_entry() {
    let doc = "{\"profiles\":{\"m1necraft-1.16.5\":{\"name\":\"user edited\"}}}";
    let mut reg = ProfileRegistry::from_text(doc).unwrap();
    let inserted = reg.ensure_entry("m1necraft-1.16.5", &entry());
    assert!(!inserted);
    let v: serde_json::Value = serde_json::from_str(&reg.to_text()).unwrap();
    assert_eq!(v["profiles"]["m1necraft-1.16.5"]["name"].as_str(), Some("user edited"));
    assert!(v["profiles"]["m1necraft-1.16.5"].get("lastVersionId").is_none());
}

#[test]
fn invalid_json_is_a_parse_failure() {
    assert_eq!(ProfileRegistry::from_text("not json").unwrap_err(), InstallError::ParseFailure);
}

#[test]
fn non_object_document_is_a_parse_failure() {
    assert_eq!(ProfileRegistry::from_text("[1, 2, 3]").unwrap_err(), InstallError::ParseFailure);
}

#[test]
fn missing_profiles_key_is_a_parse_failure() {
    assert_eq!(
        ProfileRegistry::from_text("{\"settings\":{}}").unwrap_err(),
        InstallError::ParseFailure
    );
}

#[test]
fn non_object_profiles_is_a_parse_failure() {
    assert_eq!(
        ProfileRegistry::from_text("{\"profiles\": 3}").unwrap_err(),
        InstallError::ParseFailure
    );
}

#[test]
fn document_round_trips_when_nothing_is_inserted() {
    let doc = "{\"profiles\":{\"a\":{\"x\":1},\"b\":{\"y\":[true,null]}},\"z\":\"keep\"}";
    let reg = ProfileRegistry::from_text(doc).unwrap();
    let out: serde_json::Value = serde_json::from_str(&reg.to_text()).unwrap();
    let original: serde_json::Value = serde_json::from_str(doc).unwrap();
    assert_eq!(out, original);
}
