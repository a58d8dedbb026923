//! The launcher's profile registry: a JSON document whose shape is not fully
//! known upstream. Only the top-level `profiles` object is interpreted; every
//! other part of the document, and every profile entry the pipeline does not
//! own, rides along untouched. Insertion never overwrites an entry already
//! present under the pipeline's key.

use vstd::prelude::*;
use crate::errors::InstallError;
use crate::json;
use crate::version;

verus! {

/// The profile entry this pipeline owns inside the registry: a creation
/// timestamp, an icon tag, the runtime's java binary, the installed version
/// identifier, a display name and the fixed `custom` type tag.
#[derive(Debug, Clone, PartialEq)]
pub struct ProfileEntry {
    pub created: String,
    pub icon: String,
    pub java_dir: String,
    pub last_version_id: String,
    pub name: String,
    pub profile_type: String,
}

impl ProfileEntry {
    /// The JSON object entries this entry serializes to.
    pub open spec fn entries(self) -> Map<Seq<char>, serde_json::Value> {
        Map::<Seq<char>, serde_json::Value>::empty()
            .insert("created"@, json::json_string(self.created@))
            .insert("icon"@, json::json_string(self.icon@))
            .insert("javaDir"@, json::json_string(self.java_dir@))
            .insert("lastVersionId"@, json::json_string(self.last_version_id@))
            .insert("name"@, json::json_string(self.name@))
            .insert("type"@, json::json_string(self.profile_type@))
    }

    /// Builds the entry for a version: fixed icon, display name and type tag,
    /// with the version directory name as the version identifier.
    pub fn new(created: String, java_dir: String, ver: &str) -> (e: ProfileEntry)
        ensures
            e.created == created,
            e.java_dir == java_dir,
            e.icon@ == "Grass"@,
            e.name@ == "M1necraft"@,
            e.profile_type@ == "custom"@,
            e.last_version_id@ == ver@ + "-arm"@,
    {
        ProfileEntry {
            created,
            icon: "Grass".to_owned(),
            java_dir,
            last_version_id: version::profile_dir_name(ver),
            name: "M1necraft".to_owned(),
            profile_type: "custom".to_owned(),
        }
    }

    /// Builds the entry with the creation timestamp taken from the clock.
    /// The timestamp's value depends on the clock; only that it is a
    /// non-empty string is promised.
    pub fn new_now(java_dir: String, ver: &str) -> (e: ProfileEntry)
        ensures
            e.created@.len() > 0,
            e.java_dir == java_dir,
            e.icon@ == "Grass"@,
            e.name@ == "M1necraft"@,
            e.profile_type@ == "custom"@,
            e.last_version_id@ == ver@ + "-arm"@,
    {
        ProfileEntry::new(utc_now_rfc3339(), java_dir, ver)
    }
}

/// Relies on chrono's Utc::now().to_rfc3339(): an ISO-8601 timestamp of the
/// current time. Its value depends on the clock, so only what holds of every
/// reading is stated: the formatted date-time is never the empty string.
#[verifier::external_body]
fn utc_now_rfc3339() -> (r: String)
    ensures
        r@.len() > 0,
{
    chrono::Utc::now().to_rfc3339()
}

/// Whether `v` is the JSON object serialization of the entry `e`.
pub open spec fn is_entry_value(v: serde_json::Value, e: ProfileEntry) -> bool {
    exists|m: serde_json::Map<String, serde_json::Value>|
        v == #[trigger] json::obj_value(m) && json::obj_entries(m) == e.entries()
}

/// Whether `v` has the only shape the pipeline accepts: a JSON object whose
/// `profiles` key holds a JSON object.
pub open spec fn wellformed_doc(v: serde_json::Value) -> bool {
    exists|m: serde_json::Map<String, serde_json::Value>|
        {
            &&& v == #[trigger] json::obj_value(m)
            &&& json::obj_entries(m).dom().contains("profiles"@)
            &&& exists|pm: serde_json::Map<String, serde_json::Value>|
                json::obj_entries(m)["profiles"@] == #[trigger] json::obj_value(pm)
        }
}

/// The registry document, split into the `profiles` object the pipeline
/// works in and the shell of all other top-level entries, which round-trip
/// untouched.
#[derive(Debug)]
pub struct ProfileRegistry {
    pub shell: serde_json::Map<String, serde_json::Value>,
    pub profiles: serde_json::Map<String, serde_json::Value>,
}

/// Whether `reg` is the faithful split of the document value `v`: the
/// profiles of `reg` are the entries of `v`'s `profiles` object, and the
/// shell holds every other top-level entry of `v`.
pub open spec fn registry_models_doc(reg: ProfileRegistry, v: serde_json::Value) -> bool {
    exists|m: serde_json::Map<String, serde_json::Value>|
        {
            &&& v == #[trigger] json::obj_value(m)
            &&& json::obj_entries(m).dom().contains("profiles"@)
            &&& exists|pm: serde_json::Map<String, serde_json::Value>|
                {
                    &&& json::obj_entries(m)["profiles"@] == #[trigger] json::obj_value(pm)
                    &&& json::obj_entries(reg.profiles) == json::obj_entries(pm)
                }
            &&& json::obj_entries(reg.shell) == json::obj_entries(m).remove("profiles"@)
        }
}

/// How one merge call relates the registry before (`pre`) and after (`post`):
/// a no-op when `key` is already bound, otherwise exactly one new binding of
/// the entry's serialization under `key`, with the shell and every other
/// profile untouched.
pub open spec fn merge_post(
    pre: ProfileRegistry,
    post: ProfileRegistry,
    key: Seq<char>,
    e: ProfileEntry,
) -> bool {
    if json::obj_entries(pre.profiles).dom().contains(key) {
        post == pre
    } else {
        &&& post.shell == pre.shell
        &&& exists|ev: serde_json::Value|
            {
                &&& #[trigger] is_entry_value(ev, e)
                &&& post.profiles == json::inserted_map(pre.profiles, key, ev)
                &&& json::obj_entries(post.profiles) == json::obj_entries(pre.profiles).insert(
                    key,
                    ev,
                )
            }
    }
}

impl ProfileRegistry {
    /// The document value the registry serializes back to.
    pub open spec fn doc_value(self) -> serde_json::Value {
        json::obj_value(
            json::inserted_map(self.shell, "profiles"@, json::obj_value(self.profiles)),
        )
    }

    /// Splits a parsed document into a registry. Fails exactly when the
    /// document is not an object with a `profiles` object; a malformed
    /// registry is never repaired or guessed at.
    pub fn from_value(v: serde_json::Value) -> (r: Result<ProfileRegistry, InstallError>)
        ensures
            r is Ok <==> wellformed_doc(v),
            r matches Err(e) ==> e == InstallError::ParseFailure,
            r matches Ok(reg) ==> registry_models_doc(reg, v),
    {
        let mut shell = match json::value_to_object(v) {
            Ok(m) => m,
            Err(_) => {
                return Err(InstallError::ParseFailure);
            },
        };
        let ghost top = shell;
        let pv = match json::map_remove(&mut shell, "profiles") {
            Some(x) => x,
            None => {
                proof {
                    assert(!wellformed_doc(v)) by {
                        if wellformed_doc(v) {
                            let m = choose|m: serde_json::Map<String, serde_json::Value>|
                                v == #[trigger] json::obj_value(m) && json::obj_entries(
                                    m,
                                ).dom().contains("profiles"@);
                            assert(m == top);
                        }
                    }
                }
                return Err(InstallError::ParseFailure);
            },
        };
        let profiles = match json::value_to_object(pv) {
            Ok(pm) => pm,
            Err(_) => {
                proof {
                    assert(!wellformed_doc(v)) by {
                        if wellformed_doc(v) {
                            let m = choose|m: serde_json::Map<String, serde_json::Value>|
                                {
                                    &&& v == #[trigger] json::obj_value(m)
                                    &&& json::obj_entries(m).dom().contains("profiles"@)
                                    &&& exists|pm: serde_json::Map<String, serde_json::Value>|
                                        json::obj_entries(m)["profiles"@]
                                            == #[trigger] json::obj_value(pm)
                                };
                            assert(m == top);
                            let pm = choose|pm: serde_json::Map<String, serde_json::Value>|
                                json::obj_entries(m)["profiles"@] == #[trigger] json::obj_value(
                                    pm,
                                );
                            assert(json::obj_value(pm) == pv);
                        }
                    }
                }
                return Err(InstallError::ParseFailure);
            },
        };
        Ok(ProfileRegistry { shell, profiles })
    }

    /// Parses a registry file's text. Fails exactly when the text is not
    /// valid JSON or the document is not of the expected top-level shape.
    pub fn from_text(s: &str) -> (r: Result<ProfileRegistry, InstallError>)
        ensures
            r is Ok <==> (json::parsed_json(s@) matches Some(v) && wellformed_doc(v)),
            r matches Err(e) ==> e == InstallError::ParseFailure,
            r matches Ok(reg) ==> json::parsed_json(s@) matches Some(v) && registry_models_doc(
                reg,
                v,
            ),
    {
        match json::parse_json(s) {
            Ok(v) => ProfileRegistry::from_value(v),
            Err(_) => Err(InstallError::ParseFailure),
        }
    }

    /// Inserts the entry under `key` unless the key is already bound; an
    /// existing entry — the user's or an earlier run's — is never overwritten.
    /// Returns whether an insertion happened.
    pub fn ensure_entry(&mut self, key: &str, entry: &ProfileEntry) -> (inserted: bool)
        ensures
            merge_post(*old(self), *final(self), key@, *entry),
            inserted == !json::obj_entries(old(self).profiles).dom().contains(key@),
    {
        if json::map_contains(&self.profiles, key) {
            false
        } else {
            let ev = entry_to_value(entry);
            json::map_insert(&mut self.profiles, key.to_owned(), ev);
            true
        }
    }

    /// Serializes the registry back to pretty-printed JSON text with stable
    /// formatting; this owes a serialization on every registry.
    pub fn to_text(&self) -> (r: String)
        ensures
            r@ == json::json_text(self.doc_value()),
    {
        let mut root = json::map_clone(&self.shell);
        let pv = json::object_to_value(json::map_clone(&self.profiles));
        json::map_insert(&mut root, "profiles".to_owned(), pv);
        let doc = json::object_to_value(root);
        match json::json_to_text(&doc) {
            Ok(s) => s,
            Err(_) => unreached(),
        }
    }
}

/// Serializes an entry to its JSON object value.
fn entry_to_value(e: &ProfileEntry) -> (r: serde_json::Value)
    ensures
        is_entry_value(r, *e),
{
    let mut m = json::map_new();
    json::map_insert(&mut m, "created".to_owned(), json::string_to_value(e.created.clone()));
    json::map_insert(&mut m, "icon".to_owned(), json::string_to_value(e.icon.clone()));
    json::map_insert(&mut m, "javaDir".to_owned(), json::string_to_value(e.java_dir.clone()));
    json::map_insert(
        &mut m,
        "lastVersionId".to_owned(),
        json::string_to_value(e.last_version_id.clone()),
    );
    json::map_insert(&mut m, "name".to_owned(), json::string_to_value(e.name.clone()));
    json::map_insert(&mut m, "type".to_owned(), json::string_to_value(e.profile_type.clone()));
    json::object_to_value(m)
}

/// Law: merging the same entry under the same key twice is idempotent — the
/// registry after the second merge equals the registry after the first — and
/// every key other than the merged one keeps the binding it had before either
/// merge, as does the document shell.
pub proof fn lemma_merge_idempotent(
    pre: ProfileRegistry,
    mid: ProfileRegistry,
    post: ProfileRegistry,
    key: Seq<char>,
    e: ProfileEntry,
)
    requires
        merge_post(pre, mid, key, e),
        merge_post(mid, post, key, e),
    ensures
        post == mid,
        post.doc_value() == mid.doc_value(),
        mid.shell == pre.shell,
        forall|k2: Seq<char>|
            k2 != key ==> (json::obj_entries(mid.profiles).dom().contains(k2)
                <==> json::obj_entries(pre.profiles).dom().contains(k2)),
        forall|k2: Seq<char>|
            k2 != key && json::obj_entries(pre.profiles).dom().contains(k2)
                ==> json::obj_entries(mid.profiles)[k2] == json::obj_entries(pre.profiles)[k2],
{
    if json::obj_entries(pre.profiles).dom().contains(key) {
        assert(mid == pre);
        assert(post == mid);
    } else {
        let ev = choose|ev: serde_json::Value|
            {
                &&& #[trigger] is_entry_value(ev, e)
                &&& mid.profiles == json::inserted_map(pre.profiles, key, ev)
                &&& json::obj_entries(mid.profiles) == json::obj_entries(pre.profiles).insert(
                    key,
                    ev,
                )
            };
        assert(json::obj_entries(mid.profiles).dom().contains(key));
        assert(post == mid);
    }
}

} // verus!
