//! Small persisted value objects surrounding the pipeline: the app's own
//! configuration file and the result shape of the external authentication
//! collaborator. Reading and writing them is I/O and lives outside this
//! library.

use vstd::prelude::*;

verus! {

#[derive(Debug, Clone, PartialEq)]
pub struct MinecraftCredentials {
    pub username: String,
    pub password: String,
}

impl Default for MinecraftCredentials {
    fn default() -> (r: Self)
        ensures
            r.username@ == Seq::<char>::empty(),
            r.password@ == Seq::<char>::empty(),
    {
        MinecraftCredentials { username: String::new(), password: String::new() }
    }
}

#[derive(Debug, Clone, PartialEq)]
pub struct Config {
    pub minecraft_creds: MinecraftCredentials,
    pub setup_complete: bool,
}

impl Default for Config {
    fn default() -> (r: Self)
        ensures
            r.minecraft_creds.username@ == Seq::<char>::empty(),
            r.minecraft_creds.password@ == Seq::<char>::empty(),
            !r.setup_complete,
    {
        Config { minecraft_creds: Default::default(), setup_complete: false }
    }
}

/// What the external authentication service hands back on success.
#[derive(Debug, Clone, PartialEq)]
pub struct AuthResult {
    pub uuid: String,
    pub username: String,
    pub auth_token: String,
}

} // verus!
