//! Install/sync pipeline for patching a Minecraft launcher installation so
//! that a supported game version runs on an ARM machine: resolving the
//! filesystem locations the pipeline touches, deciding whether the local
//! artifact cache is current, planning archive extraction and one-time
//! provisioning copies, and merging a profile entry into the launcher's
//! profile registry without disturbing entries it does not own.

pub mod action;
pub mod archive;
pub mod artifacts;
pub mod config;
pub mod errors;
pub mod json;
pub mod mcl;
pub mod orchestrator;
pub mod registry;
pub mod paths;
pub mod strings;
pub mod sync;
pub mod version;
