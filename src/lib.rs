//! A per-project installer of binary tools. A manifest declares tools per
//! provider (cargo); each install compares it with the cache of what is
//! installed, decides per tool whether to install, keep or uninstall it,
//! rebuilds the map from executable names to tools, and commits the staged
//! workspace in one swap. The decisions live here, with their contracts;
//! the filesystem, the `cargo` subprocess and the formats stay with callers.
use vstd::prelude::*;

pub mod bin_map;
pub mod cargo;
pub mod commit;
pub mod dependency;
pub mod error_hint;
pub mod errors;
pub mod file_modified;
pub mod install;
pub mod keyed;
pub mod layout;
pub mod lifecycle;
pub mod manifest;
pub mod options;
pub mod paths;
pub mod provider;
pub mod run;
pub mod stages;
pub mod text;
pub mod version;
pub mod workspace;
