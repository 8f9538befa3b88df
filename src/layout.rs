//! Where a workspace keeps its persisted files.
use vstd::prelude::*;
use crate::dependency::{joined_path, join_path};

verus! {

/// The persisted copy of the last committed manifest.
pub struct IsobinManifestCache;

impl IsobinManifestCache {
    /// The cache file inside a committed (or staged) tree.
    pub fn make_cache_path(dir: &str) -> (r: String)
        ensures
            r@ == joined_path(dir@, "isobin_cache.v1.json"@),
    {
        join_path(dir, "isobin_cache.v1.json")
    }
}

/// The bin-map file inside a committed (or staged) tree.
pub fn bin_map_path(dir: &str) -> (r: String)
    ensures
        r@ == joined_path(dir@, "bin_map.v1.json"@),
{
    join_path(dir, "bin_map.v1.json")
}

/// The cargo provider's part of a workspace.
pub struct CargoWorkspace {
    /// One install root per tool lies here.
    pub cargo_home_dir: String,
}

impl CargoWorkspace {
    /// The cargo home inside a workspace's `home` directory.
    pub fn from_workspace(home_dir: &str) -> (r: CargoWorkspace)
        ensures
            r.cargo_home_dir@ == joined_path(home_dir@, "cargo"@),
    {
        CargoWorkspace { cargo_home_dir: join_path(home_dir, "cargo") }
    }

    /// The install root of tool `name`.
    pub fn tool_dir(&self, name: &str) -> (r: String)
        ensures
            r@ == joined_path(self.cargo_home_dir@, name@),
    {
        join_path(self.cargo_home_dir.as_str(), name)
    }

    /// Where the snapshot of a path-backed tool's source tree is kept.
    pub fn file_modified_cache_path(&self, name: &str) -> (r: String)
        ensures
            r@ == joined_path(joined_path(self.cargo_home_dir@, name@), "file_modifid_cache.v1.json"@),
    {
        let tool = self.tool_dir(name);
        join_path(tool.as_str(), "file_modifid_cache.v1.json")
    }
}

} // verus!
