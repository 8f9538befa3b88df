//! Finding and reading a project's manifest file by name.
use vstd::prelude::*;
use crate::text::str_eq;
use crate::dependency::{joined_path, join_path};
use crate::manifest::IsobinManifestError;

verus! {

/// The serialization formats a manifest may be written in.
#[derive(PartialEq, Eq, Structural, Clone, Copy, Debug)]
pub enum ManifestFileExtensions {
    Yaml,
    Toml,
    Json,
}

/// What `std::path::Path::extension` finds in a path.
pub uninterp spec fn extension_of(path: Seq<char>) -> Option<Seq<char>>;

/// What `std::path::Path::parent` finds in a path.
pub uninterp spec fn parent_of(path: Seq<char>) -> Option<Seq<char>>;

/// Relies on `std::path::Path::extension`: the text after the last dot of the
/// file name, where there is one.
#[verifier::external_body]
fn path_extension(path: &str) -> (r: Option<String>)
    ensures
        r.deep_view() == extension_of(path@),
{
    std::path::Path::new(path).extension().map(|e| e.to_string_lossy().into_owned())
}

/// Relies on `std::path::Path::parent`: the path without its last component,
/// where there is one.
#[verifier::external_body]
fn path_parent(path: &str) -> (r: Option<String>)
    ensures
        r.deep_view() == parent_of(path@),
{
    std::path::Path::new(path).parent().map(|p| p.to_string_lossy().into_owned())
}

pub open spec fn kind_of_extension_spec(ext: Seq<char>) -> Option<ManifestFileExtensions> {
    if ext == "toml"@ {
        Some(ManifestFileExtensions::Toml)
    } else if ext == "yaml"@ || ext == "yml"@ {
        Some(ManifestFileExtensions::Yaml)
    } else if ext == "json"@ {
        Some(ManifestFileExtensions::Json)
    } else {
        None
    }
}

/// The format named by a file's extension (`extension`, as the path gave it).
pub fn kind_of_extension(path: &String, extension: Option<String>) -> (r: Result<ManifestFileExtensions, IsobinManifestError>)
    ensures
        match extension {
            None => r matches Err(IsobinManifestError::NothingFileExtension { path: p }) && p@ == path@,
            Some(e) => match kind_of_extension_spec(e@) {
                Some(k) => r == Ok::<ManifestFileExtensions, IsobinManifestError>(k),
                None => r matches Err(IsobinManifestError::UnknownFileExtension { path: p, extension: x })
                    && p@ == path@ && x@ == e@,
            },
        },
{
    match extension {
        None => Err(IsobinManifestError::NothingFileExtension { path: path.clone() }),
        Some(e) => {
            if str_eq(e.as_str(), "toml") {
                Ok(ManifestFileExtensions::Toml)
            } else if str_eq(e.as_str(), "yaml") || str_eq(e.as_str(), "yml") {
                Ok(ManifestFileExtensions::Yaml)
            } else if str_eq(e.as_str(), "json") {
                Ok(ManifestFileExtensions::Json)
            } else {
                Err(IsobinManifestError::UnknownFileExtension { path: path.clone(), extension: e })
            }
        },
    }
}

/// The format of the manifest at `path`, by its extension.
pub fn get_file_extension(path: &String) -> (r: Result<ManifestFileExtensions, IsobinManifestError>)
    ensures
        match extension_of(path@) {
            None => r matches Err(IsobinManifestError::NothingFileExtension { path: p }) && p@ == path@,
            Some(e) => match kind_of_extension_spec(e) {
                Some(k) => r == Ok::<ManifestFileExtensions, IsobinManifestError>(k),
                None => r matches Err(IsobinManifestError::UnknownFileExtension { path: p, extension: x })
                    && p@ == path@ && x@ == e,
            },
        },
{
    let ext = path_extension(path.as_str());
    kind_of_extension(path, ext)
}

#[derive(Debug)]
pub enum IsobinManifestPathError {
    /// More than one manifest in one directory.
    Conflict(Vec<String>),
    NotFoundIsobinManifest,
}

/// The directory that holds the manifest at `isobin_manifest_path`.
pub fn isobin_manifest_dir(isobin_manifest_path: &String) -> (r: Result<String, IsobinManifestPathError>)
    ensures
        match parent_of(isobin_manifest_path@) {
            Some(d) => r matches Ok(s) && s@ == d,
            None => r matches Err(IsobinManifestPathError::NotFoundIsobinManifest),
        },
{
    match path_parent(isobin_manifest_path.as_str()) {
        Some(d) => Ok(d),
        None => Err(IsobinManifestPathError::NotFoundIsobinManifest),
    }
}

/// The file names a manifest may have, in the order they are looked for.
pub open spec fn manifest_file_names() -> Seq<Seq<char>> {
    seq!["isobin.toml"@, "isobin.yaml"@, "isobin.yml"@, "isobin.json"@]
}

/// Where a manifest may stand in `dir`.
pub fn make_isobin_manifest_paths(dir: &str) -> (r: Vec<String>)
    ensures
        r@.len() == 4,
        forall|i: int| 0 <= i < 4 ==> #[trigger] r@[i]@ == joined_path(dir@, manifest_file_names()[i]),
{
    let mut r: Vec<String> = Vec::new();
    r.push(join_path(dir, "isobin.toml"));
    r.push(join_path(dir, "isobin.yaml"));
    r.push(join_path(dir, "isobin.yml"));
    r.push(join_path(dir, "isobin.json"));
    r
}

/// One step of the upward search for a manifest.
#[derive(Debug)]
pub enum SearchStep {
    Found(String),
    Conflict(Vec<String>),
    /// No manifest here: look in the parent directory.
    GoUp,
}

/// Given the candidate paths that exist in one directory: exactly one is
/// the manifest, several are a conflict, none sends the search upward.
pub fn search_step(existing: Vec<String>) -> (r: SearchStep)
    ensures
        existing@.len() == 1 ==> (r matches SearchStep::Found(p) && p == existing@[0]),
        existing@.len() > 1 ==> (r matches SearchStep::Conflict(ps) && ps@ == existing@),
        existing@.len() == 0 ==> r is GoUp,
{
    if existing.len() == 1 {
        let mut e = existing;
        let p = e.remove(0);
        SearchStep::Found(p)
    } else if existing.len() > 1 {
        SearchStep::Conflict(existing)
    } else {
        SearchStep::GoUp
    }
}

} // verus!
