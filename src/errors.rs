//! The library's errors, gathered in one type.
use vstd::prelude::*;
use crate::install::InstallServiceError;
use crate::manifest::IsobinManifestError;
use crate::paths::IsobinManifestPathError;
use crate::run::RunServiceError;

verus! {

#[derive(Debug)]
pub enum Error {
    IsobinManifest(IsobinManifestError),
    IsobinManifestPath(IsobinManifestPathError),
    InstallService(InstallServiceError),
    RunService(RunServiceError),
}

} // verus!
