//! The run dispatcher's decision: run an installed executable directly, or
//! install its tool first where the manifest drifted.
use vstd::prelude::*;
use crate::bin_map::BinMap;
use crate::manifest::{needs_install, view_names, IsobinManifest, SpecifiedTarget};

verus! {

#[derive(Debug)]
pub enum RunDecision {
    /// Run the executable as it is installed.
    Run,
    /// Install this one tool first, then run.
    InstallThenRun(SpecifiedTarget),
}

#[derive(Debug)]
pub enum RunServiceError {
    NotFoundBinDependency { bin: String },
    NotFoundBinFile { bin: String },
    /// The executable ran and failed; `code` is its exit code, if it had one.
    RunFailed { code: Option<i32> },
}

/// Decides what `run bin` does. An executable that the bin-map knows runs
/// directly unless its tool's declaration (or source tree, `drift`) changed
/// since the cache was written; one that it does not know is installed first
/// where the manifest declares a tool of that name. Otherwise the manifest
/// does not declare the executable's tool.
pub fn decide_run(
    bin: &String,
    bin_map: &BinMap,
    manifest: &IsobinManifest,
    cache: &IsobinManifest,
    drift: &Vec<String>,
) -> (r: Result<RunDecision, RunServiceError>)
    requires
        bin_map.wf(),
        manifest.wf(),
        cache.wf(),
    ensures
        bin_map@.contains_key(bin@) ==> ({
            let tool = bin_map@[bin@].name;
            &&& !manifest@.contains_key(tool) ==> (r matches Err(RunServiceError::NotFoundBinDependency { bin: b })
                && b@ == bin@)
            &&& manifest@.contains_key(tool) && needs_install(manifest@, cache@, view_names(drift@), tool) ==> (
            r matches Ok(RunDecision::InstallThenRun(t)) && t.provider_kind == Some(bin_map@[bin@].provider_kind)
                && t.name@ == tool)
            &&& manifest@.contains_key(tool) && !needs_install(manifest@, cache@, view_names(drift@), tool) ==> r
                matches Ok(RunDecision::Run)
        }),
        !bin_map@.contains_key(bin@) ==> {
            &&& manifest@.contains_key(bin@) ==> (r matches Ok(RunDecision::InstallThenRun(t)) && t.provider_kind is None
                && t.name@ == bin@)
            &&& !manifest@.contains_key(bin@) ==> (r matches Err(RunServiceError::NotFoundBinDependency { bin: b })
                && b@ == bin@)
        },
{
    match bin_map.get(bin) {
        Some(dep) => {
            if manifest.exists_name(&dep.name) {
                if manifest.detect_difference(cache, dep.provider_kind, &dep.name, drift) {
                    Ok(RunDecision::InstallThenRun(SpecifiedTarget::new(Some(dep.provider_kind), dep.name.clone())))
                } else {
                    Ok(RunDecision::Run)
                }
            } else {
                Err(RunServiceError::NotFoundBinDependency { bin: bin.clone() })
            }
        },
        None => {
            if manifest.exists_name(bin) {
                Ok(RunDecision::InstallThenRun(SpecifiedTarget::new(None, bin.clone())))
            } else {
                Err(RunServiceError::NotFoundBinDependency { bin: bin.clone() })
            }
        },
    }
}

/// The process exit code after a run: the child's own code, else 1.
pub fn run_exit_code(code: Option<i32>) -> (r: i32)
    ensures
        r == match code {
            Some(c) => c,
            None => 1,
        },
{
    match code {
        Some(c) => c,
        None => 1,
    }
}

} // verus!
