//! The options of each command, built step by step.
use vstd::prelude::*;
use crate::install::InstallMode;

verus! {

/// The options of `install`; `P` is the manifest path, optional until resolved.
#[derive(Debug)]
pub struct InstallServiceOptionBase<P> {
    pub quiet: bool,
    pub force: bool,
    pub mode: InstallMode,
    pub isobin_manifest_path: P,
}

pub type InstallServiceOption = InstallServiceOptionBase<Option<String>>;

impl<P> InstallServiceOptionBase<P> {
    pub fn quiet(&self) -> (r: bool)
        ensures
            r == self.quiet,
    {
        self.quiet
    }

    pub fn force(&self) -> (r: bool)
        ensures
            r == self.force,
    {
        self.force
    }

    pub fn mode(&self) -> (r: &InstallMode)
        ensures
            *r == self.mode,
    {
        &self.mode
    }

    pub fn isobin_manifest_path(&self) -> (r: &P)
        ensures
            *r == self.isobin_manifest_path,
    {
        &self.isobin_manifest_path
    }
}

#[derive(Debug)]
pub struct InstallServiceOptionBuilder {
    pub quiet: bool,
    pub force: bool,
    pub mode: Option<InstallMode>,
    pub isobin_manifest_path: Option<String>,
}

impl Default for InstallServiceOptionBuilder {
    fn default() -> (r: InstallServiceOptionBuilder)
        ensures
            r.quiet == false,
            r.force == false,
            r.mode is None,
            r.isobin_manifest_path is None,
    {
        InstallServiceOptionBuilder { quiet: false, force: false, mode: None, isobin_manifest_path: None }
    }
}

impl InstallServiceOptionBuilder {
    pub fn quiet(self, quiet: bool) -> (r: InstallServiceOptionBuilder)
        ensures
            r.quiet == quiet,
            r.force == self.force,
            r.mode == self.mode,
            r.isobin_manifest_path == self.isobin_manifest_path,
    {
        InstallServiceOptionBuilder { quiet: quiet, ..self }
    }

    pub fn force(self, force: bool) -> (r: InstallServiceOptionBuilder)
        ensures
            r.force == force,
            r.quiet == self.quiet,
            r.mode == self.mode,
            r.isobin_manifest_path == self.isobin_manifest_path,
    {
        InstallServiceOptionBuilder { force: force, ..self }
    }

    pub fn mode(self, mode: InstallMode) -> (r: InstallServiceOptionBuilder)
        ensures
            r.mode == Some(mode),
            r.quiet == self.quiet,
            r.force == self.force,
            r.isobin_manifest_path == self.isobin_manifest_path,
    {
        InstallServiceOptionBuilder { mode: Some(mode), ..self }
    }

    pub fn isobin_manifest_path(self, isobin_manifest_path: String) -> (r: InstallServiceOptionBuilder)
        ensures
            r.isobin_manifest_path == Some(isobin_manifest_path),
            r.quiet == self.quiet,
            r.force == self.force,
            r.mode == self.mode,
    {
        InstallServiceOptionBuilder { isobin_manifest_path: Some(isobin_manifest_path), ..self }
    }

    pub fn build(self) -> (r: InstallServiceOption)
        ensures
            r.quiet == self.quiet,
            r.force == self.force,
            r.mode == match self.mode { Some(x) => x, None => InstallMode::All },
            r.isobin_manifest_path == self.isobin_manifest_path,
    {
        InstallServiceOptionBase { quiet: self.quiet, force: self.force, mode: match self.mode { Some(x) => x, None => InstallMode::All }, isobin_manifest_path: self.isobin_manifest_path }
    }
}

/// The options of `sync`; `P` is the manifest path, optional until resolved.
#[derive(Debug)]
pub struct SyncServiceOptionBase<P> {
    pub quiet: bool,
    pub force: bool,
    pub isobin_manifest_path: P,
}

pub type SyncServiceOption = SyncServiceOptionBase<Option<String>>;

impl<P> SyncServiceOptionBase<P> {
    pub fn quiet(&self) -> (r: bool)
        ensures
            r == self.quiet,
    {
        self.quiet
    }

    pub fn force(&self) -> (r: bool)
        ensures
            r == self.force,
    {
        self.force
    }

    pub fn isobin_manifest_path(&self) -> (r: &P)
        ensures
            *r == self.isobin_manifest_path,
    {
        &self.isobin_manifest_path
    }
}

#[derive(Debug)]
pub struct SyncServiceOptionBuilder {
    pub quiet: bool,
    pub force: bool,
    pub isobin_manifest_path: Option<String>,
}

impl Default for SyncServiceOptionBuilder {
    fn default() -> (r: SyncServiceOptionBuilder)
        ensures
            r.quiet == false,
            r.force == false,
            r.isobin_manifest_path is None,
    {
        SyncServiceOptionBuilder { quiet: false, force: false, isobin_manifest_path: None }
    }
}

impl SyncServiceOptionBuilder {
    pub fn quiet(self, quiet: bool) -> (r: SyncServiceOptionBuilder)
        ensures
            r.quiet == quiet,
            r.force == self.force,
            r.isobin_manifest_path == self.isobin_manifest_path,
    {
        SyncServiceOptionBuilder { quiet: quiet, ..self }
    }

    pub fn force(self, force: bool) -> (r: SyncServiceOptionBuilder)
        ensures
            r.force == force,
            r.quiet == self.quiet,
            r.isobin_manifest_path == self.isobin_manifest_path,
    {
        SyncServiceOptionBuilder { force: force, ..self }
    }

    pub fn isobin_manifest_path(self, isobin_manifest_path: String) -> (r: SyncServiceOptionBuilder)
        ensures
            r.isobin_manifest_path == Some(isobin_manifest_path),
            r.quiet == self.quiet,
            r.force == self.force,
    {
        SyncServiceOptionBuilder { isobin_manifest_path: Some(isobin_manifest_path), ..self }
    }

    pub fn build(self) -> (r: SyncServiceOption)
        ensures
            r.quiet == self.quiet,
            r.force == self.force,
            r.isobin_manifest_path == self.isobin_manifest_path,
    {
        SyncServiceOptionBase { quiet: self.quiet, force: self.force, isobin_manifest_path: self.isobin_manifest_path }
    }
}

/// The options of `path`; `P` is the manifest path, optional until resolved.
#[derive(Debug)]
pub struct PathServiceOptionBase<P> {
    pub quiet: bool,
    pub isobin_manifest_path: P,
}

pub type PathServiceOption = PathServiceOptionBase<Option<String>>;

impl<P> PathServiceOptionBase<P> {
    pub fn quiet(&self) -> (r: bool)
        ensures
            r == self.quiet,
    {
        self.quiet
    }

    pub fn isobin_manifest_path(&self) -> (r: &P)
        ensures
            *r == self.isobin_manifest_path,
    {
        &self.isobin_manifest_path
    }
}

#[derive(Debug)]
pub struct PathServiceOptionBuilder {
    pub quiet: bool,
    pub isobin_manifest_path: Option<String>,
}

impl Default for PathServiceOptionBuilder {
    fn default() -> (r: PathServiceOptionBuilder)
        ensures
            r.quiet == false,
            r.isobin_manifest_path is None,
    {
        PathServiceOptionBuilder { quiet: false, isobin_manifest_path: None }
    }
}

impl PathServiceOptionBuilder {
    pub fn quiet(self, quiet: bool) -> (r: PathServiceOptionBuilder)
        ensures
            r.quiet == quiet,
            r.isobin_manifest_path == self.isobin_manifest_path,
    {
        PathServiceOptionBuilder { quiet: quiet, ..self }
    }

    pub fn isobin_manifest_path(self, isobin_manifest_path: String) -> (r: PathServiceOptionBuilder)
        ensures
            r.isobin_manifest_path == Some(isobin_manifest_path),
            r.quiet == self.quiet,
    {
        PathServiceOptionBuilder { isobin_manifest_path: Some(isobin_manifest_path), ..self }
    }

    pub fn build(self) -> (r: PathServiceOption)
        ensures
            r.quiet == self.quiet,
            r.isobin_manifest_path == self.isobin_manifest_path,
    {
        PathServiceOptionBase { quiet: self.quiet, isobin_manifest_path: self.isobin_manifest_path }
    }
}

/// The options of `clean`; `P` is the manifest path, optional until resolved.
#[derive(Debug)]
pub struct CleanServiceOptionBase<P> {
    pub quiet: bool,
    pub isobin_manifest_path: P,
}

pub type CleanServiceOption = CleanServiceOptionBase<Option<String>>;

impl<P> CleanServiceOptionBase<P> {
    pub fn quiet(&self) -> (r: bool)
        ensures
            r == self.quiet,
    {
        self.quiet
    }

    pub fn isobin_manifest_path(&self) -> (r: &P)
        ensures
            *r == self.isobin_manifest_path,
    {
        &self.isobin_manifest_path
    }
}

#[derive(Debug)]
pub struct CleanServiceOptionBuilder {
    pub quiet: bool,
    pub isobin_manifest_path: Option<String>,
}

impl Default for CleanServiceOptionBuilder {
    fn default() -> (r: CleanServiceOptionBuilder)
        ensures
            r.quiet == false,
            r.isobin_manifest_path is None,
    {
        CleanServiceOptionBuilder { quiet: false, isobin_manifest_path: None }
    }
}

impl CleanServiceOptionBuilder {
    pub fn quiet(self, quiet: bool) -> (r: CleanServiceOptionBuilder)
        ensures
            r.quiet == quiet,
            r.isobin_manifest_path == self.isobin_manifest_path,
    {
        CleanServiceOptionBuilder { quiet: quiet, ..self }
    }

    pub fn isobin_manifest_path(self, isobin_manifest_path: String) -> (r: CleanServiceOptionBuilder)
        ensures
            r.isobin_manifest_path == Some(isobin_manifest_path),
            r.quiet == self.quiet,
    {
        CleanServiceOptionBuilder { isobin_manifest_path: Some(isobin_manifest_path), ..self }
    }

    pub fn build(self) -> (r: CleanServiceOption)
        ensures
            r.quiet == self.quiet,
            r.isobin_manifest_path == self.isobin_manifest_path,
    {
        CleanServiceOptionBase { quiet: self.quiet, isobin_manifest_path: self.isobin_manifest_path }
    }
}

/// The options of `init`; `P` is the manifest path, optional until resolved.
#[derive(Debug)]
pub struct InitServiceOptionBase<P> {
    pub quiet: bool,
    pub isobin_manifest_path: P,
}

pub type InitServiceOption = InitServiceOptionBase<Option<String>>;

impl<P> InitServiceOptionBase<P> {
    pub fn quiet(&self) -> (r: bool)
        ensures
            r == self.quiet,
    {
        self.quiet
    }

    pub fn isobin_manifest_path(&self) -> (r: &P)
        ensures
            *r == self.isobin_manifest_path,
    {
        &self.isobin_manifest_path
    }
}

#[derive(Debug)]
pub struct InitServiceOptionBuilder {
    pub quiet: bool,
    pub isobin_manifest_path: Option<String>,
}

impl Default for InitServiceOptionBuilder {
    fn default() -> (r: InitServiceOptionBuilder)
        ensures
            r.quiet == false,
            r.isobin_manifest_path is None,
    {
        InitServiceOptionBuilder { quiet: false, isobin_manifest_path: None }
    }
}

impl InitServiceOptionBuilder {
    pub fn quiet(self, quiet: bool) -> (r: InitServiceOptionBuilder)
        ensures
            r.quiet == quiet,
            r.isobin_manifest_path == self.isobin_manifest_path,
    {
        InitServiceOptionBuilder { quiet: quiet, ..self }
    }

    pub fn isobin_manifest_path(self, isobin_manifest_path: String) -> (r: InitServiceOptionBuilder)
        ensures
            r.isobin_manifest_path == Some(isobin_manifest_path),
            r.quiet == self.quiet,
    {
        InitServiceOptionBuilder { isobin_manifest_path: Some(isobin_manifest_path), ..self }
    }

    pub fn build(self) -> (r: InitServiceOption)
        ensures
            r.quiet == self.quiet,
            r.isobin_manifest_path == self.isobin_manifest_path,
    {
        InitServiceOptionBase { quiet: self.quiet, isobin_manifest_path: self.isobin_manifest_path }
    }
}

/// The options of `run`; `P` is the manifest path, optional until resolved.
#[derive(Debug)]
pub struct RunServiceOptionBase<P> {
    pub quiet: bool,
    pub bin: String,
    pub args: Vec<String>,
    pub isobin_manifest_path: P,
}

pub type RunServiceOption = RunServiceOptionBase<Option<String>>;

impl<P> RunServiceOptionBase<P> {
    pub fn quiet(&self) -> (r: bool)
        ensures
            r == self.quiet,
    {
        self.quiet
    }

    pub fn bin(&self) -> (r: &String)
        ensures
            *r == self.bin,
    {
        &self.bin
    }

    pub fn args(&self) -> (r: &Vec<String>)
        ensures
            *r == self.args,
    {
        &self.args
    }

    pub fn isobin_manifest_path(&self) -> (r: &P)
        ensures
            *r == self.isobin_manifest_path,
    {
        &self.isobin_manifest_path
    }
}

#[derive(Debug)]
pub struct RunServiceOptionBuilder {
    pub quiet: bool,
    pub bin: String,
    pub args: Vec<String>,
    pub isobin_manifest_path: Option<String>,
}

impl Default for RunServiceOptionBuilder {
    fn default() -> (r: RunServiceOptionBuilder)
        ensures
            r.quiet == false,
            r.bin@ == Seq::<char>::empty(),
            r.args@ == Seq::<String>::empty(),
            r.isobin_manifest_path is None,
    {
        RunServiceOptionBuilder { quiet: false, bin: String::new(), args: Vec::new(), isobin_manifest_path: None }
    }
}

impl RunServiceOptionBuilder {
    pub fn quiet(self, quiet: bool) -> (r: RunServiceOptionBuilder)
        ensures
            r.quiet == quiet,
            r.bin == self.bin,
            r.args == self.args,
            r.isobin_manifest_path == self.isobin_manifest_path,
    {
        RunServiceOptionBuilder { quiet: quiet, ..self }
    }

    pub fn bin(self, bin: String) -> (r: RunServiceOptionBuilder)
        ensures
            r.bin == bin,
            r.quiet == self.quiet,
            r.args == self.args,
            r.isobin_manifest_path == self.isobin_manifest_path,
    {
        RunServiceOptionBuilder { bin: bin, ..self }
    }

    pub fn args(self, args: Vec<String>) -> (r: RunServiceOptionBuilder)
        ensures
            r.args == args,
            r.quiet == self.quiet,
            r.bin == self.bin,
            r.isobin_manifest_path == self.isobin_manifest_path,
    {
        RunServiceOptionBuilder { args: args, ..self }
    }

    pub fn isobin_manifest_path(self, isobin_manifest_path: String) -> (r: RunServiceOptionBuilder)
        ensures
            r.isobin_manifest_path == Some(isobin_manifest_path),
            r.quiet == self.quiet,
            r.bin == self.bin,
            r.args == self.args,
    {
        RunServiceOptionBuilder { isobin_manifest_path: Some(isobin_manifest_path), ..self }
    }

    pub fn build(self) -> (r: RunServiceOption)
        ensures
            r.quiet == self.quiet,
            r.bin == self.bin,
            r.args == self.args,
            r.isobin_manifest_path == self.isobin_manifest_path,
    {
        RunServiceOptionBase { quiet: self.quiet, bin: self.bin, args: self.args, isobin_manifest_path: self.isobin_manifest_path }
    }
}

} // verus!
