use vstd::prelude::*;

verus! {

/// The back-ends that know how to install a class of executables.
#[derive(PartialEq, Eq, Structural, Clone, Copy, Debug)]
pub enum ProviderKind {
    Cargo,
}

/// How a provider's targets may be scheduled.
#[derive(PartialEq, Eq, Structural, Clone, Copy, Debug)]
pub enum MultiInstallMode {
    Parallel,
    Sequential,
}

/// What an install does with one declared or cached tool.
#[derive(PartialEq, Eq, Structural, Clone, Copy, Debug)]
pub enum TargetMode {
    /// New or changed.
    Install,
    /// Present and unchanged.
    AlreadyInstalled,
    /// Cached but no longer declared.
    Uninstall,
}

impl ProviderKind {
    /// The provider's name as it appears in a manifest and on disk.
    pub open spec fn spec_name(self) -> Seq<char> {
        match self {
            ProviderKind::Cargo => seq!['c', 'a', 'r', 'g', 'o'],
        }
    }

    pub fn name(&self) -> (r: String)
        ensures
            r@ == self.spec_name(),
    {
        match self {
            ProviderKind::Cargo => {
                let s = String::from_str("cargo");
                proof {
                    reveal_strlit("cargo");
                }
                s
            },
        }
    }

    /// Cargo installs of different tools run side by side.
    pub fn multi_install_mode(&self) -> (r: MultiInstallMode)
        ensures
            *self == ProviderKind::Cargo ==> r == MultiInstallMode::Parallel,
    {
        match self {
            ProviderKind::Cargo => MultiInstallMode::Parallel,
        }
    }
}

} // verus!
