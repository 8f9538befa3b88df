//! The install orchestrator's decisions: which tools to install, keep or
//! uninstall, what the cache becomes, and how failures are gathered.
use vstd::prelude::*;
use crate::dependency::{CargoInstallDependency, DependencyView};
use crate::keyed::{keys_unique, lemma_map_of_at, lemma_map_of_prefix, lemma_prefix_lacks, lemma_push_unique, map_of};
use crate::manifest::{
    filter_spec, merge_spec, need_install_spec, need_uninstall_spec, remove_spec, view_names,
    IsobinManifest, SpecifiedTarget, ToolMap,
};
use crate::provider::{ProviderKind, TargetMode};

verus! {

/// Which declared tools an install considers.
#[derive(Debug)]
pub enum InstallMode {
    All,
    SpecificInstallTargetsOnly { specified_install_targets: Vec<SpecifiedTarget> },
}

impl InstallMode {
    /// The part of `m` that this mode selects.
    pub open spec fn applied(&self, m: ToolMap) -> ToolMap {
        match self {
            InstallMode::All => m,
            InstallMode::SpecificInstallTargetsOnly { specified_install_targets } => filter_spec(
                m,
                specified_install_targets@,
            ),
        }
    }

    pub fn apply(&self, m: &IsobinManifest) -> (r: IsobinManifest)
        requires
            m.wf(),
        ensures
            r.wf(),
            r@ == self.applied(m@),
    {
        match self {
            InstallMode::All => m.duplicate(),
            InstallMode::SpecificInstallTargetsOnly { specified_install_targets } => m.filter_target(
                specified_install_targets,
            ),
        }
    }
}

/// One tool as a provider runner sees it: its declaration and what to do.
#[derive(Clone, Debug)]
pub struct CargoTargetDependency {
    pub install_dependency: CargoInstallDependency,
    pub mode: TargetMode,
}

impl View for CargoTargetDependency {
    type V = (DependencyView, TargetMode);

    open spec fn view(&self) -> (DependencyView, TargetMode) {
        (self.install_dependency@, self.mode)
    }
}

/// Each tool of `specified` is installed if `install` has it and kept
/// otherwise; each tool of `uninstall` is uninstalled.
pub open spec fn classification(specified: ToolMap, install: ToolMap, uninstall: ToolMap) -> Map<Seq<char>, (DependencyView, TargetMode)> {
    Map::new(
        |k: Seq<char>| specified.contains_key(k) || uninstall.contains_key(k),
        |k: Seq<char>|
            if specified.contains_key(k) {
                (specified[k], if install.contains_key(k) { TargetMode::Install } else { TargetMode::AlreadyInstalled })
            } else {
                (uninstall[k], TargetMode::Uninstall)
            },
    )
}

/// Classifies every tool of one provider for a run.
pub fn classify_targets(
    specified: &IsobinManifest,
    install: &IsobinManifest,
    uninstall: &IsobinManifest,
) -> (r: Vec<(String, CargoTargetDependency)>)
    requires
        specified.wf(),
        install.wf(),
        uninstall.wf(),
        specified@.dom().disjoint(uninstall@.dom()),
    ensures
        keys_unique(r@),
        map_of(r@) == classification(specified@, install@, uninstall@),
{
    let ghost target = classification(specified@, install@, uninstall@);
    let sc = specified.cargo();
    let uc = uninstall.cargo();
    let s = sc.dependencies();
    let u = uc.dependencies();
    let mut out: Vec<(String, CargoTargetDependency)> = Vec::new();
    let mut i: usize = 0;
    while i < s.len()
        invariant
            i <= s@.len(),
            keys_unique(s@),
            map_of(s@) == specified@,
            keys_unique(out@),
            install.wf(),
            target == classification(specified@, install@, uninstall@),
            map_of(out@) == target.restrict(map_of(s@.subrange(0, i as int)).dom()),
        decreases s@.len() - i,
    {
        let name = s[i].0.clone();
        let mode = if install.exists_name(&s[i].0) { TargetMode::Install } else { TargetMode::AlreadyInstalled };
        let e = (name, CargoTargetDependency { install_dependency: s[i].1.duplicate(), mode });
        proof {
            lemma_map_of_prefix(s@, i as int);
            lemma_map_of_at(s@, i as int);
            lemma_prefix_lacks(s@, i as int);
            lemma_push_unique(out@, e);
        }
        out.push(e);
        i = i + 1;
        assert(map_of(out@) =~= target.restrict(map_of(s@.subrange(0, i as int)).dom()));
    }
    assert(s@.subrange(0, s@.len() as int) =~= s@);
    let mut j: usize = 0;
    while j < u.len()
        invariant
            j <= u@.len(),
            keys_unique(u@),
            map_of(u@) == uninstall@,
            keys_unique(out@),
            specified@.dom().disjoint(uninstall@.dom()),
            target == classification(specified@, install@, uninstall@),
            map_of(out@) == target.restrict(specified@.dom() + map_of(u@.subrange(0, j as int)).dom()),
        decreases u@.len() - j,
    {
        let e = (u[j].0.clone(), CargoTargetDependency { install_dependency: u[j].1.duplicate(), mode: TargetMode::Uninstall });
        proof {
            lemma_map_of_prefix(u@, j as int);
            lemma_map_of_at(u@, j as int);
            lemma_prefix_lacks(u@, j as int);
            assert(!specified@.contains_key(e.0@));
            lemma_push_unique(out@, e);
        }
        out.push(e);
        j = j + 1;
        assert(map_of(out@) =~= target.restrict(specified@.dom() + map_of(u@.subrange(0, j as int)).dom()));
    }
    assert(u@.subrange(0, u@.len() as int) =~= u@);
    assert(map_of(out@) =~= target);
    out
}

/// Everything an install or a sync decides before any provider runs.
pub struct InstallPlan {
    /// The declared tools that this run considers.
    pub specified: IsobinManifest,
    /// The tools to install (new, changed, or with a changed source tree).
    pub install: IsobinManifest,
    /// The cached tools to uninstall.
    pub uninstall: IsobinManifest,
    /// What the cache becomes once the run commits.
    pub save: IsobinManifest,
    /// Every tool with what to do with it.
    pub targets: Vec<(String, CargoTargetDependency)>,
}

impl InstallPlan {
    pub open spec fn wf(&self) -> bool {
        &&& self.specified.wf()
        &&& self.install.wf()
        &&& self.uninstall.wf()
        &&& self.save.wf()
        &&& keys_unique(self.targets@)
        &&& map_of(self.targets@) == classification(self.specified@, self.install@, self.uninstall@)
    }
}

/// The cache that a run compares against: nothing where `force` is set.
pub open spec fn effective_cache(cached: ToolMap, force: bool) -> ToolMap {
    if force { ToolMap::empty() } else { cached }
}

/// Plans an install: the tools that `mode` selects are installed where new or
/// changed and kept otherwise; nothing is uninstalled, and the cache becomes
/// the old cache with the selected declarations laid over it.
pub fn plan_install(
    declared: &IsobinManifest,
    cached: &IsobinManifest,
    mode: &InstallMode,
    force: bool,
    drift: &Vec<String>,
) -> (r: InstallPlan)
    requires
        declared.wf(),
        cached.wf(),
    ensures
        r.wf(),
        r.specified@ == mode.applied(declared@),
        r.install@ == need_install_spec(r.specified@, effective_cache(cached@, force), view_names(drift@)),
        r.uninstall@ == ToolMap::empty(),
        r.save@ == merge_spec(effective_cache(cached@, force), r.specified@),
{
    let cache = if force { IsobinManifest::empty() } else { cached.duplicate() };
    let specified = mode.apply(declared);
    let install = IsobinManifest::get_need_install_dependency_manifest(&specified, &cache, drift);
    let uninstall = IsobinManifest::empty();
    let save = cache.merge(&specified);
    assert(specified@.dom().disjoint(uninstall@.dom()));
    let targets = classify_targets(&specified, &install, &uninstall);
    InstallPlan { specified, install, uninstall, save, targets }
}

/// Plans a sync: every declared tool is installed where new or changed and
/// kept otherwise, every cached tool no longer declared is uninstalled, and
/// the cache becomes exactly the declared manifest.
pub fn plan_sync(declared: &IsobinManifest, cached: &IsobinManifest, force: bool, drift: &Vec<String>) -> (r: InstallPlan)
    requires
        declared.wf(),
        cached.wf(),
    ensures
        r.wf(),
        r.specified@ == declared@,
        r.install@ == need_install_spec(declared@, effective_cache(cached@, force), view_names(drift@)),
        r.uninstall@ == need_uninstall_spec(declared@, effective_cache(cached@, force)),
        r.save@ == remove_spec(merge_spec(effective_cache(cached@, force), declared@), r.uninstall@),
{
    let cache = if force { IsobinManifest::empty() } else { cached.duplicate() };
    let specified = declared.duplicate();
    let install = IsobinManifest::get_need_install_dependency_manifest(&specified, &cache, drift);
    let uninstall = IsobinManifest::get_need_uninstall_dependency_manifest(&specified, &cache);
    let merged = cache.merge(&specified);
    let save = merged.remove_targets(&uninstall);
    assert(specified@.dom().disjoint(uninstall@.dom()));
    let targets = classify_targets(&specified, &install, &uninstall);
    InstallPlan { specified, install, uninstall, save, targets }
}

/// Failures of an install run.
#[derive(Debug)]
pub enum InstallServiceError {
    MultiInstall(Vec<InstallServiceError>),
    /// The provider's command for tool `name` failed with `error_message`.
    Install { provider: ProviderKind, name: String, error_message: String },
    /// Executables of these names would come from more than one tool.
    DuplicateBin(Vec<String>),
}

/// The errors among `results`, in order.
pub open spec fn errors_of(results: Seq<Result<(), InstallServiceError>>) -> Seq<InstallServiceError>
    decreases results.len(),
{
    if results.len() == 0 {
        Seq::empty()
    } else {
        let rest = errors_of(results.drop_last());
        match results.last() {
            Ok(_) => rest,
            Err(e) => rest.push(e),
        }
    }
}

/// Gathers the outcomes of sibling targets: success where all succeeded,
/// else every error, in order, in one `MultiInstall`.
pub fn collect_results(results: Vec<Result<(), InstallServiceError>>) -> (r: Result<(), InstallServiceError>)
    ensures
        errors_of(results@).len() == 0 ==> r is Ok,
        errors_of(results@).len() > 0 ==> (r matches Err(InstallServiceError::MultiInstall(es)) && es@ == errors_of(results@)),
{
    let ghost all = results@;
    let mut rest = results;
    let mut errs: Vec<InstallServiceError> = Vec::new();
    while rest.len() > 0
        invariant
            errors_of(all) == errors_of(rest@) + errs@,
        decreases rest@.len(),
    {
        let ghost before = rest@;
        let last = rest.pop();
        proof {
            assert(rest@ == before.drop_last());
        }
        match last {
            Some(Err(e)) => {
                errs.insert(0, e);
                assert(errors_of(all) =~= errors_of(rest@) + errs@);
            },
            _ => {
                assert(errors_of(all) =~= errors_of(rest@) + errs@);
            },
        }
    }
    assert(errors_of(all) =~= errs@);
    if errs.len() == 0 {
        Ok(())
    } else {
        Err(InstallServiceError::MultiInstall(errs))
    }
}

/// The names of the targets in `mode`, in the targets' order.
pub fn names_in_mode(targets: &Vec<(String, CargoTargetDependency)>, mode: TargetMode) -> (r: Vec<String>)
    requires
        keys_unique(targets@),
    ensures
        view_names(r@) == Set::new(|k: Seq<char>| map_of(targets@).contains_key(k) && map_of(targets@)[k].1 == mode),
{
    let mut out: Vec<String> = Vec::new();
    let mut i: usize = 0;
    while i < targets.len()
        invariant
            i <= targets@.len(),
            keys_unique(targets@),
            view_names(out@) == Set::new(|k: Seq<char>| map_of(targets@.subrange(0, i as int)).contains_key(k) && map_of(targets@)[k].1 == mode),
        decreases targets@.len() - i,
    {
        proof {
            lemma_map_of_prefix(targets@, i as int);
            lemma_map_of_at(targets@, i as int);
            lemma_prefix_lacks(targets@, i as int);
        }
        let ghost before = out@;
        let ghost ki = targets@[i as int].0@;
        if targets[i].1.mode == mode {
            out.push(targets[i].0.clone());
        }
        assert forall|k: Seq<char>| view_names(out@).contains(k) <==> (view_names(before).contains(k) || (k == targets@[i as int].0@ && targets@[i as int].1.mode == mode)) by {
            if view_names(out@).contains(k) {
                let j = choose|j: int| 0 <= j < out@.len() && #[trigger] out@[j]@ == k;
                if j < before.len() {
                    assert(before[j] == out@[j]);
                }
            }
            if view_names(before).contains(k) {
                let j = choose|j: int| 0 <= j < before.len() && #[trigger] before[j]@ == k;
                assert(out@[j] == before[j]);
            }
            if k == targets@[i as int].0@ && targets@[i as int].1.mode == mode {
                assert(out@[before.len() as int]@ == k);
            }
        }
        assert forall|k: Seq<char>| view_names(out@).contains(k) <==> (map_of(targets@.subrange(0, i + 1)).contains_key(k) && map_of(targets@)[k].1 == mode) by {
            assert(view_names(before).contains(k) <==> (map_of(targets@.subrange(0, i as int)).contains_key(k) && map_of(targets@)[k].1 == mode));
            if k != ki {
                assert(map_of(targets@.subrange(0, i + 1)).contains_key(k) == map_of(targets@.subrange(0, i as int)).contains_key(k));
            }
        }
        i = i + 1;
        assert(view_names(out@) =~= Set::new(|k: Seq<char>| map_of(targets@.subrange(0, i as int)).contains_key(k) && map_of(targets@)[k].1 == mode));
    }
    assert(targets@.subrange(0, targets@.len() as int) =~= targets@);
    out
}

} // verus!
