//! The declared tool set: per provider, a map from tool name to its
//! declaration, with the filter, merge, remove and diff operations that
//! drive an install.
use vstd::prelude::*;
use crate::dependency::{CargoInstallDependency, DependencyView, same_declaration};
use crate::keyed::{
    keys_unique, kept_prefix, lemma_keep_step, lemma_kept_all, lemma_map_of_at, lemma_map_of_prefix,
    lemma_map_of_update, lemma_prefix_lacks, lemma_push_unique, map_of, position_of,
};
use crate::provider::ProviderKind;

verus! {

pub type ToolMap = Map<Seq<char>, DependencyView>;

/// A tool named on the command line, optionally qualified by its provider.
#[derive(Clone, Debug)]
pub struct SpecifiedTarget {
    pub provider_kind: Option<ProviderKind>,
    pub name: String,
}

impl SpecifiedTarget {
    pub fn new(provider_kind: Option<ProviderKind>, name: String) -> (r: SpecifiedTarget)
        ensures
            r.provider_kind == provider_kind,
            r.name == name,
    {
        SpecifiedTarget { provider_kind, name }
    }

    /// The target names the cargo tool `k`.
    pub open spec fn names_cargo_tool(self, k: Seq<char>) -> bool {
        self.name@ == k && (self.provider_kind is None || self.provider_kind == Some(ProviderKind::Cargo))
    }
}

/// Some target names the cargo tool `k`.
pub open spec fn targeted(ts: Seq<SpecifiedTarget>, k: Seq<char>) -> bool {
    exists|i: int| 0 <= i < ts.len() && #[trigger] ts[i].names_cargo_tool(k)
}

/// `m` restricted to the tools that `ts` names.
pub open spec fn filter_spec(m: ToolMap, ts: Seq<SpecifiedTarget>) -> ToolMap {
    Map::new(|k: Seq<char>| m.contains_key(k) && targeted(ts, k), |k: Seq<char>| m[k])
}

/// Every tool of `base` and `overlay`; where both have it, `overlay`'s declaration.
pub open spec fn merge_spec(base: ToolMap, overlay: ToolMap) -> ToolMap {
    base.union_prefer_right(overlay)
}

/// `base` without the tools that `removed` names.
pub open spec fn remove_spec(base: ToolMap, removed: ToolMap) -> ToolMap {
    base.remove_keys(removed.dom())
}

/// Tool `k` of `base` needs an install: it is new, its declaration changed,
/// or its local source tree changed (`drift`).
pub open spec fn needs_install(base: ToolMap, old: ToolMap, drift: Set<Seq<char>>, k: Seq<char>) -> bool {
    !old.contains_key(k) || !same_declaration(base[k], old[k]) || (base[k].is_path_backed()
        && drift.contains(k))
}

pub open spec fn need_install_spec(base: ToolMap, old: ToolMap, drift: Set<Seq<char>>) -> ToolMap {
    Map::new(|k: Seq<char>| base.contains_key(k) && needs_install(base, old, drift, k), |k: Seq<char>| base[k])
}

/// The tools of `base` that are installed and unchanged.
pub open spec fn already_installed_spec(base: ToolMap, old: ToolMap, drift: Set<Seq<char>>) -> ToolMap {
    Map::new(|k: Seq<char>| base.contains_key(k) && !needs_install(base, old, drift, k), |k: Seq<char>| base[k])
}

/// The tools of `old` that `base` no longer declares.
pub open spec fn need_uninstall_spec(base: ToolMap, old: ToolMap) -> ToolMap {
    old.remove_keys(base.dom())
}

/// Where a path-backed tool's source tree lies.
pub open spec fn source_root(d: DependencyView) -> Seq<char> {
    match d {
        DependencyView::Detailed(x) => match x.absolute_path {
            Some(a) => a,
            None => match x.path {
                Some(p) => p,
                None => Seq::empty(),
            },
        },
        DependencyView::Simple(_) => Seq::empty(),
    }
}

pub open spec fn view_names(v: Seq<String>) -> Set<Seq<char>> {
    Set::new(|k: Seq<char>| exists|i: int| 0 <= i < v.len() && #[trigger] v[i]@ == k)
}

/// The tools of one provider, keyed by name.
#[derive(Clone, Debug)]
pub struct CargoManifest {
    dependencies: Vec<(String, CargoInstallDependency)>,
}

impl View for CargoManifest {
    type V = ToolMap;

    closed spec fn view(&self) -> ToolMap {
        map_of(self.dependencies@)
    }
}

pub fn is_targeted(ts: &Vec<SpecifiedTarget>, name: &String) -> (r: bool)
    ensures
        r == targeted(ts@, name@),
{
    let mut i: usize = 0;
    while i < ts.len()
        invariant
            i <= ts@.len(),
            forall|j: int| 0 <= j < i ==> !(#[trigger] ts@[j].names_cargo_tool(name@)),
        decreases ts@.len() - i,
    {
        let t = &ts[i];
        let kind_ok = match t.provider_kind {
            None => true,
            Some(ProviderKind::Cargo) => true,
        };
        assert(ts@[i as int].provider_kind is None || ts@[i as int].provider_kind == Some(
            ProviderKind::Cargo,
        ));
        if kind_ok && t.name == *name {
            assert(ts@[i as int].names_cargo_tool(name@));
            return true;
        }
        i = i + 1;
    }
    false
}

fn contains_name(v: &Vec<String>, name: &String) -> (r: bool)
    ensures
        r == view_names(v@).contains(name@),
{
    let mut i: usize = 0;
    while i < v.len()
        invariant
            i <= v@.len(),
            forall|j: int| 0 <= j < i ==> #[trigger] v@[j]@ != name@,
        decreases v@.len() - i,
    {
        if v[i] == *name {
            assert(v@[i as int]@ == name@);
            return true;
        }
        i = i + 1;
    }
    false
}

impl CargoManifest {
    /// No two entries name the same tool.
    pub closed spec fn wf(&self) -> bool {
        keys_unique(self.dependencies@)
    }

    pub fn empty() -> (r: CargoManifest)
        ensures
            r.wf(),
            r@ == ToolMap::empty(),
    {
        CargoManifest { dependencies: Vec::new() }
    }

    /// Builds a manifest from a list; a later entry with an earlier name wins.
    pub fn new(entries: Vec<(String, CargoInstallDependency)>) -> (r: CargoManifest)
        ensures
            r.wf(),
            r@ == map_of(entries@),
    {
        let mut r = CargoManifest::empty();
        let mut i: usize = 0;
        while i < entries.len()
            invariant
                i <= entries@.len(),
                r.wf(),
                r@ == map_of(entries@.subrange(0, i as int)),
            decreases entries@.len() - i,
        {
            let e = (entries[i].0.clone(), entries[i].1.duplicate());
            proof {
                lemma_map_of_prefix(entries@, i as int);
            }
            r.insert(e);
            i = i + 1;
        }
        assert(entries@.subrange(0, entries@.len() as int) =~= entries@);
        r
    }

    /// Adds or replaces the declaration of one tool.
    pub fn insert(&mut self, e: (String, CargoInstallDependency))
        requires
            old(self).wf(),
        ensures
            final(self).wf(),
            final(self)@ == old(self)@.insert(e.0@, e.1@),
    {
        match position_of(&self.dependencies, &e.0) {
            Some(j) => {
                proof {
                    lemma_map_of_update(self.dependencies@, j as int, e);
                }
                self.dependencies.set(j, e);
            },
            None => {
                proof {
                    lemma_push_unique(self.dependencies@, e);
                }
                self.dependencies.push(e);
            },
        }
    }

    pub fn dependencies(&self) -> (r: &Vec<(String, CargoInstallDependency)>)
        ensures
            map_of(r@) == self@,
            keys_unique(r@) == self.wf(),
    {
        &self.dependencies
    }

    pub fn is_empty(&self) -> (r: bool)
        requires
            self.wf(),
        ensures
            r == (self@.dom() == Set::<Seq<char>>::empty()),
    {
        proof {
            if self.dependencies@.len() > 0 {
                lemma_map_of_at(self.dependencies@, 0);
                assert(self@.dom().contains(self.dependencies@[0].0@));
            } else {
                assert(self@.dom() =~= Set::<Seq<char>>::empty());
            }
        }
        self.dependencies.len() == 0
    }

    /// The declaration of tool `name`, if the manifest has one.
    pub fn get(&self, name: &String) -> (r: Option<&CargoInstallDependency>)
        requires
            self.wf(),
        ensures
            match r {
                Some(d) => self@.contains_key(name@) && self@[name@] == d@,
                None => !self@.contains_key(name@),
            },
    {
        match position_of(&self.dependencies, name) {
            Some(j) => {
                proof {
                    lemma_map_of_at(self.dependencies@, j as int);
                }
                Some(&self.dependencies[j].1)
            },
            None => None,
        }
    }

    pub fn contains(&self, name: &String) -> (r: bool)
        requires
            self.wf(),
        ensures
            r == self@.contains_key(name@),
    {
        self.get(name).is_some()
    }

    /// Keeps only the tools that `targets` name.
    pub fn filter_target(&self, targets: &Vec<SpecifiedTarget>) -> (r: CargoManifest)
        requires
            self.wf(),
        ensures
            r.wf(),
            r@ == filter_spec(self@, targets@),
    {
        let ghost keep = |k: Seq<char>| targeted(targets@, k);
        let s = &self.dependencies;
        let mut out: Vec<(String, CargoInstallDependency)> = Vec::new();
        let mut i: usize = 0;
        proof {
            lemma_kept_all(s@, keep);
        }
        while i < s.len()
            invariant
                i <= s@.len(),
                keys_unique(s@),
                keys_unique(out@),
                map_of(out@) == kept_prefix(s@, i as int, keep),
                keep == (|k: Seq<char>| targeted(targets@, k)),
            decreases s@.len() - i,
        {
            let e = (s[i].0.clone(), s[i].1.duplicate());
            proof {
                lemma_keep_step(s@, i as int, out@, e, keep);
            }
            if is_targeted(targets, &s[i].0) {
                out.push(e);
            }
            i = i + 1;
        }
        proof {
            lemma_kept_all(s@, keep);
        }
        let r = CargoManifest { dependencies: out };
        assert(r@ =~= filter_spec(self@, targets@));
        r
    }

    /// Keeps only the tools named in `names`, whatever their provider.
    pub fn remove_names(&self, names: &Vec<String>) -> (r: CargoManifest)
        requires
            self.wf(),
        ensures
            r.wf(),
            r@ == self@.remove_keys(view_names(names@)),
    {
        let ghost keep = |k: Seq<char>| !view_names(names@).contains(k);
        let s = &self.dependencies;
        let mut out: Vec<(String, CargoInstallDependency)> = Vec::new();
        let mut i: usize = 0;
        proof {
            lemma_kept_all(s@, keep);
        }
        while i < s.len()
            invariant
                i <= s@.len(),
                keys_unique(s@),
                keys_unique(out@),
                map_of(out@) == kept_prefix(s@, i as int, keep),
                keep == (|k: Seq<char>| !view_names(names@).contains(k)),
            decreases s@.len() - i,
        {
            let e = (s[i].0.clone(), s[i].1.duplicate());
            proof {
                lemma_keep_step(s@, i as int, out@, e, keep);
            }
            if !contains_name(names, &s[i].0) {
                out.push(e);
            }
            i = i + 1;
        }
        proof {
            lemma_kept_all(s@, keep);
        }
        let r = CargoManifest { dependencies: out };
        assert(r@ =~= self@.remove_keys(view_names(names@)));
        r
    }

    /// The tools of `base` without those that `remove_target_manifest` has.
    pub fn remove_targets(base: &CargoManifest, remove_target_manifest: &CargoManifest) -> (r: CargoManifest)
        requires
            base.wf(),
            remove_target_manifest.wf(),
        ensures
            r.wf(),
            r@ == remove_spec(base@, remove_target_manifest@),
    {
        let ghost keep = |k: Seq<char>| !remove_target_manifest@.contains_key(k);
        let s = &base.dependencies;
        let mut out: Vec<(String, CargoInstallDependency)> = Vec::new();
        let mut i: usize = 0;
        proof {
            lemma_kept_all(s@, keep);
        }
        while i < s.len()
            invariant
                i <= s@.len(),
                keys_unique(s@),
                keys_unique(out@),
                remove_target_manifest.wf(),
                map_of(out@) == kept_prefix(s@, i as int, keep),
                keep == (|k: Seq<char>| !remove_target_manifest@.contains_key(k)),
            decreases s@.len() - i,
        {
            let e = (s[i].0.clone(), s[i].1.duplicate());
            proof {
                lemma_keep_step(s@, i as int, out@, e, keep);
            }
            if !remove_target_manifest.contains(&s[i].0) {
                out.push(e);
            }
            i = i + 1;
        }
        proof {
            lemma_kept_all(s@, keep);
        }
        let r = CargoManifest { dependencies: out };
        assert(r@ =~= remove_spec(base@, remove_target_manifest@));
        r
    }

    /// The tools of both; `new_manifest`'s declaration wins where both have a tool.
    pub fn merge(base_manifest: &CargoManifest, new_manifest: &CargoManifest) -> (r: CargoManifest)
        requires
            base_manifest.wf(),
            new_manifest.wf(),
        ensures
            r.wf(),
            r@ == merge_spec(base_manifest@, new_manifest@),
    {
        let mut r = CargoManifest::remove_targets(base_manifest, new_manifest);
        let s = &new_manifest.dependencies;
        let mut i: usize = 0;
        while i < s.len()
            invariant
                i <= s@.len(),
                r.wf(),
                r@ == remove_spec(base_manifest@, new_manifest@).union_prefer_right(
                    map_of(s@.subrange(0, i as int)),
                ),
            decreases s@.len() - i,
        {
            let e = (s[i].0.clone(), s[i].1.duplicate());
            proof {
                lemma_map_of_prefix(s@, i as int);
            }
            r.insert(e);
            i = i + 1;
            assert(r@ =~= remove_spec(base_manifest@, new_manifest@).union_prefer_right(
                map_of(s@.subrange(0, i as int)),
            ));
        }
        assert(s@.subrange(0, s@.len() as int) =~= s@);
        assert(r@ =~= merge_spec(base_manifest@, new_manifest@));
        r
    }

    /// The tools of `base` that need an install against the cache `old`;
    /// `drift` names the tools whose local source tree changed.
    pub fn get_need_install_dependency_manifest(
        base: &CargoManifest,
        old: &CargoManifest,
        drift: &Vec<String>,
    ) -> (r: CargoManifest)
        requires
            base.wf(),
            old.wf(),
        ensures
            r.wf(),
            r@ == need_install_spec(base@, old@, view_names(drift@)),
    {
        let ghost keep = |k: Seq<char>| needs_install(base@, old@, view_names(drift@), k);
        let s = &base.dependencies;
        let mut out: Vec<(String, CargoInstallDependency)> = Vec::new();
        let mut i: usize = 0;
        proof {
            lemma_kept_all(s@, keep);
        }
        while i < s.len()
            invariant
                i <= s@.len(),
                keys_unique(s@),
                keys_unique(out@),
                old.wf(),
                s@ == base.dependencies@,
                map_of(out@) == kept_prefix(s@, i as int, keep),
                keep == (|k: Seq<char>| needs_install(base@, old@, view_names(drift@), k)),
            decreases s@.len() - i,
        {
            let name = &s[i].0;
            let dep = &s[i].1;
            let e = (name.clone(), dep.duplicate());
            proof {
                lemma_keep_step(s@, i as int, out@, e, keep);
                lemma_map_of_at(s@, i as int);
            }
            let need = match old.get(name) {
                None => true,
                Some(old_dep) => !dep.declares_same(old_dep) || (dep.is_path_backed()
                    && contains_name(drift, name)),
            };
            if need {
                out.push(e);
            }
            i = i + 1;
        }
        proof {
            lemma_kept_all(s@, keep);
        }
        let r = CargoManifest { dependencies: out };
        assert(r@ =~= need_install_spec(base@, old@, view_names(drift@)));
        r
    }

    /// The tools of the cache `old` that `base` no longer declares.
    pub fn get_need_uninstall_dependency_manifest(base: &CargoManifest, old: &CargoManifest) -> (r: CargoManifest)
        requires
            base.wf(),
            old.wf(),
        ensures
            r.wf(),
            r@ == need_uninstall_spec(base@, old@),
    {
        CargoManifest::remove_targets(old, base)
    }

    /// Resolves each tool's relative `path` against the manifest's directory.
    pub fn fix(self, manifest_dir: &str) -> (r: CargoManifest)
        requires
            self.wf(),
        ensures
            r.wf(),
            r@ == Map::new(|k: Seq<char>| self@.contains_key(k), |k: Seq<char>| self@[k].fixed(manifest_dir@)),
    {
        let s = self.dependencies;
        let mut out = CargoManifest::empty();
        let mut i: usize = 0;
        let ghost fixed_all = Map::new(|k: Seq<char>| map_of(s@).contains_key(k), |k: Seq<char>| map_of(s@)[k].fixed(manifest_dir@));
        while i < s.len()
            invariant
                i <= s@.len(),
                keys_unique(s@),
                out.wf(),
                out@ == Map::new(|k: Seq<char>| map_of(s@.subrange(0, i as int)).contains_key(k), |k: Seq<char>| map_of(s@)[k].fixed(manifest_dir@)),
            decreases s@.len() - i,
        {
            let name = s[i].0.clone();
            let dep = s[i].1.duplicate().fix(manifest_dir);
            proof {
                lemma_map_of_prefix(s@, i as int);
                lemma_map_of_at(s@, i as int);
            }
            out.insert((name, dep));
            i = i + 1;
            assert(out@ =~= Map::new(|k: Seq<char>| map_of(s@.subrange(0, i as int)).contains_key(k), |k: Seq<char>| map_of(s@)[k].fixed(manifest_dir@)));
        }
        assert(s@.subrange(0, s@.len() as int) =~= s@);
        assert(out@ =~= Map::new(|k: Seq<char>| self@.contains_key(k), |k: Seq<char>| self@[k].fixed(manifest_dir@)));
        out
    }
}

/// Failures in reading or checking a manifest.
#[derive(Debug)]
pub enum IsobinManifestError {
    NothingFileExtension { path: String },
    UnknownFileExtension { path: String, extension: String },
    /// The declaration of `name` names no source (no version, path or git).
    Validate { provider: ProviderKind, name: String },
    MultiValidate(Vec<IsobinManifestError>),
}

/// The tools whose declaration names no source.
pub open spec fn invalid_tools(m: ToolMap) -> Set<Seq<char>> {
    Set::new(|k: Seq<char>| m.contains_key(k) && !m[k].is_valid())
}

/// The cargo tools that a list of validation errors names.
pub open spec fn validate_names(es: Seq<IsobinManifestError>) -> Set<Seq<char>> {
    Set::new(|k: Seq<char>| exists|i: int| 0 <= i < es.len() && #[trigger] es[i].names_invalid_tool(k))
}

impl IsobinManifestError {
    pub open spec fn names_invalid_tool(self, k: Seq<char>) -> bool {
        match self {
            IsobinManifestError::Validate { provider, name } => provider == ProviderKind::Cargo && name@ == k,
            _ => false,
        }
    }
}

/// The declared tool set of a project, for every provider.
#[derive(Clone, Debug)]
pub struct IsobinManifest {
    cargo: CargoManifest,
}

impl View for IsobinManifest {
    type V = ToolMap;

    closed spec fn view(&self) -> ToolMap {
        self.cargo@
    }
}

impl IsobinManifest {
    pub closed spec fn wf(&self) -> bool {
        self.cargo.wf()
    }

    pub fn new(cargo: CargoManifest) -> (r: IsobinManifest)
        requires
            cargo.wf(),
        ensures
            r.wf(),
            r@ == cargo@,
    {
        IsobinManifest { cargo }
    }

    pub fn empty() -> (r: IsobinManifest)
        ensures
            r.wf(),
            r@ == ToolMap::empty(),
    {
        IsobinManifest { cargo: CargoManifest::empty() }
    }

    pub fn duplicate(&self) -> (r: IsobinManifest)
        requires
            self.wf(),
        ensures
            r.wf(),
            r@ == self@,
    {
        let none = CargoManifest::empty();
        let r = IsobinManifest { cargo: CargoManifest::remove_targets(&self.cargo, &none) };
        assert(r@ =~= self@);
        r
    }

    pub fn cargo(&self) -> (r: &CargoManifest)
        ensures
            r@ == self@,
            r.wf() == self.wf(),
    {
        &self.cargo
    }

    pub fn is_empty(&self) -> (r: bool)
        requires
            self.wf(),
        ensures
            r == (self@.dom() == Set::<Seq<char>>::empty()),
    {
        self.cargo.is_empty()
    }

    /// Whether the manifest declares a tool of that name.
    pub fn exists_name(&self, name: &String) -> (r: bool)
        requires
            self.wf(),
        ensures
            r == self@.contains_key(name@),
    {
        self.cargo.contains(name)
    }

    /// Checks every declaration; the error lists each tool that names no source.
    pub fn validate(&self) -> (r: Result<(), IsobinManifestError>)
        requires
            self.wf(),
        ensures
            r is Ok <==> invalid_tools(self@) == Set::<Seq<char>>::empty(),
            r matches Err(IsobinManifestError::MultiValidate(es)) && validate_names(es@) == invalid_tools(self@)
                || r is Ok,
    {
        let s = self.cargo.dependencies();
        let mut errs: Vec<IsobinManifestError> = Vec::new();
        let mut i: usize = 0;
        while i < s.len()
            invariant
                i <= s@.len(),
                keys_unique(s@),
                map_of(s@) == self@,
                forall|j: int| 0 <= j < errs@.len() ==> (#[trigger] errs@[j]).names_invalid_tool(errs@[j]->Validate_name@),
                forall|k: Seq<char>| validate_names(errs@).contains(k) <==> (map_of(s@.subrange(0, i as int)).contains_key(k) && !self@[k].is_valid()),
            decreases s@.len() - i,
        {
            proof {
                lemma_map_of_prefix(s@, i as int);
                lemma_map_of_at(s@, i as int);
                lemma_prefix_lacks(s@, i as int);
            }
            let ghost before = errs@;
            let ghost ki = s@[i as int].0@;
            let ghost invalid_i = !s@[i as int].1@.is_valid();
            if !s[i].1.validate() {
                let e = IsobinManifestError::Validate { provider: ProviderKind::Cargo, name: s[i].0.clone() };
                errs.push(e);
                assert forall|k: Seq<char>| validate_names(errs@).contains(k) <==> validate_names(before).contains(k) || (invalid_i && k == ki) by {
                    if validate_names(errs@).contains(k) {
                        let j = choose|j: int| 0 <= j < errs@.len() && #[trigger] errs@[j].names_invalid_tool(k);
                        if j < before.len() {
                            assert(before[j] == errs@[j]);
                        }
                    }
                    if validate_names(before).contains(k) {
                        let j = choose|j: int| 0 <= j < before.len() && #[trigger] before[j].names_invalid_tool(k);
                        assert(errs@[j] == before[j]);
                    }
                    if k == ki {
                        assert(errs@[before.len() as int].names_invalid_tool(k));
                    }
                }
            } else {
                assert forall|k: Seq<char>| validate_names(errs@).contains(k) <==> validate_names(before).contains(k) || (invalid_i && k == ki) by {
                    assert(errs@ == before);
                }
            }
            assert(self@[ki] == s@[i as int].1@);
            assert(!map_of(s@.subrange(0, i as int)).contains_key(ki));
            assert(map_of(s@.subrange(0, i + 1)) == map_of(s@.subrange(0, i as int)).insert(ki, s@[i as int].1@));
            assert forall|k: Seq<char>| validate_names(errs@).contains(k) <==> (map_of(s@.subrange(0, i + 1)).contains_key(k) && !self@[k].is_valid()) by {
                assert(validate_names(errs@).contains(k) <==> validate_names(before).contains(k) || (invalid_i && k == ki));
                assert(validate_names(before).contains(k) <==> (map_of(s@.subrange(0, i as int)).contains_key(k) && !self@[k].is_valid()));
                if k != ki {
                    assert(map_of(s@.subrange(0, i + 1)).contains_key(k) == map_of(s@.subrange(0, i as int)).contains_key(k));
                }
            }
            i = i + 1;
        }
        assert(s@.subrange(0, s@.len() as int) =~= s@);
        assert(validate_names(errs@) =~= invalid_tools(self@));
        if errs.len() == 0 {
            assert(validate_names(errs@) =~= Set::<Seq<char>>::empty());
            Ok(())
        } else {
            proof {
                let e0 = errs@[0];
                assert(e0.names_invalid_tool(e0->Validate_name@));
                assert(validate_names(errs@).contains(e0->Validate_name@));
            }
            Err(IsobinManifestError::MultiValidate(errs))
        }
    }

    pub fn fix(self, manifest_dir: &str) -> (r: IsobinManifest)
        requires
            self.wf(),
        ensures
            r.wf(),
            r@ == Map::new(|k: Seq<char>| self@.contains_key(k), |k: Seq<char>| self@[k].fixed(manifest_dir@)),
    {
        IsobinManifest { cargo: self.cargo.fix(manifest_dir) }
    }

    pub fn filter_target(&self, targets: &Vec<SpecifiedTarget>) -> (r: IsobinManifest)
        requires
            self.wf(),
        ensures
            r.wf(),
            r@ == filter_spec(self@, targets@),
    {
        IsobinManifest { cargo: self.cargo.filter_target(targets) }
    }

    pub fn merge(&self, new_manifest: &IsobinManifest) -> (r: IsobinManifest)
        requires
            self.wf(),
            new_manifest.wf(),
        ensures
            r.wf(),
            r@ == merge_spec(self@, new_manifest@),
    {
        IsobinManifest { cargo: CargoManifest::merge(&self.cargo, &new_manifest.cargo) }
    }

    pub fn remove_targets(&self, remove_target_manifest: &IsobinManifest) -> (r: IsobinManifest)
        requires
            self.wf(),
            remove_target_manifest.wf(),
        ensures
            r.wf(),
            r@ == remove_spec(self@, remove_target_manifest@),
    {
        IsobinManifest { cargo: CargoManifest::remove_targets(&self.cargo, &remove_target_manifest.cargo) }
    }

    pub fn get_need_install_dependency_manifest(
        base: &IsobinManifest,
        old: &IsobinManifest,
        drift: &Vec<String>,
    ) -> (r: IsobinManifest)
        requires
            base.wf(),
            old.wf(),
        ensures
            r.wf(),
            r@ == need_install_spec(base@, old@, view_names(drift@)),
    {
        IsobinManifest {
            cargo: CargoManifest::get_need_install_dependency_manifest(&base.cargo, &old.cargo, drift),
        }
    }

    pub fn get_need_uninstall_dependency_manifest(base: &IsobinManifest, old: &IsobinManifest) -> (r: IsobinManifest)
        requires
            base.wf(),
            old.wf(),
        ensures
            r.wf(),
            r@ == need_uninstall_spec(base@, old@),
    {
        IsobinManifest { cargo: CargoManifest::get_need_uninstall_dependency_manifest(&base.cargo, &old.cargo) }
    }

    /// Each path-backed tool with the root of its source tree: the resolved
    /// absolute path where there is one, else the declared path.
    pub fn path_backed_roots(&self) -> (r: Vec<(String, String)>)
        requires
            self.wf(),
        ensures
            keys_unique(r@),
            map_of(r@) == Map::new(
                |k: Seq<char>| self@.contains_key(k) && self@[k].is_path_backed(),
                |k: Seq<char>| source_root(self@[k]),
            ),
    {
        let s = self.cargo.dependencies();
        let ghost target = Map::new(
            |k: Seq<char>| self@.contains_key(k) && self@[k].is_path_backed(),
            |k: Seq<char>| source_root(self@[k]),
        );
        let mut out: Vec<(String, String)> = Vec::new();
        let mut i: usize = 0;
        while i < s.len()
            invariant
                i <= s@.len(),
                keys_unique(s@),
                map_of(s@) == self@,
                keys_unique(out@),
                target == Map::new(
                    |k: Seq<char>| self@.contains_key(k) && self@[k].is_path_backed(),
                    |k: Seq<char>| source_root(self@[k]),
                ),
                map_of(out@) == target.restrict(map_of(s@.subrange(0, i as int)).dom()),
            decreases s@.len() - i,
        {
            proof {
                lemma_map_of_prefix(s@, i as int);
                lemma_map_of_at(s@, i as int);
                lemma_prefix_lacks(s@, i as int);
            }
            match &s[i].1 {
                CargoInstallDependency::Detailed(d) => match &d.path {
                    Some(p) => {
                        let root = match &d.absolute_path {
                            Some(a) => a.clone(),
                            None => p.clone(),
                        };
                        let e = (s[i].0.clone(), root);
                        proof {
                            lemma_push_unique(out@, e);
                        }
                        out.push(e);
                    },
                    None => {},
                },
                CargoInstallDependency::Simple(_) => {},
            }
            i = i + 1;
            assert(map_of(out@) =~= target.restrict(map_of(s@.subrange(0, i as int)).dom()));
        }
        assert(s@.subrange(0, s@.len() as int) =~= s@);
        assert(map_of(out@) =~= target);
        out
    }

    /// Whether the declared tool `name` of `provider` differs from what the
    /// cache recorded (`drift` names the tools whose source tree changed).
    pub fn detect_difference(
        &self,
        cache: &IsobinManifest,
        provider: ProviderKind,
        name: &String,
        drift: &Vec<String>,
    ) -> (r: bool)
        requires
            self.wf(),
            cache.wf(),
        ensures
            r == (self@.contains_key(name@) && needs_install(self@, cache@, view_names(drift@), name@)),
    {
        match provider {
            ProviderKind::Cargo => match self.cargo.get(name) {
                None => false,
                Some(dep) => match cache.cargo.get(name) {
                    None => true,
                    Some(old_dep) => !dep.declares_same(old_dep) || (dep.is_path_backed() && contains_name(drift, name)),
                },
            },
        }
    }
}

/// Merging the declared manifest into the cache and then removing what the
/// manifest no longer declares leaves exactly the declared manifest.
pub proof fn law_merge_then_remove_uninstalled(m: ToolMap, c: ToolMap)
    ensures
        remove_spec(merge_spec(c, m), need_uninstall_spec(m, c)) == m,
{
    assert(remove_spec(merge_spec(c, m), need_uninstall_spec(m, c)) =~= m);
}

/// Every tool of the manifest or the cache falls in exactly one class:
/// to install, already installed, or to uninstall.
pub proof fn law_diff_complete(m: ToolMap, c: ToolMap, drift: Set<Seq<char>>)
    ensures
        need_install_spec(m, c, drift).dom() + already_installed_spec(m, c, drift).dom()
            + need_uninstall_spec(m, c).dom() == m.dom() + c.dom(),
        need_install_spec(m, c, drift).dom().disjoint(already_installed_spec(m, c, drift).dom()),
        need_install_spec(m, c, drift).dom().disjoint(need_uninstall_spec(m, c).dom()),
        already_installed_spec(m, c, drift).dom().disjoint(need_uninstall_spec(m, c).dom()),
{
    assert(need_install_spec(m, c, drift).dom() + already_installed_spec(m, c, drift).dom()
        + need_uninstall_spec(m, c).dom() =~= m.dom() + c.dom());
}

/// Installing a manifest a second time, with no source tree changed, finds
/// nothing to install and leaves the cache as the first install wrote it.
pub proof fn law_install_idempotent(m: ToolMap, c: ToolMap)
    ensures
        need_install_spec(m, merge_spec(c, m), Set::empty()).dom() == Set::<Seq<char>>::empty(),
        merge_spec(merge_spec(c, m), m) == merge_spec(c, m),
{
    let c2 = merge_spec(c, m);
    assert forall|k: Seq<char>| m.contains_key(k) implies !needs_install(m, c2, Set::empty(), k) by {
        assert(c2[k] == m[k]);
    }
    assert(need_install_spec(m, c2, Set::empty()).dom() =~= Set::<Seq<char>>::empty());
    assert(merge_spec(c2, m) =~= c2);
}

/// A path-backed tool whose declaration is unchanged is installed again
/// exactly when its source tree changed.
pub proof fn law_path_change_decides(m: ToolMap, c: ToolMap, drift: Set<Seq<char>>, k: Seq<char>)
    requires
        m.contains_key(k),
        c.contains_key(k),
        same_declaration(m[k], c[k]),
        m[k].is_path_backed(),
    ensures
        need_install_spec(m, c, drift).contains_key(k) <==> drift.contains(k),
{
}

} // verus!
