//! What a manifest declares for one cargo tool: a bare version, or a
//! detailed record of where and how to build it.
use vstd::prelude::*;
use crate::version::{Version, VersionView};

verus! {

#[derive(Clone, Debug)]
pub struct CargoInstallDependencyDetail {
    pub bins: Option<Vec<String>>,
    pub version: Option<Version>,
    pub registry: Option<String>,
    pub index: Option<String>,
    pub path: Option<String>,
    /// `path` resolved against the manifest's directory; derived, never persisted.
    pub absolute_path: Option<String>,
    pub git: Option<String>,
    pub branch: Option<String>,
    pub tag: Option<String>,
    pub rev: Option<String>,
    pub features: Option<Vec<String>>,
    pub no_default_features: Option<bool>,
    pub all_features: Option<bool>,
}

#[derive(Clone, Debug)]
pub enum CargoInstallDependency {
    Simple(Version),
    Detailed(CargoInstallDependencyDetail),
}

pub struct DetailView {
    pub bins: Option<Seq<Seq<char>>>,
    pub version: Option<VersionView>,
    pub registry: Option<Seq<char>>,
    pub index: Option<Seq<char>>,
    pub path: Option<Seq<char>>,
    pub absolute_path: Option<Seq<char>>,
    pub git: Option<Seq<char>>,
    pub branch: Option<Seq<char>>,
    pub tag: Option<Seq<char>>,
    pub rev: Option<Seq<char>>,
    pub features: Option<Seq<Seq<char>>>,
    pub no_default_features: Option<bool>,
    pub all_features: Option<bool>,
}

pub enum DependencyView {
    Simple(VersionView),
    Detailed(DetailView),
}

pub open spec fn opt_version_view(v: Option<Version>) -> Option<VersionView> {
    match v {
        Some(v) => Some(v@),
        None => None,
    }
}

impl View for CargoInstallDependencyDetail {
    type V = DetailView;

    open spec fn view(&self) -> DetailView {
        DetailView {
            bins: self.bins.deep_view(),
            version: opt_version_view(self.version),
            registry: self.registry.deep_view(),
            index: self.index.deep_view(),
            path: self.path.deep_view(),
            absolute_path: self.absolute_path.deep_view(),
            git: self.git.deep_view(),
            branch: self.branch.deep_view(),
            tag: self.tag.deep_view(),
            rev: self.rev.deep_view(),
            features: self.features.deep_view(),
            no_default_features: self.no_default_features,
            all_features: self.all_features,
        }
    }
}

impl View for CargoInstallDependency {
    type V = DependencyView;

    open spec fn view(&self) -> DependencyView {
        match self {
            CargoInstallDependency::Simple(v) => DependencyView::Simple(v@),
            CargoInstallDependency::Detailed(d) => DependencyView::Detailed(d@),
        }
    }
}

impl DetailView {
    /// The record as a manifest writes it, without the derived absolute path.
    pub open spec fn declared(self) -> DetailView {
        DetailView { absolute_path: None, ..self }
    }

    /// A detailed record names a source: a version, a path or a git repository.
    pub open spec fn is_valid(self) -> bool {
        self.version is Some || self.path is Some || self.git is Some
    }
}

impl DependencyView {
    pub open spec fn is_valid(self) -> bool {
        match self {
            DependencyView::Simple(_) => true,
            DependencyView::Detailed(d) => d.is_valid(),
        }
    }

    /// Built from a local source tree.
    pub open spec fn is_path_backed(self) -> bool {
        match self {
            DependencyView::Simple(_) => false,
            DependencyView::Detailed(d) => d.path is Some,
        }
    }

    /// The derived absolute path set from `path`, resolved against `dir`.
    pub open spec fn fixed(self, dir: Seq<char>) -> DependencyView {
        match self {
            DependencyView::Simple(_) => self,
            DependencyView::Detailed(d) => DependencyView::Detailed(
                match d.path {
                    Some(p) => DetailView { absolute_path: Some(joined_path(dir, p)), ..d },
                    None => d,
                },
            ),
        }
    }
}

/// Two declarations are the same when they agree on every declared field;
/// a bare version never equals a detailed record.
pub open spec fn same_declaration(a: DependencyView, b: DependencyView) -> bool {
    match (a, b) {
        (DependencyView::Simple(x), DependencyView::Simple(y)) => x == y,
        (DependencyView::Detailed(x), DependencyView::Detailed(y)) => x.declared() == y.declared(),
        _ => false,
    }
}

/// What `std::path::Path::join` makes of a directory and a path.
pub uninterp spec fn joined_path(dir: Seq<char>, rel: Seq<char>) -> Seq<char>;

/// Relies on `std::path::Path::join`: `rel` appended to `dir` (or `rel`
/// itself where it is absolute), written back as text.
#[verifier::external_body]
pub(crate) fn join_path(dir: &str, rel: &str) -> (r: String)
    ensures
        r@ == joined_path(dir@, rel@),
{
    std::path::Path::new(dir).join(rel).to_string_lossy().into_owned()
}

pub fn dup_opt_string(o: &Option<String>) -> (r: Option<String>)
    ensures
        r == *o,
{
    match o {
        Some(s) => Some(s.clone()),
        None => None,
    }
}

pub fn dup_strings(v: &Vec<String>) -> (r: Vec<String>)
    ensures
        r@ == v@,
{
    let mut r: Vec<String> = Vec::new();
    let mut i: usize = 0;
    while i < v.len()
        invariant
            i <= v@.len(),
            r@ == v@.subrange(0, i as int),
        decreases v@.len() - i,
    {
        r.push(v[i].clone());
        i = i + 1;
        assert(r@ =~= v@.subrange(0, i as int));
    }
    assert(r@ =~= v@);
    r
}

pub fn dup_opt_strings(o: &Option<Vec<String>>) -> (r: Option<Vec<String>>)
    ensures
        r.deep_view() == o.deep_view(),
{
    match o {
        Some(v) => {
            let c = dup_strings(v);
            assert(c.deep_view() =~= v.deep_view());
            Some(c)
        },
        None => None,
    }
}

pub fn same_opt_string(a: &Option<String>, b: &Option<String>) -> (r: bool)
    ensures
        r == (a.deep_view() == b.deep_view()),
{
    match (a, b) {
        (Some(x), Some(y)) => *x == *y,
        (None, None) => true,
        _ => false,
    }
}

pub fn same_strings(a: &Vec<String>, b: &Vec<String>) -> (r: bool)
    ensures
        r == (a.deep_view() == b.deep_view()),
{
    if a.len() != b.len() {
        assert(a.deep_view().len() != b.deep_view().len());
        return false;
    }
    let mut i: usize = 0;
    while i < a.len()
        invariant
            i <= a@.len(),
            a@.len() == b@.len(),
            forall|j: int| 0 <= j < i ==> #[trigger] a@[j]@ == b@[j]@,
        decreases a@.len() - i,
    {
        if a[i] != b[i] {
            assert(a.deep_view()[i as int] != b.deep_view()[i as int]);
            return false;
        }
        i = i + 1;
    }
    assert(a.deep_view() =~= b.deep_view());
    true
}

pub fn same_opt_strings(a: &Option<Vec<String>>, b: &Option<Vec<String>>) -> (r: bool)
    ensures
        r == (a.deep_view() == b.deep_view()),
{
    match (a, b) {
        (Some(x), Some(y)) => same_strings(x, y),
        (None, None) => true,
        _ => false,
    }
}

fn same_opt_version(a: &Option<Version>, b: &Option<Version>) -> (r: bool)
    ensures
        r == (opt_version_view(*a) == opt_version_view(*b)),
{
    match (a, b) {
        (Some(x), Some(y)) => x.same(y),
        (None, None) => true,
        _ => false,
    }
}

fn dup_opt_version(a: &Option<Version>) -> (r: Option<Version>)
    ensures
        opt_version_view(r) == opt_version_view(*a),
{
    match a {
        Some(v) => Some(v.duplicate()),
        None => None,
    }
}

impl CargoInstallDependencyDetail {
    /// A record that declares a version and nothing else.
    pub fn from_version(version: Version) -> (r: CargoInstallDependencyDetail)
        ensures
            r@ == (DetailView {
                bins: None,
                version: Some(version@),
                registry: None,
                index: None,
                path: None,
                absolute_path: None,
                git: None,
                branch: None,
                tag: None,
                rev: None,
                features: None,
                no_default_features: None,
                all_features: None,
            }),
    {
        CargoInstallDependencyDetail {
            bins: None,
            version: Some(version),
            registry: None,
            index: None,
            path: None,
            absolute_path: None,
            git: None,
            branch: None,
            tag: None,
            rev: None,
            features: None,
            no_default_features: None,
            all_features: None,
        }
    }

    pub fn duplicate(&self) -> (r: CargoInstallDependencyDetail)
        ensures
            r@ == self@,
    {
        CargoInstallDependencyDetail {
            bins: dup_opt_strings(&self.bins),
            version: dup_opt_version(&self.version),
            registry: dup_opt_string(&self.registry),
            index: dup_opt_string(&self.index),
            path: dup_opt_string(&self.path),
            absolute_path: dup_opt_string(&self.absolute_path),
            git: dup_opt_string(&self.git),
            branch: dup_opt_string(&self.branch),
            tag: dup_opt_string(&self.tag),
            rev: dup_opt_string(&self.rev),
            features: dup_opt_strings(&self.features),
            no_default_features: self.no_default_features,
            all_features: self.all_features,
        }
    }

    /// Agreement on every declared field (the absolute path is derived and left out).
    pub fn declares_same(&self, other: &CargoInstallDependencyDetail) -> (r: bool)
        ensures
            r == (self@.declared() == other@.declared()),
    {
        let r = same_opt_strings(&self.bins, &other.bins) && same_opt_version(
            &self.version,
            &other.version,
        ) && same_opt_string(&self.registry, &other.registry) && same_opt_string(
            &self.index,
            &other.index,
        ) && same_opt_string(&self.path, &other.path) && same_opt_string(&self.git, &other.git)
            && same_opt_string(&self.branch, &other.branch) && same_opt_string(
            &self.tag,
            &other.tag,
        ) && same_opt_string(&self.rev, &other.rev) && same_opt_strings(
            &self.features,
            &other.features,
        ) && self.no_default_features == other.no_default_features && self.all_features
            == other.all_features;
        r
    }

    pub fn validate(&self) -> (r: bool)
        ensures
            r == self@.is_valid(),
    {
        self.version.is_some() || self.path.is_some() || self.git.is_some()
    }

    pub fn fix(self, manifest_dir: &str) -> (r: CargoInstallDependencyDetail)
        ensures
            DependencyView::Detailed(r@) == DependencyView::Detailed(self@).fixed(manifest_dir@),
    {
        let mut d = self;
        match &d.path {
            Some(p) => {
                let a = join_path(manifest_dir, p.as_str());
                d.absolute_path = Some(a);
            },
            None => {},
        }
        d
    }
}

impl CargoInstallDependency {
    pub fn duplicate(&self) -> (r: CargoInstallDependency)
        ensures
            r@ == self@,
    {
        match self {
            CargoInstallDependency::Simple(v) => CargoInstallDependency::Simple(v.duplicate()),
            CargoInstallDependency::Detailed(d) => CargoInstallDependency::Detailed(d.duplicate()),
        }
    }

    pub fn declares_same(&self, other: &CargoInstallDependency) -> (r: bool)
        ensures
            r == same_declaration(self@, other@),
    {
        match (self, other) {
            (CargoInstallDependency::Simple(x), CargoInstallDependency::Simple(y)) => x.same(y),
            (CargoInstallDependency::Detailed(x), CargoInstallDependency::Detailed(y)) => {
                x.declares_same(y)
            },
            _ => false,
        }
    }

    /// Whether the declaration names a source (always so for a bare version).
    pub fn validate(&self) -> (r: bool)
        ensures
            r == self@.is_valid(),
    {
        match self {
            CargoInstallDependency::Simple(_) => true,
            CargoInstallDependency::Detailed(d) => d.validate(),
        }
    }

    pub fn is_path_backed(&self) -> (r: bool)
        ensures
            r == self@.is_path_backed(),
    {
        match self {
            CargoInstallDependency::Simple(_) => false,
            CargoInstallDependency::Detailed(d) => d.path.is_some(),
        }
    }

    /// Resolves a relative `path` against the manifest's directory.
    pub fn fix(self, manifest_dir: &str) -> (r: CargoInstallDependency)
        ensures
            r@ == self@.fixed(manifest_dir@),
    {
        match self {
            CargoInstallDependency::Simple(v) => CargoInstallDependency::Simple(v),
            CargoInstallDependency::Detailed(d) => CargoInstallDependency::Detailed(d.fix(manifest_dir)),
        }
    }
}

} // verus!
