//! The cargo provider's decisions: the arguments of `cargo install` and the
//! one-line description of a target.
use vstd::prelude::*;
use crate::dependency::{
    joined_path, join_path, CargoInstallDependency, CargoInstallDependencyDetail, DependencyView, DetailView,
};
use crate::provider::{MultiInstallMode, ProviderKind, TargetMode};
use crate::text::push_str;
use crate::version::version_text;

verus! {

/// `[flag, value]` where the value is present.
pub open spec fn opt_flag(flag: Seq<char>, v: Option<Seq<char>>) -> Seq<Seq<char>> {
    match v {
        Some(x) => seq![flag, x],
        None => Seq::empty(),
    }
}

/// `--bin b` for each requested executable.
pub open spec fn bin_flags(bins: Seq<Seq<char>>) -> Seq<Seq<char>>
    decreases bins.len(),
{
    if bins.len() == 0 {
        Seq::empty()
    } else {
        bin_flags(bins.drop_last()) + seq!["--bin"@, bins.last()]
    }
}

/// The items joined by `sep`.
pub open spec fn joined(items: Seq<Seq<char>>, sep: Seq<char>) -> Seq<char>
    decreases items.len(),
{
    if items.len() == 0 {
        Seq::empty()
    } else if items.len() == 1 {
        items[0]
    } else {
        joined(items.drop_last(), sep) + sep + items.last()
    }
}

pub open spec fn opt_version_text(d: DetailView) -> Option<Seq<char>> {
    match d.version {
        Some(v) => Some(version_text(v)),
        None => None,
    }
}

/// The arguments that select what `cargo install` builds, in a fixed order.
pub open spec fn detail_args(d: DetailView) -> Seq<Seq<char>> {
    opt_flag("--version"@, opt_version_text(d)) + opt_flag("--registry"@, d.registry) + opt_flag(
        "--index"@,
        d.index,
    ) + opt_flag("--path"@, d.absolute_path) + opt_flag("--git"@, d.git) + opt_flag("--branch"@, d.branch)
        + opt_flag("--tag"@, d.tag) + opt_flag("--rev"@, d.rev) + match d.bins {
        Some(b) => bin_flags(b),
        None => Seq::empty(),
    } + match d.features {
        Some(f) => seq!["--features"@, joined(f, ","@)],
        None => Seq::empty(),
    } + if d.all_features == Some(true) {
        seq!["--all-features"@]
    } else {
        Seq::empty()
    }
}

/// A bare version stands for a record with that version alone.
pub open spec fn dependency_args(d: DependencyView) -> Seq<Seq<char>> {
    match d {
        DependencyView::Simple(v) => opt_flag("--version"@, Some(version_text(v))),
        DependencyView::Detailed(d) => detail_args(d),
    }
}

/// The whole command line after `cargo`: install `name` under `root`.
pub open spec fn install_args_spec(root: Seq<char>, name: Seq<char>, d: DependencyView) -> Seq<Seq<char>> {
    seq!["--quiet"@, "install"@, "--force"@, "--root"@, root] + dependency_args(d) + seq![name]
}

fn push_opt_flag(args: &mut Vec<String>, flag: &str, v: &Option<String>)
    ensures
        final(args)@.map_values(|s: String| s@) == old(args)@.map_values(|s: String| s@) + opt_flag(flag@, v.deep_view()),
{
    let ghost before = args@;
    match v {
        Some(x) => {
            args.push(String::from_str(flag));
            args.push(x.clone());
        },
        None => {},
    }
    assert(args@.map_values(|s: String| s@) =~= before.map_values(|s: String| s@) + opt_flag(flag@, v.deep_view()));
}

/// The items joined by `sep`.
pub fn join_strings(items: &Vec<String>, sep: &str) -> (r: String)
    ensures
        r@ == joined(items.deep_view(), sep@),
{
    let mut r = String::new();
    let mut i: usize = 0;
    while i < items.len()
        invariant
            i <= items@.len(),
            r@ == joined(items.deep_view().subrange(0, i as int), sep@),
        decreases items@.len() - i,
    {
        let ghost before = r@;
        if i > 0 {
            push_str(&mut r, sep);
        }
        push_str(&mut r, items[i].as_str());
        proof {
            let v = items.deep_view();
            assert(v.subrange(0, i + 1).drop_last() =~= v.subrange(0, i as int));
            if i == 0 {
                assert(v.subrange(0, 1) =~= seq![v[0]]);
            }
        }
        i = i + 1;
    }
    assert(items.deep_view().subrange(0, items@.len() as int) =~= items.deep_view());
    r
}

/// Runs `cargo install` for one provider's tools inside a workspace.
pub struct CargoCoreInstaller {
    /// The directory that holds one install root per tool.
    pub cargo_home_dir: String,
}

impl CargoCoreInstaller {
    pub fn new(cargo_home_dir: String) -> (r: CargoCoreInstaller)
        ensures
            r.cargo_home_dir == cargo_home_dir,
    {
        CargoCoreInstaller { cargo_home_dir }
    }

    pub fn provider_kind(&self) -> (r: ProviderKind)
        ensures
            r == ProviderKind::Cargo,
    {
        ProviderKind::Cargo
    }

    pub fn multi_install_mode(&self) -> (r: MultiInstallMode)
        ensures
            r == MultiInstallMode::Parallel,
    {
        MultiInstallMode::Parallel
    }

    /// The arguments that select what `cargo install` builds for `dependency`.
    pub fn dependency_to_args(dependency: &CargoInstallDependencyDetail) -> (r: Vec<String>)
        ensures
            r@.map_values(|s: String| s@) == detail_args(dependency@),
    {
        let d = dependency;
        let mut args: Vec<String> = Vec::new();
        let version = match &d.version {
            Some(v) => Some(v.text()),
            None => None,
        };
        assert(version.deep_view() == opt_version_text(d@));
        push_opt_flag(&mut args, "--version", &version);
        push_opt_flag(&mut args, "--registry", &d.registry);
        push_opt_flag(&mut args, "--index", &d.index);
        push_opt_flag(&mut args, "--path", &d.absolute_path);
        push_opt_flag(&mut args, "--git", &d.git);
        push_opt_flag(&mut args, "--branch", &d.branch);
        push_opt_flag(&mut args, "--tag", &d.tag);
        push_opt_flag(&mut args, "--rev", &d.rev);
        let ghost head = args@.map_values(|s: String| s@);
        match &d.bins {
            Some(bins) => {
                let mut i: usize = 0;
                while i < bins.len()
                    invariant
                        i <= bins@.len(),
                        args@.map_values(|s: String| s@) == head + bin_flags(bins.deep_view().subrange(0, i as int)),
                    decreases bins@.len() - i,
                {
                    let ghost before = args@;
                    args.push(String::from_str("--bin"));
                    args.push(bins[i].clone());
                    proof {
                        let v = bins.deep_view();
                        assert(v.subrange(0, i + 1).drop_last() =~= v.subrange(0, i as int));
                        assert(args@.map_values(|s: String| s@) =~= before.map_values(|s: String| s@) + seq!["--bin"@, v[i as int]]);
                    }
                    i = i + 1;
                }
                assert(bins.deep_view().subrange(0, bins@.len() as int) =~= bins.deep_view());
            },
            None => {
                assert(args@.map_values(|s: String| s@) =~= head + Seq::<Seq<char>>::empty());
            },
        }
        let ghost with_bins = args@.map_values(|s: String| s@);
        match &d.features {
            Some(features) => {
                args.push(String::from_str("--features"));
                args.push(join_strings(features, ","));
                assert(args@.map_values(|s: String| s@) =~= with_bins + seq!["--features"@, joined(features.deep_view(), ","@)]);
            },
            None => {
                assert(args@.map_values(|s: String| s@) =~= with_bins + Seq::<Seq<char>>::empty());
            },
        }
        let ghost with_features = args@.map_values(|s: String| s@);
        if d.all_features == Some(true) {
            args.push(String::from_str("--all-features"));
            assert(args@.map_values(|s: String| s@) =~= with_features + seq!["--all-features"@]);
        } else {
            assert(args@.map_values(|s: String| s@) =~= with_features + Seq::<Seq<char>>::empty());
        }
        args
    }

    /// The whole command line after `cargo` that installs tool `name` into
    /// its own root under the cargo home.
    pub fn install_args(&self, name: &String, dependency: &CargoInstallDependency) -> (r: Vec<String>)
        ensures
            r@.map_values(|s: String| s@) == install_args_spec(
                joined_path(self.cargo_home_dir@, name@),
                name@,
                dependency@,
            ),
    {
        let root = join_path(self.cargo_home_dir.as_str(), name.as_str());
        let mut args: Vec<String> = Vec::new();
        args.push(String::from_str("--quiet"));
        args.push(String::from_str("install"));
        args.push(String::from_str("--force"));
        args.push(String::from_str("--root"));
        args.push(root);
        let ghost head = args@.map_values(|s: String| s@);
        assert(head =~= seq!["--quiet"@, "install"@, "--force"@, "--root"@, joined_path(self.cargo_home_dir@, name@)]);
        let mut rest = match dependency {
            CargoInstallDependency::Simple(v) => {
                let d = CargoInstallDependencyDetail::from_version(v.duplicate());
                CargoCoreInstaller::dependency_to_args(&d)
            },
            CargoInstallDependency::Detailed(d) => CargoCoreInstaller::dependency_to_args(d),
        };
        let ghost mid = rest@.map_values(|s: String| s@);
        args.append(&mut rest);
        args.push(name.clone());
        assert(args@.map_values(|s: String| s@) =~= head + mid + seq![name@]);
        args
    }
}

/// One tool as the cargo provider handles it.
#[derive(Clone, Debug)]
pub struct CargoInstallTarget {
    pub name: String,
    pub install_dependency: CargoInstallDependency,
    pub mode: TargetMode,
}

/// `git rev`, `git version` or `git`; else the version, else the path.
pub open spec fn summary_spec(d: DependencyView) -> Seq<char> {
    match d {
        DependencyView::Simple(v) => version_text(v),
        DependencyView::Detailed(d) => match d.git {
            Some(g) => match d.rev {
                Some(r) => g + " "@ + r,
                None => match d.version {
                    Some(v) => g + " "@ + version_text(v),
                    None => g,
                },
            },
            None => match d.version {
                Some(v) => version_text(v),
                None => match d.path {
                    Some(p) => p,
                    None => Seq::empty(),
                },
            },
        },
    }
}

fn spaced(a: &String, b: &String) -> (r: String)
    ensures
        r@ == a@ + " "@ + b@,
{
    let mut s = a.clone();
    push_str(&mut s, " ");
    push_str(&mut s, b.as_str());
    s
}

impl CargoInstallTarget {
    pub fn new(name: String, install_dependency: CargoInstallDependency, mode: TargetMode) -> (r: CargoInstallTarget)
        ensures
            r.name == name,
            r.install_dependency@ == install_dependency@,
            r.mode == mode,
    {
        CargoInstallTarget { name, install_dependency, mode }
    }

    pub fn provider_kind(&self) -> (r: ProviderKind)
        ensures
            r == ProviderKind::Cargo,
    {
        ProviderKind::Cargo
    }

    /// A one-line description of what is installed.
    pub fn summary(&self) -> (r: String)
        ensures
            r@ == summary_spec(self.install_dependency@),
    {
        match &self.install_dependency {
            CargoInstallDependency::Simple(v) => v.text(),
            CargoInstallDependency::Detailed(d) => match &d.git {
                Some(g) => match &d.rev {
                    Some(r) => spaced(g, r),
                    None => match &d.version {
                        Some(v) => spaced(g, &v.text()),
                        None => g.clone(),
                    },
                },
                None => match &d.version {
                    Some(v) => v.text(),
                    None => match &d.path {
                        Some(p) => p.clone(),
                        None => String::new(),
                    },
                },
            },
        }
    }
}

} // verus!
