use isobin::dependency::{CargoInstallDependency, CargoInstallDependencyDetail};
use isobin::manifest::{CargoManifest, IsobinManifest, IsobinManifestError, SpecifiedTarget};
use isobin::provider::ProviderKind;
use isobin::version::Version;

fn simple(major: u64, minor: u64, patch: u64) -> CargoInstallDependency {
    CargoInstallDependency::Simple(Version::new(major, minor, patch))
}

fn manifest(entries: Vec<(&str, CargoInstallDependency)>) -> IsobinManifest {
    IsobinManifest::new(CargoManifest::new(entries.into_iter().map(|(n, d)| (n.to_string(), d)).collect()))
}

fn names(m: &IsobinManifest) -> Vec<String> {
    let mut v: Vec<String> = m.cargo().dependencies().iter().map(|(n, _)| n.clone()).collect();
    v.sort();
    v
}

fn version_of(m: &IsobinManifest, name: &str) -> Option<String> {
    match m.cargo().get(&name.to_string()) {
        Some(CargoInstallDependency::Simple(v)) => Some(v.text()),
        _ => None,
    }
}

fn path_dep(path: &str) -> CargoInstallDependency {
    let mut d = CargoInstallDependencyDetail::from_version(Version::new(0, 1, 0));
    d.version = None;
    d.path = Some(path.to_string());
    CargoInstallDependency::Detailed(d)
}

#[test]
fn later_entry_wins_on_construction() {
    let m = manifest(vec![("a", simple(1, 0, 0)), ("a", simple(2, 0, 0))]);
    assert_eq!(names(&m), vec!["a"]);
    assert_eq!(version_of(&m, "a"), Some("2.0.0".to_string()));
}

#[test]
fn filter_by_name_and_provider() {
    let m = manifest(vec![("a", simple(1, 0, 0)), ("b", simple(1, 0, 0)), ("c", simple(1, 0, 0))]);
    let targets = vec![
        SpecifiedTarget::new(None, "a".to_string()),
        SpecifiedTarget::new(Some(ProviderKind::Cargo), "c".to_string()),
        SpecifiedTarget::new(None, "missing".to_string()),
    ];
    assert_eq!(names(&m.filter_target(&targets)), vec!["a", "c"]);
    assert!(m.filter_target(&vec![]).is_empty());
}

#[test]
fn merge_overlay_wins() {
    let base = manifest(vec![("a", simple(1, 0, 0)), ("b", simple(1, 0, 0))]);
    let overlay = manifest(vec![("b", simple(2, 0, 0)), ("c", simple(3, 0, 0))]);
    let merged = base.merge(&overlay);
    assert_eq!(names(&merged), vec!["a", "b", "c"]);
    assert_eq!(version_of(&merged, "b"), Some("2.0.0".to_string()));
}

#[test]
fn remove_by_name() {
    let base = manifest(vec![("a", simple(1, 0, 0)), ("b", simple(1, 0, 0))]);
    let gone = manifest(vec![("b", simple(9, 0, 0)), ("z", simple(1, 0, 0))]);
    assert_eq!(names(&base.remove_targets(&gone)), vec!["a"]);
}

#[test]
fn diff_classes_are_complete_and_disjoint() {
    let m = manifest(vec![("new", simple(1, 0, 0)), ("same", simple(1, 0, 0)), ("changed", simple(2, 0, 0))]);
    let c = manifest(vec![("same", simple(1, 0, 0)), ("changed", simple(1, 0, 0)), ("old", simple(1, 0, 0))]);
    let install = IsobinManifest::get_need_install_dependency_manifest(&m, &c, &vec![]);
    let uninstall = IsobinManifest::get_need_uninstall_dependency_manifest(&m, &c);
    assert_eq!(names(&install), vec!["changed", "new"]);
    assert_eq!(names(&uninstall), vec!["old"]);
    let kept: Vec<String> = names(&m).into_iter().filter(|n| !install.exists_name(n)).collect();
    assert_eq!(kept, vec!["same"]);
}

#[test]
fn merge_then_remove_uninstalled_is_the_manifest() {
    let m = manifest(vec![("a", simple(2, 0, 0)), ("b", simple(1, 0, 0))]);
    let c = manifest(vec![("a", simple(1, 0, 0)), ("x", simple(1, 0, 0))]);
    let result = c.merge(&m).remove_targets(&IsobinManifest::get_need_uninstall_dependency_manifest(&m, &c));
    assert_eq!(names(&result), vec!["a", "b"]);
    assert_eq!(version_of(&result, "a"), Some("2.0.0".to_string()));
}

#[test]
fn second_install_finds_nothing() {
    let m = manifest(vec![("a", simple(1, 0, 0)), ("p", path_dep("tools/p"))]);
    let c = IsobinManifest::empty().merge(&m);
    assert!(IsobinManifest::get_need_install_dependency_manifest(&m, &c, &vec![]).is_empty());
    assert_eq!(names(&c.merge(&m)), names(&c));
}

#[test]
fn path_tool_reinstalled_only_on_drift() {
    let m = manifest(vec![("p", path_dep("tools/p")), ("v", simple(1, 0, 0))]);
    let c = manifest(vec![("p", path_dep("tools/p")), ("v", simple(1, 0, 0))]);
    assert!(IsobinManifest::get_need_install_dependency_manifest(&m, &c, &vec![]).is_empty());
    let drift = vec!["p".to_string(), "v".to_string()];
    assert_eq!(names(&IsobinManifest::get_need_install_dependency_manifest(&m, &c, &drift)), vec!["p"]);
    assert!(m.detect_difference(&c, ProviderKind::Cargo, &"p".to_string(), &drift));
    assert!(!m.detect_difference(&c, ProviderKind::Cargo, &"v".to_string(), &drift));
}

#[test]
fn absolute_path_is_not_part_of_the_declaration() {
    let fixed = manifest(vec![("p", path_dep("tools/p"))]).fix("/project");
    let cached = manifest(vec![("p", path_dep("tools/p"))]);
    assert!(IsobinManifest::get_need_install_dependency_manifest(&fixed, &cached, &vec![]).is_empty());
    match fixed.cargo().get(&"p".to_string()) {
        Some(CargoInstallDependency::Detailed(d)) => assert_eq!(d.absolute_path.as_deref(), Some("/project/tools/p")),
        _ => panic!("expected a detailed record"),
    }
}

#[test]
fn simple_differs_from_detailed_with_same_version() {
    let m = manifest(vec![("a", CargoInstallDependency::Detailed(CargoInstallDependencyDetail::from_version(Version::new(1, 0, 0))))]);
    let c = manifest(vec![("a", simple(1, 0, 0))]);
    assert_eq!(names(&IsobinManifest::get_need_install_dependency_manifest(&m, &c, &vec![])), vec!["a"]);
}

#[test]
fn features_change_triggers_install() {
    let mut with = CargoInstallDependencyDetail::from_version(Version::new(1, 0, 0));
    with.features = Some(vec!["x".to_string()]);
    let m = manifest(vec![("a", CargoInstallDependency::Detailed(with))]);
    let c = manifest(vec![("a", CargoInstallDependency::Detailed(CargoInstallDependencyDetail::from_version(Version::new(1, 0, 0))))]);
    assert_eq!(names(&IsobinManifest::get_need_install_dependency_manifest(&m, &c, &vec![])), vec!["a"]);
}

#[test]
fn validate_lists_each_sourceless_tool() {
    let mut empty = CargoInstallDependencyDetail::from_version(Version::new(1, 0, 0));
    empty.version = None;
    let mut git = empty.clone();
    git.git = Some("https://example.com/g.git".to_string());
    let m = manifest(vec![
        ("ok", simple(1, 0, 0)),
        ("bad1", CargoInstallDependency::Detailed(empty.clone())),
        ("git", CargoInstallDependency::Detailed(git)),
        ("bad2", CargoInstallDependency::Detailed(empty)),
    ]);
    match m.validate() {
        Err(IsobinManifestError::MultiValidate(errs)) => {
            let mut bad: Vec<String> = errs
                .iter()
                .map(|e| match e {
                    IsobinManifestError::Validate { provider, name } => {
                        assert_eq!(*provider, ProviderKind::Cargo);
                        name.clone()
                    },
                    other => panic!("unexpected {other:?}"),
                })
                .collect();
            bad.sort();
            assert_eq!(bad, vec!["bad1", "bad2"]);
        },
        other => panic!("unexpected {other:?}"),
    }
    assert!(manifest(vec![("ok", simple(1, 0, 0)), ("p", path_dep("x"))]).validate().is_ok());
    assert!(IsobinManifest::empty().validate().is_ok());
}

#[test]
fn path_backed_roots_prefer_resolved_path() {
    let m = manifest(vec![("p", path_dep("tools/p")), ("v", simple(1, 0, 0))]).fix("/project");
    assert_eq!(m.path_backed_roots(), vec![("p".to_string(), "/project/tools/p".to_string())]);
    let unfixed = manifest(vec![("q", path_dep("q"))]);
    assert_eq!(unfixed.path_backed_roots(), vec![("q".to_string(), "q".to_string())]);
}
