use isobin::bin_map::{rebuild_bin_map, BinDependency, BinMap};
use isobin::cargo::CargoCoreInstaller;
use isobin::dependency::CargoInstallDependency;
use isobin::install::{classify_targets, collect_results, names_in_mode, plan_install, plan_sync, InstallMode, InstallServiceError};
use isobin::manifest::{CargoManifest, IsobinManifest};
use isobin::provider::{ProviderKind, TargetMode};
use isobin::run::{decide_run, run_exit_code, RunDecision, RunServiceError};
use isobin::version::Version;

fn simple(major: u64, minor: u64, patch: u64) -> CargoInstallDependency {
    CargoInstallDependency::Simple(Version::new(major, minor, patch))
}

fn manifest(entries: Vec<(&str, CargoInstallDependency)>) -> IsobinManifest {
    IsobinManifest::new(CargoManifest::new(entries.into_iter().map(|(n, d)| (n.to_string(), d)).collect()))
}

fn version_of(m: &IsobinManifest, name: &str) -> Option<String> {
    match m.cargo().get(&name.to_string()) {
        Some(CargoInstallDependency::Simple(v)) => Some(v.text()),
        _ => None,
    }
}

fn mode_of(plan_targets: &Vec<(String, isobin::install::CargoTargetDependency)>, name: &str) -> Option<TargetMode> {
    plan_targets.iter().find(|(n, _)| n == name).map(|(_, t)| t.mode)
}

fn strings(v: &[&str]) -> Vec<String> {
    v.iter().map(|s| s.to_string()).collect()
}

#[test]
fn fresh_install_single_cargo_tool() {
    let declared = manifest(vec![("ripgrep", simple(14, 1, 0))]);
    let cache = IsobinManifest::empty();
    let plan = plan_install(&declared, &cache, &InstallMode::All, false, &vec![]);
    assert_eq!(plan.targets.len(), 1);
    assert_eq!(mode_of(&plan.targets, "ripgrep"), Some(TargetMode::Install));
    assert!(plan.install.exists_name(&"ripgrep".to_string()));
    assert_eq!(version_of(&plan.save, "ripgrep"), Some("14.1.0".to_string()));
    assert_eq!(plan.save.cargo().dependencies().len(), 1);

    let installer = CargoCoreInstaller::new("/ws/staging/base/home/cargo".to_string());
    let dep = plan.specified.cargo().get(&"ripgrep".to_string()).unwrap();
    let args = installer.install_args(&"ripgrep".to_string(), dep);
    assert_eq!(
        args,
        strings(&["--quiet", "install", "--force", "--root", "/ws/staging/base/home/cargo/ripgrep", "--version", "14.1.0", "ripgrep"])
    );

    let candidates = vec![(
        "rg".to_string(),
        BinDependency::new(ProviderKind::Cargo, "ripgrep".to_string(), "/ws/staging/base/home/cargo/ripgrep/bin/rg".to_string()),
    )];
    let map = rebuild_bin_map(&BinMap::new(), &vec![], &candidates).unwrap();
    let entry = map.get(&"rg".to_string()).unwrap();
    assert_eq!(entry.provider_kind, ProviderKind::Cargo);
    assert_eq!(entry.name, "ripgrep");
    assert_eq!(map.bin_dependencies().len(), 1);
}

#[test]
fn no_op_reinstall_keeps_everything() {
    let declared = manifest(vec![("ripgrep", simple(14, 1, 0))]);
    let first = plan_install(&declared, &IsobinManifest::empty(), &InstallMode::All, false, &vec![]);
    let second = plan_install(&declared, &first.save, &InstallMode::All, false, &vec![]);
    assert!(second.install.is_empty());
    assert_eq!(mode_of(&second.targets, "ripgrep"), Some(TargetMode::AlreadyInstalled));
    assert!(names_in_mode(&second.targets, TargetMode::Install).is_empty());
    assert_eq!(version_of(&second.save, "ripgrep"), Some("14.1.0".to_string()));

    let mut map = BinMap::new();
    map.insert("rg".to_string(), BinDependency::new(ProviderKind::Cargo, "ripgrep".to_string(), "bin/rg".to_string()));
    let rebuilt = rebuild_bin_map(&map, &strings(&["rg"]), &vec![]).unwrap();
    assert_eq!(rebuilt.bin_dependencies().len(), 1);
    assert_eq!(rebuilt.get(&"rg".to_string()).unwrap().bin_file_name, "bin/rg");
}

#[test]
fn version_bump_reinstalls() {
    let first = plan_install(&manifest(vec![("ripgrep", simple(14, 1, 0))]), &IsobinManifest::empty(), &InstallMode::All, false, &vec![]);
    let bumped = manifest(vec![("ripgrep", simple(14, 1, 1))]);
    let plan = plan_install(&bumped, &first.save, &InstallMode::All, false, &vec![]);
    assert_eq!(mode_of(&plan.targets, "ripgrep"), Some(TargetMode::Install));
    let installer = CargoCoreInstaller::new("/h".to_string());
    let args = installer.install_args(&"ripgrep".to_string(), plan.install.cargo().get(&"ripgrep".to_string()).unwrap());
    assert_eq!(&args[5..], &strings(&["--version", "14.1.1", "ripgrep"])[..]);
    assert_eq!(version_of(&plan.save, "ripgrep"), Some("14.1.1".to_string()));
}

#[test]
fn duplicate_bin_aborts() {
    let candidates = vec![
        ("foo".to_string(), BinDependency::new(ProviderKind::Cargo, "a".to_string(), "a/bin/foo".to_string())),
        ("foo".to_string(), BinDependency::new(ProviderKind::Cargo, "b".to_string(), "b/bin/foo".to_string())),
    ];
    let mut map = BinMap::new();
    map.insert("old".to_string(), BinDependency::new(ProviderKind::Cargo, "c".to_string(), "c/bin/old".to_string()));
    match rebuild_bin_map(&map, &strings(&["old"]), &candidates) {
        Err(InstallServiceError::DuplicateBin(dups)) => assert_eq!(dups, strings(&["foo"])),
        _ => panic!("duplicate bins were accepted"),
    }
    assert_eq!(map.bin_dependencies().len(), 1);
}

#[test]
fn duplicate_names_listed_once() {
    let dep = |t: &str| BinDependency::new(ProviderKind::Cargo, t.to_string(), format!("{t}/bin/x"));
    let candidates = vec![
        ("x".to_string(), dep("a")),
        ("y".to_string(), dep("a")),
        ("x".to_string(), dep("b")),
        ("x".to_string(), dep("c")),
        ("y".to_string(), dep("d")),
    ];
    match rebuild_bin_map(&BinMap::new(), &vec![], &candidates) {
        Err(InstallServiceError::DuplicateBin(dups)) => assert_eq!(dups, strings(&["x", "y"])),
        _ => panic!("duplicate bins were accepted"),
    }
}

#[test]
fn partial_failure_aggregates() {
    let results = vec![
        Ok(()),
        Err(InstallServiceError::Install {
            provider: ProviderKind::Cargo,
            name: "broken".to_string(),
            error_message: "error: could not compile".to_string(),
        }),
    ];
    match collect_results(results) {
        Err(InstallServiceError::MultiInstall(errs)) => {
            assert_eq!(errs.len(), 1);
            match &errs[0] {
                InstallServiceError::Install { name, error_message, .. } => {
                    assert_eq!(name, "broken");
                    assert_eq!(error_message, "error: could not compile");
                },
                other => panic!("unexpected error {other:?}"),
            }
        },
        other => panic!("unexpected result {other:?}"),
    }
    assert!(collect_results(vec![Ok(()), Ok(())]).is_ok());
    assert!(collect_results(vec![]).is_ok());
}

#[test]
fn sync_removes_a_tool() {
    let cache = manifest(vec![("a", simple(1, 0, 0)), ("b", simple(2, 0, 0))]);
    let declared = manifest(vec![("a", simple(1, 0, 0))]);
    let plan = plan_sync(&declared, &cache, false, &vec![]);
    assert_eq!(mode_of(&plan.targets, "a"), Some(TargetMode::AlreadyInstalled));
    assert_eq!(mode_of(&plan.targets, "b"), Some(TargetMode::Uninstall));
    assert!(plan.uninstall.exists_name(&"b".to_string()));
    assert!(plan.save.exists_name(&"a".to_string()));
    assert!(!plan.save.exists_name(&"b".to_string()));
    assert_eq!(plan.save.cargo().dependencies().len(), 1);
    assert_eq!(names_in_mode(&plan.targets, TargetMode::Uninstall), strings(&["b"]));
}

#[test]
fn install_never_uninstalls() {
    let cache = manifest(vec![("a", simple(1, 0, 0)), ("b", simple(2, 0, 0))]);
    let declared = manifest(vec![("a", simple(1, 0, 0))]);
    let plan = plan_install(&declared, &cache, &InstallMode::All, false, &vec![]);
    assert!(plan.uninstall.is_empty());
    assert_eq!(mode_of(&plan.targets, "b"), None);
    assert!(plan.save.exists_name(&"b".to_string()));
}

#[test]
fn run_with_drift_installs_first() {
    let mut map = BinMap::new();
    map.insert("X".to_string(), BinDependency::new(ProviderKind::Cargo, "X".to_string(), "X/bin/X".to_string()));
    let cache = manifest(vec![("X", simple(1, 0, 0))]);
    let declared = manifest(vec![("X", simple(2, 0, 0))]);
    match decide_run(&"X".to_string(), &map, &declared, &cache, &vec![]) {
        Ok(RunDecision::InstallThenRun(t)) => {
            assert_eq!(t.provider_kind, Some(ProviderKind::Cargo));
            assert_eq!(t.name, "X");
            let only = InstallMode::SpecificInstallTargetsOnly { specified_install_targets: vec![t] };
            let plan = plan_install(&declared, &cache, &only, false, &vec![]);
            assert_eq!(mode_of(&plan.targets, "X"), Some(TargetMode::Install));
        },
        other => panic!("unexpected decision {other:?}"),
    }
    assert!(matches!(decide_run(&"X".to_string(), &map, &cache, &cache, &vec![]), Ok(RunDecision::Run)));
    assert_eq!(run_exit_code(Some(3)), 3);
    assert_eq!(run_exit_code(None), 1);
}

#[test]
fn run_of_unknown_bin() {
    let map = BinMap::new();
    let declared = manifest(vec![("tool", simple(1, 0, 0))]);
    match decide_run(&"nope".to_string(), &map, &declared, &declared, &vec![]) {
        Err(RunServiceError::NotFoundBinDependency { bin }) => assert_eq!(bin, "nope"),
        other => panic!("unexpected decision {other:?}"),
    }
    match decide_run(&"tool".to_string(), &map, &declared, &declared, &vec![]) {
        Ok(RunDecision::InstallThenRun(t)) => {
            assert_eq!(t.provider_kind, None);
            assert_eq!(t.name, "tool");
        },
        other => panic!("unexpected decision {other:?}"),
    }
    let mut known = BinMap::new();
    known.insert("gone".to_string(), BinDependency::new(ProviderKind::Cargo, "removed".to_string(), "x".to_string()));
    assert!(matches!(
        decide_run(&"gone".to_string(), &known, &declared, &declared, &vec![]),
        Err(RunServiceError::NotFoundBinDependency { .. })
    ));
}

#[test]
fn force_ignores_cache() {
    let declared = manifest(vec![("a", simple(1, 0, 0))]);
    let plan = plan_install(&declared, &declared, &InstallMode::All, true, &vec![]);
    assert_eq!(mode_of(&plan.targets, "a"), Some(TargetMode::Install));
}

#[test]
fn classification_covers_both_sides() {
    let specified = manifest(vec![("a", simple(1, 0, 0)), ("b", simple(1, 0, 0))]);
    let install = manifest(vec![("a", simple(1, 0, 0))]);
    let uninstall = manifest(vec![("c", simple(3, 0, 0))]);
    let targets = classify_targets(&specified, &install, &uninstall);
    assert_eq!(targets.len(), 3);
    assert_eq!(mode_of(&targets, "a"), Some(TargetMode::Install));
    assert_eq!(mode_of(&targets, "b"), Some(TargetMode::AlreadyInstalled));
    assert_eq!(mode_of(&targets, "c"), Some(TargetMode::Uninstall));
}
