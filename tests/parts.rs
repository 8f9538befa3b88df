use isobin::cargo::{join_strings, CargoCoreInstaller, CargoInstallTarget};
use isobin::commit::{commit_next, commit_start, CommitAction, CommitOutcome, CommitStep};
use isobin::dependency::{CargoInstallDependency, CargoInstallDependencyDetail};
use isobin::error_hint::{summary_of_lines, ErrorHint};
use isobin::file_modified::{has_file_diff, is_excluded_name, is_target_file, FileModifiedCache, FileModifiedCacheMap, FileModifiedCacheSet, FileTime};
use isobin::layout::{bin_map_path, CargoWorkspace, IsobinManifestCache};
use isobin::stages::{next_stage, InstallStage};
use isobin::lifecycle::{commit_event, finish_event, start_event, ProgressEvent, TargetState};
use isobin::manifest::IsobinManifestError;
use isobin::options::{InstallServiceOptionBuilder, RunServiceOptionBuilder, SyncServiceOptionBuilder};
use isobin::install::InstallMode;
use isobin::paths::{get_file_extension, isobin_manifest_dir, kind_of_extension, make_isobin_manifest_paths, search_step, ManifestFileExtensions, SearchStep};
use isobin::provider::{MultiInstallMode, ProviderKind, TargetMode};
use isobin::version::Version;
use isobin::workspace::WorkspacePathMap;

fn strings(v: &[&str]) -> Vec<String> {
    v.iter().map(|s| s.to_string()).collect()
}

#[test]
fn manifest_file_extension_works() {
    assert_eq!(get_file_extension(&"foo.yaml".to_string()).unwrap(), ManifestFileExtensions::Yaml);
    assert_eq!(get_file_extension(&"foo.yml".to_string()).unwrap(), ManifestFileExtensions::Yaml);
    assert_eq!(get_file_extension(&"foo.toml".to_string()).unwrap(), ManifestFileExtensions::Toml);
    assert_eq!(get_file_extension(&"dir/isobin.json".to_string()).unwrap(), ManifestFileExtensions::Json);
}

#[test]
fn manifest_file_extension_error_works() {
    match get_file_extension(&"foo.fm".to_string()) {
        Err(IsobinManifestError::UnknownFileExtension { path, extension }) => {
            assert_eq!(path, "foo.fm");
            assert_eq!(extension, "fm");
        },
        other => panic!("unexpected {other:?}"),
    }
    match get_file_extension(&"foo".to_string()) {
        Err(IsobinManifestError::NothingFileExtension { path }) => assert_eq!(path, "foo"),
        other => panic!("unexpected {other:?}"),
    }
    assert!(matches!(kind_of_extension(&"x".to_string(), Some("TOML".to_string())), Err(IsobinManifestError::UnknownFileExtension { .. })));
}

#[test]
fn manifest_paths_and_search() {
    assert_eq!(
        make_isobin_manifest_paths("/p"),
        strings(&["/p/isobin.toml", "/p/isobin.yaml", "/p/isobin.yml", "/p/isobin.json"])
    );
    assert!(matches!(search_step(vec![]), SearchStep::GoUp));
    match search_step(strings(&["/p/isobin.toml"])) {
        SearchStep::Found(p) => assert_eq!(p, "/p/isobin.toml"),
        other => panic!("unexpected {other:?}"),
    }
    match search_step(strings(&["/p/isobin.toml", "/p/isobin.json"])) {
        SearchStep::Conflict(ps) => assert_eq!(ps, strings(&["/p/isobin.toml", "/p/isobin.json"])),
        other => panic!("unexpected {other:?}"),
    }
    assert_eq!(isobin_manifest_dir(&"/p/isobin.toml".to_string()).unwrap(), "/p");
    assert!(isobin_manifest_dir(&"/".to_string()).is_err());
}

#[test]
fn dependency_args_in_fixed_order() {
    let mut d = CargoInstallDependencyDetail::from_version(Version::new(1, 2, 3));
    d.registry = Some("reg".to_string());
    d.index = Some("idx".to_string());
    d.path = Some("rel".to_string());
    let d = d.fix("/m");
    let mut d = d;
    d.git = Some("g".to_string());
    d.branch = Some("br".to_string());
    d.tag = Some("t".to_string());
    d.rev = Some("r".to_string());
    d.bins = Some(strings(&["one", "two"]));
    d.features = Some(strings(&["f1", "f2", "f3"]));
    d.all_features = Some(true);
    d.no_default_features = Some(true);
    assert_eq!(
        CargoCoreInstaller::dependency_to_args(&d),
        strings(&[
            "--version", "1.2.3", "--registry", "reg", "--index", "idx", "--path", "/m/rel", "--git", "g", "--branch", "br",
            "--tag", "t", "--rev", "r", "--bin", "one", "--bin", "two", "--features", "f1,f2,f3", "--all-features",
        ])
    );
    d.all_features = Some(false);
    d.features = Some(vec![]);
    let args = CargoCoreInstaller::dependency_to_args(&d);
    assert_eq!(&args[args.len() - 2..], &strings(&["--features", ""])[..]);
}

#[test]
fn version_text_with_pre_and_build() {
    let mut v = Version::new(1, 0, 0);
    assert_eq!(v.text(), "1.0.0");
    v.pre = "alpha.1".to_string();
    assert_eq!(v.text(), "1.0.0-alpha.1");
    v.build = "sha.5114f85".to_string();
    assert_eq!(v.text(), "1.0.0-alpha.1+sha.5114f85");
    assert_eq!(Version::new(10, 200, 3000).text(), "10.200.3000");
    assert_eq!(Version::new(u64::MAX, 0, 0).text(), "18446744073709551615.0.0");
}

#[test]
fn join_with_separator() {
    assert_eq!(join_strings(&vec![], ","), "");
    assert_eq!(join_strings(&strings(&["a"]), ","), "a");
    assert_eq!(join_strings(&strings(&["a", "b", "c"]), ", "), "a, b, c");
}

#[test]
fn target_summary() {
    let target = |d: CargoInstallDependency| CargoInstallTarget::new("t".to_string(), d, TargetMode::Install);
    assert_eq!(target(CargoInstallDependency::Simple(Version::new(1, 0, 0))).summary(), "1.0.0");
    let mut d = CargoInstallDependencyDetail::from_version(Version::new(2, 0, 0));
    assert_eq!(target(CargoInstallDependency::Detailed(d.clone())).summary(), "2.0.0");
    d.git = Some("https://g".to_string());
    assert_eq!(target(CargoInstallDependency::Detailed(d.clone())).summary(), "https://g 2.0.0");
    d.rev = Some("abc".to_string());
    assert_eq!(target(CargoInstallDependency::Detailed(d.clone())).summary(), "https://g abc");
    let mut p = CargoInstallDependencyDetail::from_version(Version::new(0, 0, 0));
    p.version = None;
    p.path = Some("local".to_string());
    assert_eq!(target(CargoInstallDependency::Detailed(p.clone())).summary(), "local");
    p.path = None;
    assert_eq!(target(CargoInstallDependency::Detailed(p)).summary(), "");
    assert_eq!(CargoCoreInstaller::new("h".to_string()).multi_install_mode(), MultiInstallMode::Parallel);
    assert_eq!(ProviderKind::Cargo.name(), "cargo");
}

fn snapshot(entries: &[(&str, u64, u64)]) -> FileModifiedCacheMap {
    FileModifiedCacheMap::new(
        entries
            .iter()
            .map(|(p, size, secs)| FileModifiedCacheSet {
                path: p.to_string(),
                cache: FileModifiedCache { size: *size, modified_at: Some(FileTime { secs: *secs, nanos: 0 }) },
            })
            .collect(),
    )
}

#[test]
fn change_detection() {
    let old = snapshot(&[("src/main.rs", 10, 100), ("Cargo.toml", 5, 100)]);
    assert!(!has_file_diff(&snapshot(&[("Cargo.toml", 5, 100), ("src/main.rs", 10, 100)]), &Some(old.clone())));
    assert!(has_file_diff(&snapshot(&[("src/main.rs", 11, 100), ("Cargo.toml", 5, 100)]), &Some(old.clone())));
    assert!(has_file_diff(&snapshot(&[("src/main.rs", 10, 101), ("Cargo.toml", 5, 100)]), &Some(old.clone())));
    assert!(has_file_diff(&snapshot(&[("src/main.rs", 10, 100)]), &Some(old.clone())));
    assert!(has_file_diff(&snapshot(&[("src/main.rs", 10, 100), ("Cargo.toml", 5, 100), ("src/lib.rs", 1, 1)]), &Some(old.clone())));
    assert!(has_file_diff(&old, &None));
    assert!(!has_file_diff(&snapshot(&[]), &Some(snapshot(&[]))));
}

#[test]
fn watched_files() {
    assert!(is_target_file("main.rs"));
    assert!(is_target_file("Cargo.toml"));
    assert!(is_target_file("Cargo.lock"));
    assert!(!is_target_file(".rs"));
    assert!(!is_target_file("notes.md"));
    assert!(!is_target_file("main.rsx"));
    assert!(is_excluded_name(".git"));
    assert!(is_excluded_name("target"));
    assert!(!is_excluded_name("src"));
}

#[test]
fn target_lifecycle() {
    let s = TargetState::New.step(ProgressEvent::PrepareInstall).unwrap();
    assert_eq!(s, TargetState::Waiting);
    let s = s.step(start_event(TargetMode::Install)).unwrap();
    let s = s.step(finish_event(TargetMode::Install, true).unwrap()).unwrap();
    assert_eq!(s.step(commit_event(TargetMode::Install).unwrap()), Some(TargetState::DoneInstall));
    let u = TargetState::Waiting.step(start_event(TargetMode::Uninstall)).unwrap();
    assert_eq!(u.step(finish_event(TargetMode::Uninstall, false).unwrap()), Some(TargetState::FailedUninstall));
    assert_eq!(TargetState::Waiting.step(start_event(TargetMode::AlreadyInstalled)), Some(TargetState::Already));
    assert_eq!(finish_event(TargetMode::AlreadyInstalled, true), None);
    assert_eq!(TargetState::New.step(ProgressEvent::DoneInstall), None);
}

#[test]
fn commit_with_rollback() {
    assert_eq!(commit_start(true), CommitStep::Run(CommitAction::MoveBaseToTrash));
    assert_eq!(commit_start(false), CommitStep::Run(CommitAction::MoveStagingToBase));
    assert_eq!(commit_next(CommitAction::MoveBaseToTrash, true, false), CommitStep::Run(CommitAction::MoveStagingToBase));
    assert_eq!(commit_next(CommitAction::MoveStagingToBase, false, true), CommitStep::Run(CommitAction::MoveTrashToBase));
    assert_eq!(commit_next(CommitAction::MoveTrashToBase, true, true), CommitStep::Finish(CommitOutcome::Failed));
    assert_eq!(commit_next(CommitAction::MoveTrashToBase, false, true), CommitStep::Finish(CommitOutcome::RollbackFailed));
    assert_eq!(commit_next(CommitAction::MoveStagingToBase, true, true), CommitStep::Run(CommitAction::RemoveTrash));
    assert_eq!(commit_next(CommitAction::MoveStagingToBase, true, false), CommitStep::Finish(CommitOutcome::Committed));
    assert_eq!(commit_next(CommitAction::MoveBaseToTrash, false, false), CommitStep::Finish(CommitOutcome::Failed));
}

#[test]
fn error_hint_lines_and_marker() {
    let source = "a = 1\nb = 2\nc: 3\nd = 4\n".to_string();
    let hint = ErrorHint::new(2, 1, source.clone());
    assert_eq!(hint.source_summary(), Some("a = 1\nb = 2\nc: 3".to_string()));
    assert_eq!(hint.hint(), "_^");
    assert_eq!(ErrorHint::new(0, 0, source.clone()).source_summary(), Some("a = 1".to_string()));
    assert_eq!(ErrorHint::new(3, 4, source.clone()).hint(), "____^");
    assert_eq!(ErrorHint::new(4, 0, source).source_summary(), None);
    assert_eq!(summary_of_lines(&strings(&["x", "y"]), 1), "x\ny");
}

#[test]
fn workspace_ids() {
    let mut map = WorkspacePathMap::new();
    let (id, changed) = map.resolve(&"/project".to_string());
    assert!(changed);
    assert_eq!(id.chars().count(), 21);
    assert!(id.chars().all(|c| c.is_ascii_alphanumeric() || c == '_' || c == '-'));
    let (again, changed) = map.resolve(&"/project".to_string());
    assert_eq!(again, id);
    assert!(!changed);
    map.forget(&"/project".to_string());
    assert!(map.pairs().is_empty());
    let restored = WorkspacePathMap::from_pairs(vec![("/a".to_string(), "1".to_string()), ("/a".to_string(), "2".to_string())]);
    assert_eq!(restored.pairs().len(), 1);
    let mut restored = restored;
    assert_eq!(restored.resolve(&"/a".to_string()), ("2".to_string(), false));
}

#[test]
fn option_builders() {
    let o = InstallServiceOptionBuilder::default().quiet(true).force(true).isobin_manifest_path("/p/isobin.toml".to_string()).build();
    assert!(o.quiet() && o.force());
    assert!(matches!(o.mode(), InstallMode::All));
    assert_eq!(o.isobin_manifest_path().as_deref(), Some("/p/isobin.toml"));
    let s = SyncServiceOptionBuilder::default().build();
    assert!(!s.quiet() && !s.force() && s.isobin_manifest_path().is_none());
    let r = RunServiceOptionBuilder::default().bin("rg".to_string()).args(strings(&["--help"])).build();
    assert_eq!(r.bin(), "rg");
    assert_eq!(r.args(), &strings(&["--help"]));
}

#[test]
fn workspace_layout() {
    assert_eq!(IsobinManifestCache::make_cache_path("/w/base"), "/w/base/isobin_cache.v1.json");
    assert_eq!(bin_map_path("/w/base"), "/w/base/bin_map.v1.json");
    let cargo = CargoWorkspace::from_workspace("/w/base/home");
    assert_eq!(cargo.cargo_home_dir, "/w/base/home/cargo");
    assert_eq!(cargo.tool_dir("rg"), "/w/base/home/cargo/rg");
    assert_eq!(cargo.file_modified_cache_path("rg"), "/w/base/home/cargo/rg/file_modifid_cache.v1.json");
}

#[test]
fn install_stages_in_order() {
    let mut stage = InstallStage::Execute;
    let mut seen = vec![stage];
    while stage != InstallStage::Finished {
        stage = next_stage(stage, true);
        seen.push(stage);
    }
    assert_eq!(
        seen,
        vec![
            InstallStage::Execute,
            InstallStage::CollectBins,
            InstallStage::SaveBinMap,
            InstallStage::LinkBins,
            InstallStage::SaveCache,
            InstallStage::Commit,
            InstallStage::Finished
        ]
    );
    assert_eq!(next_stage(InstallStage::CollectBins, false), InstallStage::Abandoned);
    assert_eq!(next_stage(InstallStage::Commit, false), InstallStage::Abandoned);
    assert_eq!(next_stage(InstallStage::Abandoned, true), InstallStage::Abandoned);
}
