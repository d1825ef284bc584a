use kibrarian::config::Config;
use kibrarian::errors::{LibraryError, OpError};
use kibrarian::install::{InstallAction, InstallMachine, InstallState};
use kibrarian::library::Library;
use kibrarian::plan::CopyOp;
use kibrarian::registry::LoadOutcome;
use kibrarian::uninstall::{RemoveOutcome, UninstallAction, UninstallMachine, UninstallState};

fn lib(name: &str) -> Library {
    Library {
        name: name.to_string(),
        id: 42,
        url: format!("https://example.invalid/{}.git", name),
        symbols_path: "library".to_string(),
        footprints_path: "modules".to_string(),
    }
}

fn config() -> Config {
    let mut c = Config::new("/home/u");
    c.libraries("/cfg/libraries.ron");
    c.installed("/cfg/installed.ron");
    c
}

fn registry_outcome(names: &[&str]) -> LoadOutcome {
    LoadOutcome::Parsed(names.iter().map(|n| (n.to_string(), lib(n))).collect())
}

#[test]
fn install_happy_path_runs_all_phases() {
    let c = config();
    let (mut m, a) = InstallMachine::install(&c, true, "/home/u", "mylib");
    assert_eq!(a, InstallAction::LoadRegistry { path: "/cfg/libraries.ron".to_string() });

    let a = m.on_registry_loaded(registry_outcome(&["otherlib", "mylib"]));
    assert_eq!(a, InstallAction::LoadInstalled { path: "/cfg/installed.ron".to_string() });

    let a = m.on_installed_loaded(LoadOutcome::Missing);
    assert_eq!(
        a,
        InstallAction::Fetch {
            url: "https://example.invalid/mylib.git".to_string(),
            dest: "/home/u/.kibrarian/extra/mylib".to_string(),
        }
    );

    let a = m.on_fetched(true);
    assert_eq!(
        a,
        InstallAction::ListDirs {
            symbols: "/home/u/.kibrarian/extra/mylib/library".to_string(),
            footprints: "/home/u/.kibrarian/extra/mylib/modules".to_string(),
        }
    );

    let symbols = vec!["a.lib".to_string(), "b.dcm".to_string(), "c.txt".to_string()];
    let footprints = vec!["d.pretty".to_string(), "e.txt".to_string()];
    let a = m.on_listed(Some((symbols, footprints)));
    assert_eq!(
        a,
        InstallAction::CreateDirs {
            symbols: "/home/u/.kibrarian/libraries/symbols/mylib".to_string(),
            footprints: "/home/u/.kibrarian/libraries/footprints/mylib".to_string(),
        }
    );

    let a = m.on_dirs_created(true);
    assert_eq!(
        a,
        InstallAction::RunCopies {
            ops: vec![
                CopyOp::File {
                    src: "/home/u/.kibrarian/extra/mylib/library/a.lib".to_string(),
                    dest: "/home/u/.kibrarian/libraries/symbols/mylib/a.lib".to_string(),
                },
                CopyOp::File {
                    src: "/home/u/.kibrarian/extra/mylib/library/b.dcm".to_string(),
                    dest: "/home/u/.kibrarian/libraries/symbols/mylib/b.dcm".to_string(),
                },
                CopyOp::DirInside {
                    src: "/home/u/.kibrarian/extra/mylib/modules/d.pretty".to_string(),
                    dest: "/home/u/.kibrarian/libraries/footprints/mylib/d.pretty".to_string(),
                },
            ],
        }
    );

    let a = m.on_copied(true);
    match a {
        InstallAction::Persist { path, record } => {
            assert_eq!(path, "/cfg/installed.ron");
            assert_eq!(record.entries(), &vec![lib("mylib")]);
        }
        other => panic!("expected a persist action, got {:?}", other),
    }

    let a = m.on_persisted(true);
    assert_eq!(a, InstallAction::Finish);
    assert!(matches!(m.state, InstallState::Done));
}

#[test]
fn install_already_installed_fails_before_any_mutation() {
    let c = config();
    let (mut m, _) = InstallMachine::install(&c, true, "/home/u", "mylib");
    m.on_registry_loaded(registry_outcome(&["mylib"]));
    let a = m.on_installed_loaded(registry_outcome(&["mylib"]));
    assert_eq!(
        a,
        InstallAction::Fail { error: OpError::Library(LibraryError::LibraryInstalledError) }
    );
    assert!(matches!(m.state, InstallState::Failed { .. }));
}

#[test]
fn install_unknown_query_fails() {
    let c = config();
    let (mut m, _) = InstallMachine::install(&c, true, "/home/u", "mylib");
    let a = m.on_registry_loaded(registry_outcome(&["otherlib"]));
    assert_eq!(
        a,
        InstallAction::Fail { error: OpError::Library(LibraryError::LibraryNotFoundError) }
    );
}

#[test]
fn install_missing_registry_fails() {
    let c = config();
    let (mut m, _) = InstallMachine::install(&c, true, "/home/u", "mylib");
    let a = m.on_registry_loaded(LoadOutcome::Missing);
    assert_eq!(a, InstallAction::Fail { error: OpError::NotFound });
}

#[test]
fn install_malformed_registry_fails() {
    let c = config();
    let (mut m, _) = InstallMachine::install(&c, true, "/home/u", "mylib");
    let a = m.on_registry_loaded(LoadOutcome::Malformed);
    assert_eq!(a, InstallAction::Fail { error: OpError::ParseError });
}

#[test]
fn install_failed_fetch_fails() {
    let c = config();
    let (mut m, _) = InstallMachine::install(&c, true, "/home/u", "mylib");
    m.on_registry_loaded(registry_outcome(&["mylib"]));
    m.on_installed_loaded(LoadOutcome::Missing);
    let a = m.on_fetched(false);
    assert_eq!(a, InstallAction::Fail { error: OpError::FetchError });
}

#[test]
fn install_missing_subpath_fails() {
    let c = config();
    let (mut m, _) = InstallMachine::install(&c, true, "/home/u", "mylib");
    m.on_registry_loaded(registry_outcome(&["mylib"]));
    m.on_installed_loaded(LoadOutcome::Missing);
    m.on_fetched(true);
    let a = m.on_listed(None);
    assert_eq!(a, InstallAction::Fail { error: OpError::IoError });
}

#[test]
fn install_project_local_destination() {
    let c = config();
    let (mut m, _) = InstallMachine::install(&c, false, "/home/u", "mylib");
    m.on_registry_loaded(registry_outcome(&["mylib"]));
    m.on_installed_loaded(LoadOutcome::Missing);
    m.on_fetched(true);
    let a = m.on_listed(Some((vec![], vec![])));
    assert_eq!(
        a,
        InstallAction::CreateDirs {
            symbols: "./libraries/symbols/mylib".to_string(),
            footprints: "./libraries/footprints/mylib".to_string(),
        }
    );
}

#[test]
fn uninstall_not_installed_fails() {
    let c = config();
    let (mut m, a) = UninstallMachine::uninstall(&c, true, "/home/u", "mylib");
    assert_eq!(a, UninstallAction::LoadInstalled { path: "/cfg/installed.ron".to_string() });
    let a = m.on_installed_loaded(registry_outcome(&["otherlib"]));
    assert_eq!(
        a,
        UninstallAction::Fail { error: OpError::Library(LibraryError::LibraryNotInstalledError) }
    );
}

#[test]
fn uninstall_with_no_record_file_fails_as_not_installed() {
    let c = config();
    let (mut m, _) = UninstallMachine::uninstall(&c, true, "/home/u", "mylib");
    let a = m.on_installed_loaded(LoadOutcome::Missing);
    assert_eq!(
        a,
        UninstallAction::Fail { error: OpError::Library(LibraryError::LibraryNotInstalledError) }
    );
}

#[test]
fn uninstall_malformed_record_fails() {
    let c = config();
    let (mut m, _) = UninstallMachine::uninstall(&c, true, "/home/u", "mylib");
    let a = m.on_installed_loaded(LoadOutcome::Malformed);
    assert_eq!(a, UninstallAction::Fail { error: OpError::ParseError });
}

#[test]
fn uninstall_after_install_removes_everything_install_created() {
    let c = config();

    // run the install to completion, remembering what it created
    let (mut im, _) = InstallMachine::install(&c, true, "/home/u", "mylib");
    im.on_registry_loaded(registry_outcome(&["mylib"]));
    let fetch = im.on_installed_loaded(LoadOutcome::Missing);
    let fetched_dest = match fetch {
        InstallAction::Fetch { dest, .. } => dest,
        other => panic!("expected a fetch action, got {:?}", other),
    };
    im.on_fetched(true);
    let created = im.on_listed(Some((vec!["a.lib".to_string()], vec!["d.pretty".to_string()])));
    let (sym_dir, fp_dir) = match created {
        InstallAction::CreateDirs { symbols, footprints } => (symbols, footprints),
        other => panic!("expected a create action, got {:?}", other),
    };
    im.on_dirs_created(true);
    let persisted = im.on_copied(true);
    let record = match persisted {
        InstallAction::Persist { record, .. } => record,
        other => panic!("expected a persist action, got {:?}", other),
    };
    im.on_persisted(true);

    // now uninstall the same name against the persisted record
    let entries: Vec<(String, Library)> =
        record.entries().iter().map(|l| (l.name.clone(), l.clone())).collect();
    let (mut um, _) = UninstallMachine::uninstall(&c, true, "/home/u", "mylib");
    let a = um.on_installed_loaded(LoadOutcome::Parsed(entries));
    assert_eq!(
        a,
        UninstallAction::RemovePaths {
            fetched: fetched_dest,
            symbols: sym_dir,
            footprints: fp_dir,
        }
    );
    let a = um.on_removed(RemoveOutcome::Removed, RemoveOutcome::Removed, RemoveOutcome::Removed);
    match a {
        UninstallAction::Persist { path, record } => {
            assert_eq!(path, "/cfg/installed.ron");
            assert_eq!(record.len(), 0);
        }
        other => panic!("expected a persist action, got {:?}", other),
    }
    let a = um.on_persisted(true);
    assert_eq!(a, UninstallAction::Finish);
    assert!(matches!(um.state, UninstallState::Done));
}

#[test]
fn uninstall_tolerates_already_absent_paths() {
    let c = config();
    let (mut m, _) = UninstallMachine::uninstall(&c, true, "/home/u", "mylib");
    m.on_installed_loaded(registry_outcome(&["mylib", "other"]));
    let a = m.on_removed(
        RemoveOutcome::AlreadyAbsent,
        RemoveOutcome::Removed,
        RemoveOutcome::AlreadyAbsent,
    );
    match a {
        UninstallAction::Persist { record, .. } => {
            assert_eq!(record.len(), 1);
            assert!(record.contains_name(&"other".to_string()));
            assert!(!record.contains_name(&"mylib".to_string()));
        }
        other => panic!("expected a persist action, got {:?}", other),
    }
}

#[test]
fn uninstall_failed_removal_fails() {
    let c = config();
    let (mut m, _) = UninstallMachine::uninstall(&c, true, "/home/u", "mylib");
    m.on_installed_loaded(registry_outcome(&["mylib"]));
    let a = m.on_removed(RemoveOutcome::Removed, RemoveOutcome::Failed, RemoveOutcome::Removed);
    assert_eq!(a, UninstallAction::Fail { error: OpError::IoError });
    assert!(matches!(m.state, UninstallState::Failed { .. }));
}

#[test]
fn uninstall_record_write_failure_is_io_error() {
    let c = config();
    let (mut m, _) = UninstallMachine::uninstall(&c, true, "/home/u", "mylib");
    m.on_installed_loaded(registry_outcome(&["mylib"]));
    m.on_removed(RemoveOutcome::Removed, RemoveOutcome::Removed, RemoveOutcome::Removed);
    let a = m.on_persisted(false);
    assert_eq!(a, UninstallAction::Fail { error: OpError::IoError });
}
