use hyrax::cli::{AddParams, CheckParams, Command, GlobalOpts, Root, SyncParams};
use hyrax::command::{log_level_filter, run, LevelFilter, LogLevel, Logger};
use hyrax::config::{get_config_path, HyraxConfig, HyraxDependency};
use hyrax::file_helper::is_dir_empty;
use hyrax::global::magic_time;
use hyrax::installer::{
    add, branch_reference, check_dependency, confirmation_dir, contains_dependency,
    get_commit_time, get_version_type, install_version, needs_confirmation, plan_install,
    prepare_add, record_install, sync, sync_notice, tag_reference, version_query, AddError,
    CheckAction, CheckEvent, CheckReport, InstallPlan, SyncNotice, VersionType,
};

fn params(name: &str, version: Option<&str>) -> AddParams {
    AddParams {
        name: name.to_string(),
        url: "https://github.com/godotengine/godot".to_string(),
        destination: "test/icons".to_string(),
        source: Some("editor/icons".to_string()),
        version: version.map(|v| v.to_string()),
    }
}

fn dependency(lock: Option<&str>, source: Option<&str>) -> HyraxDependency {
    HyraxDependency {
        name: "Godot Icons".to_string(),
        url: "https://github.com/godotengine/godot".to_string(),
        source: source.map(|s| s.to_string()),
        destination: "test/icons".to_string(),
        version: "master".to_string(),
        version_lock: lock.map(|l| l.to_string()),
    }
}

#[test]
fn config_path_is_hyrax_toml() {
    assert_eq!(get_config_path(), "hyrax.toml");
}

#[test]
fn magic_time_is_ten_seconds() {
    assert_eq!(magic_time(), 10);
}

#[test]
fn empty_directory_has_no_entries() {
    assert!(is_dir_empty(&vec![]));
    assert!(!is_dir_empty(&vec!["a".to_string()]));
}

#[test]
fn from_params_keeps_every_field() {
    let dep = HyraxDependency::from_params(params("Godot Icons", Some("4.2")));
    assert_eq!(dep.name, "Godot Icons");
    assert_eq!(dep.url, "https://github.com/godotengine/godot");
    assert_eq!(dep.destination, "test/icons");
    assert_eq!(dep.source.as_deref(), Some("editor/icons"));
    assert_eq!(dep.version, "4.2");
    assert!(dep.version_lock.is_none());
    assert!(dep.has_source_remap());
    assert!(!dep.needs_default_branch());
}

#[test]
fn from_params_without_version_needs_default_branch() {
    let dep = HyraxDependency::from_params(params("Godot Icons", None));
    assert_eq!(dep.version, "");
    assert!(dep.needs_default_branch());
}

#[test]
fn add_appends_and_refuses_duplicates() {
    let mut config = HyraxConfig::default();
    assert!(config.dependencies.is_empty());
    let first = prepare_add(&config, params("a", Some("main"))).ok().unwrap();
    assert!(add(&mut config, first).is_ok());
    let second = prepare_add(&config, params("b", None)).ok().unwrap();
    assert!(add(&mut config, second).is_ok());
    assert_eq!(config.dependencies.len(), 2);
    assert_eq!(config.dependencies[0].name, "a");
    assert_eq!(config.dependencies[1].name, "b");
    assert!(contains_dependency(&config, &"a".to_string()));
    assert!(!contains_dependency(&config, &"c".to_string()));

    assert!(matches!(prepare_add(&config, params("a", None)), Err(AddError::AlreadyExists)));
    let again = HyraxDependency::from_params(params("b", Some("dev")));
    assert!(matches!(add(&mut config, again), Err(AddError::AlreadyExists)));
    assert_eq!(config.dependencies.len(), 2);
    assert_eq!(config.dependencies[1].version, "");
    assert_eq!(AddError::AlreadyExists.message(), "This dependency already exists.");
}

#[test]
fn version_type_priority() {
    assert_eq!(get_version_type(true, true, true), VersionType::Tag);
    assert_eq!(get_version_type(false, true, true), VersionType::Branch);
    assert_eq!(get_version_type(false, false, true), VersionType::SHA);
    assert_eq!(get_version_type(false, false, false), VersionType::Unknown);
}

#[test]
fn reference_names() {
    assert_eq!(tag_reference("v1.0"), "refs/tags/v1.0");
    assert_eq!(branch_reference("main"), "refs/heads/main");
}

#[test]
fn object_id_parsing() {
    let q = version_query("abc");
    assert_eq!(q.tag_ref, "refs/tags/abc");
    assert_eq!(q.branch_ref, "refs/heads/abc");
    let mut expected = vec![0u8; 20];
    expected[0] = 0xab;
    expected[1] = 0xc0;
    assert_eq!(q.commit_id, Some(expected));

    let full = "0123456789ABCDEFabcdef0123456789abcdef01";
    let bytes = version_query(full).commit_id.unwrap();
    assert_eq!(bytes[0], 0x01);
    assert_eq!(bytes[7], 0xef);
    assert_eq!(bytes[19], 0x01);

    assert!(version_query("").commit_id.is_none());
    assert!(version_query("main").commit_id.is_none());
    assert!(version_query(&"a".repeat(41)).commit_id.is_none());
}

#[test]
fn commit_time_is_rfc3339() {
    assert_eq!(get_commit_time(0).as_deref(), Some("1970-01-01T00:00:00+00:00"));
    assert_eq!(get_commit_time(1431648000).as_deref(), Some("2015-05-15T00:00:00+00:00"));
    assert!(get_commit_time(i64::MAX).is_none());
}

#[test]
fn check_without_lock_is_not_installed() {
    let dep = dependency(None, None);
    assert!(matches!(
        check_dependency(&dep, CheckEvent::Cloned),
        CheckAction::Report(CheckReport::NotInstalled)
    ));
}

#[test]
fn check_steps_with_lock() {
    let lock = "0123456789abcdef0123456789abcdef01234567";
    let dep = dependency(Some(lock), None);
    match check_dependency(&dep, CheckEvent::Cloned) {
        CheckAction::Classify(q) => {
            assert_eq!(q.tag_ref, format!("refs/tags/{}", lock));
            assert!(q.commit_id.is_some());
        }
        _ => panic!("expected a classification"),
    }
    assert!(matches!(
        check_dependency(&dep, CheckEvent::Classified(VersionType::SHA)),
        CheckAction::ReadAvailable
    ));
    assert!(matches!(
        check_dependency(&dep, CheckEvent::Classified(VersionType::Branch)),
        CheckAction::ReadAvailable
    ));
    assert!(matches!(
        check_dependency(&dep, CheckEvent::Classified(VersionType::Unknown)),
        CheckAction::ReadAvailable
    ));
    assert!(matches!(
        check_dependency(&dep, CheckEvent::AvailableIs(lock.to_string())),
        CheckAction::Report(CheckReport::UpToDate)
    ));
    match check_dependency(&dep, CheckEvent::AvailableIs("ffff".to_string())) {
        CheckAction::Report(CheckReport::Stale { installed, available }) => {
            assert_eq!(installed, lock);
            assert_eq!(available, "ffff");
        }
        _ => panic!("expected a stale report"),
    }
}

#[test]
fn sync_notices_and_versions() {
    let fresh = dependency(None, None);
    let locked = dependency(Some("abc123"), None);
    let plain = SyncParams { force: false, update: false };
    let update = SyncParams { force: true, update: true };
    assert_eq!(sync_notice(&fresh, &plain), SyncNotice::Installing);
    assert_eq!(sync_notice(&fresh, &update), SyncNotice::Installing);
    assert_eq!(sync_notice(&locked, &plain), SyncNotice::Reinstalling);
    assert_eq!(sync_notice(&locked, &update), SyncNotice::Updating);
    assert_eq!(install_version(&fresh, &plain), "master");
    assert_eq!(install_version(&locked, &plain), "abc123");
    assert_eq!(install_version(&locked, &update), "master");
    assert!(needs_confirmation(&plain));
    assert!(!needs_confirmation(&update));
}

#[test]
fn sync_locks_every_dependency_and_later_syncs_reuse_it() {
    let mut config = HyraxConfig { dependencies: vec![dependency(None, None), dependency(Some("old"), None)] };
    config.dependencies[1].name = "second".to_string();
    sync(&mut config, vec!["sha1".to_string(), "sha2".to_string()]);
    assert_eq!(config.dependencies.len(), 2);
    assert_eq!(config.dependencies[0].version_lock.as_deref(), Some("sha1"));
    assert_eq!(config.dependencies[1].version_lock.as_deref(), Some("sha2"));
    assert_eq!(config.dependencies[1].name, "second");
    assert_eq!(config.dependencies[1].version, "master");
    let plain = SyncParams { force: false, update: false };
    assert_eq!(install_version(&config.dependencies[0], &plain), "sha1");
    assert!(matches!(
        check_dependency(&config.dependencies[1], CheckEvent::AvailableIs("sha2".to_string())),
        CheckAction::Report(CheckReport::UpToDate)
    ));
}

#[test]
fn record_install_sets_only_the_lock() {
    let mut dep = dependency(None, Some("src"));
    record_install(&mut dep, "abc".to_string());
    assert_eq!(dep.version_lock.as_deref(), Some("abc"));
    assert_eq!(dep.source.as_deref(), Some("src"));
    assert_eq!(dep.version, "master");
}

#[test]
fn install_plans() {
    let full = dependency(None, None);
    let plan = plan_install(&full, "/proj", "/tmp/x");
    match &plan {
        InstallPlan::Full { install_dir, git_dir } => {
            assert_eq!(install_dir, "/proj/test/icons");
            assert_eq!(git_dir, "/proj/test/icons/.git");
        }
        _ => panic!("expected a full install"),
    }
    assert_eq!(confirmation_dir(&plan), "/proj/test/icons");

    let remap = dependency(None, Some("editor/icons"));
    let plan = plan_install(&remap, "/proj", "/tmp/x");
    match &plan {
        InstallPlan::Remap { clone_dir, move_from, move_to } => {
            assert_eq!(clone_dir, "/tmp/x");
            assert_eq!(move_from, "/tmp/x/editor/icons");
            assert_eq!(move_to, "/proj/test/icons");
        }
        _ => panic!("expected a remapped install"),
    }
    assert_eq!(confirmation_dir(&plan), "/proj/test/icons");

    let mut absolute = dependency(None, None);
    absolute.destination = "/elsewhere".to_string();
    match plan_install(&absolute, "/proj", "") {
        InstallPlan::Full { install_dir, .. } => assert_eq!(install_dir, "/elsewhere"),
        _ => panic!("expected a full install"),
    }
}

#[test]
fn logger_prints_info_and_above() {
    let logger = Logger;
    assert!(logger.enabled(LogLevel::Error));
    assert!(logger.enabled(LogLevel::Warn));
    assert!(logger.enabled(LogLevel::Info));
    assert!(!logger.enabled(LogLevel::Debug));
    assert!(!logger.enabled(LogLevel::Trace));
    assert_eq!(logger.log(LogLevel::Warn, "careful").as_deref(), Some("WARN - careful"));
    assert!(logger.log(LogLevel::Debug, "hidden").is_none());
}

#[test]
fn log_level_follows_debug_flag() {
    let opts = GlobalOpts { dir: ".".to_string(), debug: false };
    assert_eq!(log_level_filter(&opts), LevelFilter::Error);
    let opts = GlobalOpts { dir: ".".to_string(), debug: true };
    assert_eq!(log_level_filter(&opts), LevelFilter::Debug);
}

#[test]
fn run_contexts() {
    let opts = || GlobalOpts { dir: ".".to_string(), debug: false };
    let root = |command| Root { command, global_opts: opts() };
    assert_eq!(run(&root(Command::Test {})), None);
    assert_eq!(
        run(&root(Command::Add(params("a", None)))).as_deref(),
        Some("Failed to add dependency")
    );
    assert_eq!(
        run(&root(Command::Sync(SyncParams { force: false, update: false }))).as_deref(),
        Some("Failed to sync dependencies")
    );
    assert_eq!(
        run(&root(Command::Check(CheckParams {}))).as_deref(),
        Some("Failed to check dependencies")
    );
}
