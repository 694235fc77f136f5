use stourney::config::{
    add_to_recents, correct_version, front_recent, migrate_config, purge_recents, ProjectConfig,
};
use stourney::constants::VERSION;
use stourney::paths::Platform;
use stourney::snapshot::{EntryKind, FsSnapshot};

fn project(fs: &mut FsSnapshot, root: &str) {
    fs.record(root, EntryKind::Directory, root);
    fs.record(&format!("{}/lib", root), EntryKind::Directory, "");
    fs.record(&format!("{}/venv", root), EntryKind::Directory, "");
    fs.record(&format!("{}/bot.py", root), EntryKind::File, "");
}

fn strings(v: &[&str]) -> Vec<String> {
    v.iter().map(|s| s.to_string()).collect()
}

fn same(a: &ProjectConfig, b: &ProjectConfig) -> bool {
    a.version == b.version
        && a.api_key == b.api_key
        && a.interpreter == b.interpreter
        && a.selected_projects == b.selected_projects
        && a.recents == b.recents
        && a.port == b.port
}

fn copy(a: &ProjectConfig) -> ProjectConfig {
    ProjectConfig {
        version: a.version.clone(),
        api_key: a.api_key.clone(),
        interpreter: a.interpreter.clone(),
        selected_projects: a.selected_projects.clone(),
        recents: a.recents.clone(),
        port: a.port,
    }
}

#[test]
fn default_config_has_the_documented_values() {
    let cfg = ProjectConfig::default();
    assert_eq!(cfg.version, "0.1.15");
    assert_eq!(cfg.version, VERSION);
    assert_eq!(cfg.api_key, "");
    assert_eq!(cfg.interpreter, "./venv/bin/python3");
    assert!(cfg.selected_projects.is_empty());
    assert!(cfg.recents.is_empty());
    assert_eq!(cfg.port, 3030);
}

#[test]
fn migrate_fills_what_is_empty() {
    let old = ProjectConfig {
        version: "0.0.1".to_string(),
        api_key: String::new(),
        interpreter: String::new(),
        selected_projects: Vec::new(),
        recents: Vec::new(),
        port: 0,
    };
    let new = migrate_config(old);
    assert!(same(&new, &ProjectConfig::default()));
}

#[test]
fn migrate_keeps_what_is_set() {
    let old = ProjectConfig {
        version: "0.0.1".to_string(),
        api_key: "SECRET-REDACTED".to_string(),
        interpreter: "/usr/bin/python".to_string(),
        selected_projects: strings(&["/b", "/a"]),
        recents: strings(&["/c", "/a", "/b"]),
        port: 8080,
    };
    let new = migrate_config(copy(&old));
    assert_eq!(new.version, VERSION);
    assert_eq!(new.api_key, old.api_key);
    assert_eq!(new.interpreter, "/usr/bin/python");
    assert_eq!(new.selected_projects, strings(&["/b", "/a"]));
    assert_eq!(new.recents, strings(&["/c", "/a", "/b"]));
    assert_eq!(new.port, 8080);
}

#[test]
fn migrate_twice_is_migrate_once() {
    let old = ProjectConfig {
        version: "9.9.9".to_string(),
        api_key: String::new(),
        interpreter: String::new(),
        selected_projects: strings(&["/x"]),
        recents: Vec::new(),
        port: 0,
    };
    let once = migrate_config(old);
    let twice = migrate_config(copy(&once));
    assert!(same(&once, &twice));
}

#[test]
fn version_is_correct_after_migration() {
    let mut cfg = ProjectConfig::default();
    assert!(correct_version(&cfg));
    cfg.version = "0.1.14".to_string();
    assert!(!correct_version(&cfg));
    let cfg = migrate_config(cfg);
    assert!(correct_version(&cfg));
    let cfg = migrate_config(ProjectConfig::default());
    assert!(correct_version(&cfg));
}

#[test]
fn purge_drops_what_is_no_project_and_keeps_the_order() {
    let mut fs = FsSnapshot::new(Platform::Unix);
    project(&mut fs, "/a");
    project(&mut fs, "/c");
    project(&mut fs, "/e");
    fs.record("/d", EntryKind::Directory, "/d");
    let mut cfg = ProjectConfig::default();
    cfg.recents = strings(&["/e", "/b", "/a", "/d", "/c"]);
    cfg.selected_projects = strings(&["/b"]);
    assert!(purge_recents(&mut cfg, &fs));
    assert_eq!(cfg.recents, strings(&["/e", "/a", "/c"]));
    assert_eq!(cfg.selected_projects, strings(&["/b"]));
    assert!(!purge_recents(&mut cfg, &fs));
    assert_eq!(cfg.recents, strings(&["/e", "/a", "/c"]));
}

#[test]
fn purge_of_nothing_and_of_all() {
    let fs = FsSnapshot::new(Platform::Unix);
    let mut cfg = ProjectConfig::default();
    assert!(!purge_recents(&mut cfg, &fs));
    assert!(cfg.recents.is_empty());
    cfg.recents = strings(&["/a", "/b"]);
    assert!(purge_recents(&mut cfg, &fs));
    assert!(cfg.recents.is_empty());
}

#[test]
fn front_recent_moves_to_the_front() {
    let mut cfg = ProjectConfig::default();
    cfg.recents = strings(&["/a", "/b", "/c", "/b"]);
    front_recent(&mut cfg, "/b");
    assert_eq!(cfg.recents, strings(&["/b", "/a", "/c"]));
    front_recent(&mut cfg, "/z");
    assert_eq!(cfg.recents, strings(&["/z", "/b", "/a", "/c"]));
}

#[test]
fn adding_twice_leaves_one_occurrence_in_front() {
    let mut fs = FsSnapshot::new(Platform::Unix);
    project(&mut fs, "/a");
    project(&mut fs, "/b");
    let mut cfg = ProjectConfig::default();
    cfg.recents = strings(&["/a"]);
    assert!(add_to_recents(&mut cfg, &fs, "/b"));
    assert_eq!(cfg.recents, strings(&["/b", "/a"]));
    assert!(add_to_recents(&mut cfg, &fs, "/b"));
    assert_eq!(cfg.recents, strings(&["/b", "/a"]));
    assert!(add_to_recents(&mut cfg, &fs, "/a"));
    assert_eq!(cfg.recents, strings(&["/a", "/b"]));
    assert_eq!(cfg.recents.iter().filter(|p| *p == "/a").count(), 1);
}

#[test]
fn adding_keeps_the_absolute_form() {
    let mut fs = FsSnapshot::new(Platform::Unix);
    project(&mut fs, "/home/u/proj");
    fs.record("proj", EntryKind::Directory, "/home/u/proj");
    let mut cfg = ProjectConfig::default();
    assert!(add_to_recents(&mut cfg, &fs, "proj"));
    assert_eq!(cfg.recents, strings(&["/home/u/proj"]));
    assert!(add_to_recents(&mut cfg, &fs, "proj"));
    assert_eq!(cfg.recents, strings(&["/home/u/proj"]));
}

#[test]
fn adding_what_is_no_project_does_not_last() {
    let mut fs = FsSnapshot::new(Platform::Unix);
    project(&mut fs, "/a");
    fs.record("/junk", EntryKind::Directory, "/junk");
    let mut cfg = ProjectConfig::default();
    cfg.recents = strings(&["/a", "/gone"]);
    assert!(add_to_recents(&mut cfg, &fs, "/junk"));
    assert_eq!(cfg.recents, strings(&["/a"]));
}

#[test]
fn adding_what_does_not_exist_changes_nothing() {
    let fs = FsSnapshot::new(Platform::Unix);
    let mut cfg = ProjectConfig::default();
    cfg.recents = strings(&["/a", "/gone"]);
    assert!(!add_to_recents(&mut cfg, &fs, "/nowhere"));
    assert_eq!(cfg.recents, strings(&["/a", "/gone"]));
}

#[test]
fn what_is_no_project_stands_in_front_until_the_purge() {
    let mut fs = FsSnapshot::new(Platform::Unix);
    project(&mut fs, "/a");
    fs.record("/junk", EntryKind::Directory, "/junk");
    let mut cfg = ProjectConfig::default();
    cfg.recents = strings(&["/a"]);
    front_recent(&mut cfg, "/junk");
    assert_eq!(cfg.recents, strings(&["/junk", "/a"]));
    assert!(purge_recents(&mut cfg, &fs));
    assert_eq!(cfg.recents, strings(&["/a"]));
}
