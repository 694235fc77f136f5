use stourney::paths::Platform;
use stourney::project::{
    check_project, describe_fault, find_fault, guess_project_type, probe_paths, ProjectFault,
    ProjectType,
};
use stourney::snapshot::{relative_to_full_path, EntryKind, FsSnapshot};

fn dir(fs: &mut FsSnapshot, path: &str) {
    fs.record(path, EntryKind::Directory, path);
}

fn file(fs: &mut FsSnapshot, path: &str) {
    fs.record(path, EntryKind::File, path);
}

fn script_project(fs: &mut FsSnapshot, root: &str) {
    dir(fs, root);
    dir(fs, &format!("{}/lib", root));
    dir(fs, &format!("{}/venv", root));
    file(fs, &format!("{}/bot.py", root));
}

fn native_project(fs: &mut FsSnapshot, root: &str) {
    dir(fs, root);
    dir(fs, &format!("{}/lib", root));
    dir(fs, &format!("{}/venv", root));
    file(fs, &format!("{}/Cargo.toml", root));
}

fn quiet(fs: &FsSnapshot, directory: &str) -> bool {
    let mut report = Vec::new();
    let r = check_project(fs, directory, false, &mut report);
    assert!(report.is_empty());
    r
}

#[test]
fn snapshot_starts_empty_and_later_records_win() {
    let mut fs = FsSnapshot::new(Platform::Unix);
    assert_eq!(fs.kind_of("/a"), EntryKind::Missing);
    assert!(!fs.is_present("/a"));
    fs.record("/a", EntryKind::File, "/a");
    assert_eq!(fs.kind_of("/a"), EntryKind::File);
    assert!(fs.is_present("/a"));
    assert!(!fs.is_dir("/a"));
    fs.record("/a", EntryKind::Directory, "/a");
    assert_eq!(fs.kind_of("/a"), EntryKind::Directory);
    assert!(fs.is_dir("/a"));
    assert_eq!(fs.kind_of("/b"), EntryKind::Missing);
    fs.record("/a", EntryKind::Missing, "");
    assert!(!fs.is_present("/a"));
}

#[test]
fn full_path_is_the_canonical_form() {
    let mut fs = FsSnapshot::new(Platform::Unix);
    fs.record("proj", EntryKind::Directory, "/home/u/proj");
    assert_eq!(
        relative_to_full_path(&fs, "proj"),
        Some("/home/u/proj".to_string())
    );
    assert_eq!(relative_to_full_path(&fs, "other"), None);
    fs.record("gone", EntryKind::Missing, "/home/u/gone");
    assert_eq!(relative_to_full_path(&fs, "gone"), None);
}

#[test]
fn full_path_on_windows_has_no_verbatim_mark() {
    let mut fs = FsSnapshot::new(Platform::Windows);
    fs.record("proj", EntryKind::Directory, "\\\\?\\C:\\u\\proj");
    assert_eq!(
        relative_to_full_path(&fs, "proj"),
        Some("C:\\u\\proj".to_string())
    );
}

#[test]
fn check_project_accepts_both_kinds() {
    let mut fs = FsSnapshot::new(Platform::Unix);
    script_project(&mut fs, "/s");
    native_project(&mut fs, "/n");
    assert!(quiet(&fs, "/s"));
    assert!(quiet(&fs, "/n"));
    assert_eq!(find_fault(&fs, "/s"), None);
    assert_eq!(guess_project_type(&fs, "/s"), ProjectType::Python);
    assert_eq!(guess_project_type(&fs, "/n"), ProjectType::Rust);
}

#[test]
fn check_project_rejects_a_missing_path() {
    let fs = FsSnapshot::new(Platform::Unix);
    assert!(!quiet(&fs, "/nowhere"));
    assert_eq!(find_fault(&fs, "/nowhere"), Some(ProjectFault::Missing));
}

#[test]
fn check_project_rejects_a_file() {
    let mut fs = FsSnapshot::new(Platform::Unix);
    file(&mut fs, "/f");
    dir(&mut fs, "/f/lib");
    dir(&mut fs, "/f/venv");
    file(&mut fs, "/f/bot.py");
    assert!(!quiet(&fs, "/f"));
    assert_eq!(find_fault(&fs, "/f"), Some(ProjectFault::NotDirectory));
}

#[test]
fn check_project_rejects_a_directory_without_lib() {
    let mut fs = FsSnapshot::new(Platform::Unix);
    dir(&mut fs, "/p");
    dir(&mut fs, "/p/venv");
    file(&mut fs, "/p/bot.py");
    assert!(!quiet(&fs, "/p"));
    assert_eq!(find_fault(&fs, "/p"), Some(ProjectFault::NoLib));
    file(&mut fs, "/p/lib");
    assert!(!quiet(&fs, "/p"));
    assert_eq!(find_fault(&fs, "/p"), Some(ProjectFault::NoLib));
}

#[test]
fn check_project_rejects_a_directory_without_venv() {
    let mut fs = FsSnapshot::new(Platform::Unix);
    dir(&mut fs, "/p");
    dir(&mut fs, "/p/lib");
    file(&mut fs, "/p/bot.py");
    assert!(!quiet(&fs, "/p"));
    assert_eq!(find_fault(&fs, "/p"), Some(ProjectFault::NoVenv));
    file(&mut fs, "/p/venv");
    assert_eq!(find_fault(&fs, "/p"), Some(ProjectFault::NoVenv));
}

#[test]
fn check_project_rejects_a_directory_of_unknown_kind() {
    let mut fs = FsSnapshot::new(Platform::Unix);
    dir(&mut fs, "/p");
    dir(&mut fs, "/p/lib");
    dir(&mut fs, "/p/venv");
    assert!(!quiet(&fs, "/p"));
    assert_eq!(find_fault(&fs, "/p"), Some(ProjectFault::UnknownType));
    assert_eq!(guess_project_type(&fs, "/p"), ProjectType::Unknown);
}

#[test]
fn script_entry_point_takes_precedence_over_manifest() {
    let mut fs = FsSnapshot::new(Platform::Unix);
    dir(&mut fs, "/p");
    file(&mut fs, "/p/Cargo.toml");
    assert_eq!(guess_project_type(&fs, "/p"), ProjectType::Rust);
    file(&mut fs, "/p/bot.py");
    assert_eq!(guess_project_type(&fs, "/p"), ProjectType::Python);
}

#[test]
fn verbose_check_reports_the_first_fault_only() {
    let mut fs = FsSnapshot::new(Platform::Unix);
    let mut report = vec!["earlier".to_string()];
    assert!(!check_project(&fs, "/p", true, &mut report));
    assert_eq!(report, vec!["earlier", "[-] Directory /p does not exist"]);

    file(&mut fs, "/p");
    let mut report = Vec::new();
    assert!(!check_project(&fs, "/p", true, &mut report));
    assert_eq!(report, vec!["[-] Path /p is not a directory"]);

    dir(&mut fs, "/p");
    let mut report = Vec::new();
    assert!(!check_project(&fs, "/p", true, &mut report));
    assert_eq!(
        report,
        vec!["[-] Directory /p does not contain a lib directory"]
    );

    dir(&mut fs, "/p/lib");
    let mut report = Vec::new();
    assert!(!check_project(&fs, "/p", true, &mut report));
    assert_eq!(
        report,
        vec!["[-] Directory /p does not contain a venv directory"]
    );

    dir(&mut fs, "/p/venv");
    let mut report = Vec::new();
    assert!(!check_project(&fs, "/p", true, &mut report));
    assert_eq!(
        report,
        vec![
            "[-] Directory /p is invalid",
            "[-] Expected a Cargo.toml or bot.py file"
        ]
    );

    file(&mut fs, "/p/bot.py");
    let mut report = Vec::new();
    assert!(check_project(&fs, "/p", true, &mut report));
    assert!(report.is_empty());
}

#[test]
fn describe_fault_names_the_directory() {
    assert_eq!(
        describe_fault(ProjectFault::NoVenv, "x y"),
        vec!["[-] Directory x y does not contain a venv directory"]
    );
}

#[test]
fn probe_paths_lists_what_a_check_reads() {
    assert_eq!(
        probe_paths(Platform::Unix, "/p"),
        vec!["/p", "/p/lib", "/p/venv", "/p/bot.py", "/p/Cargo.toml"]
    );
    assert_eq!(
        probe_paths(Platform::Windows, "C:\\p"),
        vec![
            "C:\\p",
            "C:\\p\\lib",
            "C:\\p\\venv",
            "C:\\p\\bot.py",
            "C:\\p\\Cargo.toml"
        ]
    );
}
