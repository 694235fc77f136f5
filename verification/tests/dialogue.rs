use stourney::config::ProjectConfig;
use stourney::dialogue::{
    confirm_delete, confirm_delete_question, language, language_question, num_competitors,
    num_competitors_question, python_template, python_template_question, recent_choice,
    rust_template, rust_template_question, select_recent_project, select_recent_question,
    RecentChoice,
};
use stourney::paths::Platform;
use stourney::project::Language;
use stourney::snapshot::{EntryKind, FsSnapshot};

fn strings(v: &[&str]) -> Vec<String> {
    v.iter().map(|s| s.to_string()).collect()
}

fn with_recents(v: &[&str]) -> ProjectConfig {
    let mut cfg = ProjectConfig::default();
    cfg.recents = strings(v);
    cfg
}

#[test]
fn only_the_first_option_confirms_deletion() {
    let q = confirm_delete_question();
    assert_eq!(
        q.prompt,
        "This directory is not empty, would you like to delete its contents?"
    );
    assert_eq!(q.options, strings(&["Yes", "No"]));
    assert!(confirm_delete(0));
    assert!(!confirm_delete(1));
    assert!(!confirm_delete(7));
}

#[test]
fn language_goes_by_place() {
    let q = language_question();
    assert_eq!(q.prompt, "Choose the language you'd like to develop in");
    assert_eq!(q.options, strings(&["Python", "Rust"]));
    assert_eq!(language(0), Some(Language::Python));
    assert_eq!(language(1), Some(Language::Rust));
    assert_eq!(language(2), None);
}

#[test]
fn rust_templates_by_place() {
    let q = rust_template_question();
    assert_eq!(q.prompt, "Choose the Rust template you'd like to use");
    assert_eq!(
        q.options,
        strings(&[
            "Default",
            "Board and History Example",
            "Actions Example",
            "Cards Example",
            "Simple Example"
        ])
    );
    let p = Platform::Unix;
    assert_eq!(rust_template(p, 0), Some("examples/rust/simple".to_string()));
    assert_eq!(
        rust_template(p, 1),
        Some("examples/rust/board_and_history".to_string())
    );
    assert_eq!(rust_template(p, 2), Some("examples/rust/actions".to_string()));
    assert_eq!(rust_template(p, 3), Some("examples/rust/cards".to_string()));
    assert_eq!(rust_template(p, 4), Some("examples/rust/simple".to_string()));
    assert_eq!(rust_template(p, 5), None);
    assert_eq!(
        rust_template(Platform::Windows, 3),
        Some("examples\\rust\\cards".to_string())
    );
}

#[test]
fn python_templates_by_place() {
    let q = python_template_question();
    assert_eq!(q.prompt, "Choose the Python template you'd like to use");
    assert_eq!(q.options.len(), 5);
    assert_eq!(q.options[4], "Timeout Example");
    let p = Platform::Unix;
    assert_eq!(
        python_template(p, 0),
        Some("examples/python/timeout".to_string())
    );
    assert_eq!(
        python_template(p, 1),
        Some("examples/python/board_and_history".to_string())
    );
    assert_eq!(
        python_template(p, 2),
        Some("examples/python/actions".to_string())
    );
    assert_eq!(
        python_template(p, 3),
        Some("examples/python/cards".to_string())
    );
    assert_eq!(
        python_template(p, 4),
        Some("examples/python/timeout".to_string())
    );
    assert_eq!(python_template(p, 5), None);
}

#[test]
fn two_to_four_competitors() {
    let q = num_competitors_question();
    assert_eq!(q.prompt, "Choose the number of competitors");
    assert_eq!(q.options, strings(&["2", "3", "4"]));
    assert_eq!(num_competitors(0), Some(2));
    assert_eq!(num_competitors(1), Some(3));
    assert_eq!(num_competitors(2), Some(4));
    assert_eq!(num_competitors(3), None);
    assert_eq!(num_competitors(usize::MAX), None);
}

#[test]
fn recents_are_offered_with_the_manual_entry_last() {
    let cfg = with_recents(&["/a", "/b"]);
    let q = select_recent_question(&cfg, 1);
    assert_eq!(q.prompt, "[Competitor 1] Select a recent project");
    assert_eq!(q.options, strings(&["/a", "/b", "Other..."]));
    let q = select_recent_question(&with_recents(&[]), 0);
    assert_eq!(q.prompt, "[Competitor 0] Select a recent project");
    assert_eq!(q.options, strings(&["Other..."]));
}

#[test]
fn at_most_nine_recents_are_offered() {
    let all = ["1", "2", "3", "4", "5", "6", "7", "8", "9", "10", "11"];
    let cfg = with_recents(&all);
    let q = select_recent_question(&cfg, 12);
    assert_eq!(q.prompt, "[Competitor 12] Select a recent project");
    assert_eq!(
        q.options,
        strings(&["1", "2", "3", "4", "5", "6", "7", "8", "9", "Other..."])
    );
    match recent_choice(&cfg, 8) {
        RecentChoice::Listed(p) => assert_eq!(p, "9"),
        _ => panic!("the ninth is listed"),
    }
    assert!(matches!(recent_choice(&cfg, 9), RecentChoice::Manual));
    assert!(matches!(recent_choice(&cfg, 10), RecentChoice::OutOfRange));
    assert!(matches!(recent_choice(&cfg, 11), RecentChoice::OutOfRange));
}

#[test]
fn the_entry_after_the_last_recent_is_manual() {
    let cfg = with_recents(&["/a", "/b"]);
    match recent_choice(&cfg, 0) {
        RecentChoice::Listed(p) => assert_eq!(p, "/a"),
        _ => panic!("the first is listed"),
    }
    match recent_choice(&cfg, 1) {
        RecentChoice::Listed(p) => assert_eq!(p, "/b"),
        _ => panic!("the second is listed"),
    }
    assert!(matches!(recent_choice(&cfg, 2), RecentChoice::Manual));
    assert!(matches!(recent_choice(&cfg, 3), RecentChoice::OutOfRange));
    assert!(matches!(
        recent_choice(&with_recents(&[]), 0),
        RecentChoice::Manual
    ));
}

#[test]
fn a_project_picked_for_a_seat_becomes_recent() {
    let mut fs = FsSnapshot::new(Platform::Unix);
    fs.record("/p", EntryKind::Directory, "/p");
    fs.record("/p/lib", EntryKind::Directory, "");
    fs.record("/p/venv", EntryKind::Directory, "");
    fs.record("/p/Cargo.toml", EntryKind::File, "");
    let mut cfg = with_recents(&["/gone"]);
    let mut report = Vec::new();
    let picked = select_recent_project(&mut cfg, &fs, "/p", &mut report);
    assert_eq!(picked, Some("/p".to_string()));
    assert_eq!(cfg.recents, strings(&["/p"]));
    assert!(report.is_empty());
}

#[test]
fn a_directory_that_is_no_project_is_turned_down() {
    let mut fs = FsSnapshot::new(Platform::Unix);
    fs.record("/p", EntryKind::Directory, "/p");
    let mut cfg = with_recents(&["/gone"]);
    let mut report = Vec::new();
    let picked = select_recent_project(&mut cfg, &fs, "/p", &mut report);
    assert_eq!(picked, None);
    assert_eq!(cfg.recents, strings(&["/gone"]));
    assert_eq!(
        report,
        strings(&[
            "[-] Directory /p does not contain a lib directory",
            "[-] Invalid project directory"
        ])
    );
}
