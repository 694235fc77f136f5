use stourney::command::{
    build_rust_project, clone_repo, current_scaffolding_remote_version,
    current_scaffolding_status, current_scaffolding_version, git_probe, update_probe,
    update_scaffolding,
};
use stourney::config::ProjectConfig;
use stourney::paths::Platform;
use stourney::staleness::{
    check_for_updates, git_dirty, out_of_date_projects, scaffolding_revision, staleness,
    unknown_projects, update_out_of_date_projects, ScaffoldProbe, Staleness,
};

fn strings(v: &[&str]) -> Vec<String> {
    v.iter().map(|s| s.to_string()).collect()
}

fn probe(local: Option<&str>, remote: Option<&str>, dirty: bool) -> ScaffoldProbe {
    ScaffoldProbe {
        local: local.map(|s| s.to_string()),
        remote: remote.map(|s| s.to_string()),
        status: if dirty {
            Some(" M src/lib.rs\n".to_string())
        } else {
            Some(String::new())
        },
    }
}

#[test]
fn revision_is_the_trimmed_output() {
    assert_eq!(
        scaffolding_revision(&Some("4f2a9c1\n".to_string())),
        "4f2a9c1"
    );
    assert_eq!(scaffolding_revision(&Some("  \n".to_string())), "");
    assert_eq!(scaffolding_revision(&None), "");
}

#[test]
fn a_scaffold_is_dirty_when_the_status_lists_changes() {
    assert!(git_dirty(&Some(" M src/lib.rs\n".to_string())));
    assert!(git_dirty(&Some("?? new.txt".to_string())));
    assert!(!git_dirty(&Some(String::new())));
    assert!(!git_dirty(&Some("\n  \n".to_string())));
    assert!(!git_dirty(&None));
}

#[test]
fn staleness_compares_revisions() {
    assert_eq!(staleness("abc", "abc", false), Staleness::UpToDate);
    assert_eq!(staleness("abc", "abd", false), Staleness::OutOfDate);
    assert_eq!(staleness("abc", "abc", true), Staleness::OutOfDate);
    assert_eq!(staleness("", "", false), Staleness::Unknown);
    assert_eq!(staleness("", "", true), Staleness::OutOfDate);
    assert_eq!(staleness("", "abc", false), Staleness::OutOfDate);
    assert_eq!(staleness("abc", "", false), Staleness::OutOfDate);
}

#[test]
fn out_of_date_projects_are_listed_in_order() {
    let mut cfg = ProjectConfig::default();
    cfg.recents = strings(&["/a", "/b", "/c", "/d", "/e"]);
    let probes = vec![
        probe(Some("1\n"), Some("2\n"), false),
        probe(Some("1\n"), Some(" 1"), false),
        probe(None, None, false),
        probe(Some("7"), Some("7"), true),
    ];
    assert_eq!(
        out_of_date_projects(&cfg, &probes),
        strings(&["/a", "/d"])
    );
    assert!(out_of_date_projects(&cfg, &Vec::new()).is_empty());
    assert!(out_of_date_projects(&ProjectConfig::default(), &probes).is_empty());
}

#[test]
fn a_failed_query_on_one_side_shows_as_out_of_date() {
    let mut cfg = ProjectConfig::default();
    cfg.recents = strings(&["/a"]);
    assert_eq!(
        out_of_date_projects(&cfg, &vec![probe(None, Some("9"), false)]),
        strings(&["/a"])
    );
    assert_eq!(
        probe(Some("9"), None, false).verdict(),
        Staleness::OutOfDate
    );
    assert_eq!(probe(None, None, false).verdict(), Staleness::Unknown);
    assert_eq!(probe(None, None, true).verdict(), Staleness::OutOfDate);
    assert_eq!(
        probe(Some("9\n"), Some("9"), false).verdict(),
        Staleness::UpToDate
    );
}

#[test]
fn each_out_of_date_project_is_stashed_then_pulled() {
    let plans = update_out_of_date_projects(Platform::Unix, &strings(&["/a", "/b"]));
    assert_eq!(plans.len(), 2);
    assert_eq!(plans[1].len(), 2);
    assert_eq!(plans[1][0].program, "git");
    assert_eq!(plans[1][0].args, strings(&["stash"]));
    assert_eq!(
        plans[1][0].working_dir,
        Some("/b/lib/scaffolding".to_string())
    );
    assert_eq!(plans[1][1].args, strings(&["pull", "origin", "main"]));
    assert_eq!(
        plans[0][1].working_dir,
        Some("/a/lib/scaffolding".to_string())
    );
    assert!(update_out_of_date_projects(Platform::Unix, &Vec::new()).is_empty());
}

#[test]
fn the_tool_is_out_of_date_when_its_version_is_not_listed() {
    let listed = "stourney = \"0.1.15\"    # A tournament tool\n".to_string();
    assert!(!check_for_updates(&Some(listed)));
    let newer = "stourney = \"0.1.16\"    # A tournament tool\n".to_string();
    assert!(check_for_updates(&Some(newer)));
    assert!(check_for_updates(&Some(String::new())));
    assert!(!check_for_updates(&None));
}

#[test]
fn git_calls_are_made_in_the_scaffold() {
    let c = current_scaffolding_version(Platform::Unix, "/p");
    assert_eq!(c.program, "git");
    assert_eq!(c.args, strings(&["rev-parse", "HEAD"]));
    assert_eq!(c.working_dir, Some("/p/lib/scaffolding".to_string()));
    assert_eq!(c.search_path, None);
    let c = current_scaffolding_remote_version(Platform::Windows, "C:\\p");
    assert_eq!(c.args, strings(&["rev-parse", "origin/main"]));
    assert_eq!(c.working_dir, Some("C:\\p\\lib\\scaffolding".to_string()));
    let u = update_scaffolding(Platform::Unix, "/p");
    assert_eq!(u.len(), 2);
    assert_eq!(u[0].args, strings(&["stash"]));
    assert_eq!(u[1].args, strings(&["pull", "origin", "main"]));
    assert_eq!(u[0].working_dir, Some("/p/lib/scaffolding".to_string()));
    assert_eq!(u[1].working_dir, Some("/p/lib/scaffolding".to_string()));
}

#[test]
fn plain_tool_calls() {
    let c = git_probe();
    assert_eq!(c.program, "git");
    assert_eq!(c.args, strings(&["version"]));
    assert_eq!(c.working_dir, None);
    let c = clone_repo("/p/lib", "https://example.org/r");
    assert_eq!(c.program, "git");
    assert_eq!(c.args, strings(&["clone", "https://example.org/r", "/p/lib"]));
    let c = build_rust_project("/p");
    assert_eq!(c.program, "cargo");
    assert_eq!(c.args, strings(&["build", "--release"]));
    assert_eq!(c.working_dir, Some("/p".to_string()));
    let c = update_probe();
    assert_eq!(c.program, "cargo");
    assert_eq!(c.args, strings(&["search", "stourney"]));
}

#[test]
fn a_changed_scaffold_at_the_same_revision_is_out_of_date() {
    let mut cfg = ProjectConfig::default();
    cfg.recents = strings(&["/a", "/b"]);
    let probes = vec![
        ScaffoldProbe {
            local: Some("7\n".to_string()),
            remote: Some("7\n".to_string()),
            status: Some(" M bot.py\n".to_string()),
        },
        ScaffoldProbe {
            local: Some("7\n".to_string()),
            remote: Some("7\n".to_string()),
            status: None,
        },
    ];
    assert_eq!(out_of_date_projects(&cfg, &probes), strings(&["/a"]));
    assert!(unknown_projects(&cfg, &probes).is_empty());
}

#[test]
fn projects_that_cannot_be_queried_are_listed_as_unknown() {
    let mut cfg = ProjectConfig::default();
    cfg.recents = strings(&["/a", "/b", "/c", "/d", "/e"]);
    let probes = vec![
        probe(Some("1\n"), Some("2\n"), false),
        probe(None, None, false),
        probe(Some("1"), Some("1"), false),
        probe(Some(""), Some("\n"), false),
    ];
    assert_eq!(unknown_projects(&cfg, &probes), strings(&["/b", "/d", "/e"]));
    assert_eq!(out_of_date_projects(&cfg, &probes), strings(&["/a"]));
    assert_eq!(
        unknown_projects(&cfg, &Vec::new()),
        strings(&["/a", "/b", "/c", "/d", "/e"])
    );
    assert!(unknown_projects(&ProjectConfig::default(), &probes).is_empty());
}

#[test]
fn the_status_query_is_made_in_the_scaffold() {
    let c = current_scaffolding_status(Platform::Unix, "/p");
    assert_eq!(c.program, "git");
    assert_eq!(c.args, strings(&["status", "--porcelain"]));
    assert_eq!(c.working_dir, Some("/p/lib/scaffolding".to_string()));
    assert_eq!(c.search_path, None);
}
