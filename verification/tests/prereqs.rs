use stourney::paths::Platform;
use stourney::prereqs::{
    another_probe_wanted, describe_missing, missing_prerequisite, pip_probe, prereqs_found,
    python3_found, python_probes, setup_venv, venv_probe, Prerequisite,
};
use stourney::project::Language;

fn strings(v: &[&str]) -> Vec<String> {
    v.iter().map(|s| s.to_string()).collect()
}

fn out(s: &str) -> Option<String> {
    Some(s.to_string())
}

#[test]
fn python_probes_ask_for_the_version() {
    let probes = python_probes(Platform::Unix);
    assert_eq!(probes.len(), 2);
    assert_eq!(probes[0].program, "python3");
    assert_eq!(probes[0].args, strings(&["--version"]));
    assert_eq!(probes[1].program, "python");
    assert_eq!(probes[1].args, strings(&["--version"]));
    let probes = python_probes(Platform::Windows);
    assert_eq!(probes.len(), 3);
    assert_eq!(probes[2].program, "py");
    assert_eq!(probes[2].args, strings(&["-3", "--version"]));
}

#[test]
fn python3_is_taken_on_unix_as_soon_as_it_starts() {
    let p = Platform::Unix;
    assert_eq!(python3_found(p, &out(""), &None, &None), out("python3"));
    assert_eq!(
        python3_found(p, &out("Python 2.7"), &out("Python 3.9"), &None),
        out("python3")
    );
    assert_eq!(
        python3_found(p, &None, &out("Python 3.9.1\n"), &None),
        out("python")
    );
    assert_eq!(python3_found(p, &None, &out("Python 2.7.18"), &None), None);
    assert_eq!(python3_found(p, &None, &None, &out("Python 3.9")), None);
    assert_eq!(python3_found(p, &None, &None, &None), None);
}

#[test]
fn python3_on_windows_must_name_its_version() {
    let p = Platform::Windows;
    assert_eq!(
        python3_found(p, &out("Python 3.11.2"), &None, &None),
        out("python3")
    );
    assert_eq!(
        python3_found(p, &out(""), &out("Python 3.11.2"), &None),
        out("python")
    );
    assert_eq!(
        python3_found(p, &out(""), &out("Python 2.7"), &out("Python 3.8")),
        out("py")
    );
    assert_eq!(
        python3_found(p, &out(""), &None, &out("Python 3.8")),
        None
    );
    assert_eq!(
        python3_found(p, &out(""), &out("Python 2.7"), &out("nothing")),
        None
    );
    assert_eq!(python3_found(p, &out(""), &out("Python 2.7"), &None), None);
    assert_eq!(
        python3_found(p, &None, &out("Python 3.10"), &None),
        out("python")
    );
}

#[test]
fn module_probes_tell_the_launcher_its_version() {
    let c = venv_probe(Platform::Unix, "python3");
    assert_eq!(c.program, "python3");
    assert_eq!(c.args, strings(&["-m", "venv"]));
    let c = pip_probe(Platform::Unix, "py");
    assert_eq!(c.program, "py");
    assert_eq!(c.args, strings(&["-m", "pip"]));
    let c = pip_probe(Platform::Windows, "py");
    assert_eq!(c.program, "py");
    assert_eq!(c.args, strings(&["-3", "-m", "pip"]));
    let c = venv_probe(Platform::Windows, "py");
    assert_eq!(c.args, strings(&["-3", "-m", "venv"]));
    let c = venv_probe(Platform::Windows, "python");
    assert_eq!(c.args, strings(&["-m", "venv"]));
}

#[test]
fn the_first_missing_prerequisite_is_named() {
    let py = out("python3");
    assert_eq!(missing_prerequisite(true, &py, true, true), None);
    assert_eq!(
        missing_prerequisite(false, &None, false, false),
        Some(Prerequisite::Git)
    );
    assert_eq!(
        missing_prerequisite(true, &None, false, false),
        Some(Prerequisite::Python)
    );
    assert_eq!(
        missing_prerequisite(true, &py, false, false),
        Some(Prerequisite::Pip)
    );
    assert_eq!(
        missing_prerequisite(true, &py, true, false),
        Some(Prerequisite::Venv)
    );
    assert!(prereqs_found(true, &py, true, true));
    assert!(!prereqs_found(false, &py, true, true));
    assert!(!prereqs_found(true, &None, true, true));
    assert!(!prereqs_found(true, &py, false, true));
    assert!(!prereqs_found(true, &py, true, false));
}

#[test]
fn a_missing_prerequisite_is_described() {
    assert_eq!(
        describe_missing(Prerequisite::Git),
        "[-] Git not found, please install git and try again"
    );
    assert_eq!(
        describe_missing(Prerequisite::Python),
        "[-] Python 3 not found, please install python 3 and try again"
    );
    assert_eq!(
        describe_missing(Prerequisite::Pip),
        "[-] Python pip not found, please install python pip and try again"
    );
    assert_eq!(
        describe_missing(Prerequisite::Venv),
        "[-] Python venv not found, please install python venv and try again"
    );
}

#[test]
fn setup_venv_installs_the_builder_for_native_projects_only() {
    let calls = setup_venv(Platform::Unix, "python", "/p/venv", Language::Python);
    assert_eq!(calls.len(), 1);
    assert_eq!(calls[0].program, "python3");
    assert_eq!(calls[0].args, strings(&["-m", "venv", "/p/venv"]));

    let calls = setup_venv(Platform::Unix, "python", "/p/venv", Language::Rust);
    assert_eq!(calls.len(), 2);
    assert_eq!(calls[1].program, "/p/venv/bin/pip");
    assert_eq!(calls[1].args, strings(&["install", "maturin[patchelf]"]));

    let calls = setup_venv(Platform::Windows, "py", "C:\\p\\venv", Language::Rust);
    assert_eq!(calls.len(), 2);
    assert_eq!(calls[0].program, "py");
    assert_eq!(calls[0].args, strings(&["-m", "venv", "C:\\p\\venv"]));
    assert_eq!(calls[1].program, "C:\\p\\venv\\Scripts\\pip.exe");
    assert_eq!(calls[1].args, strings(&["install", "maturin"]));
}

#[test]
fn the_search_ends_where_the_outcome_is_settled() {
    let u = Platform::Unix;
    assert!(!another_probe_wanted(u, 1, &out("")));
    assert!(another_probe_wanted(u, 1, &None));
    assert!(!another_probe_wanted(u, 2, &None));
    assert!(!another_probe_wanted(u, 2, &out("Python 2.7")));
    assert!(!another_probe_wanted(u, 0, &None));
    let w = Platform::Windows;
    assert!(!another_probe_wanted(w, 1, &out("Python 3.12")));
    assert!(another_probe_wanted(w, 1, &out("")));
    assert!(another_probe_wanted(w, 1, &None));
    assert!(!another_probe_wanted(w, 2, &None));
    assert!(!another_probe_wanted(w, 2, &out("Python 3.12")));
    assert!(another_probe_wanted(w, 2, &out("Python 2.7")));
    assert!(!another_probe_wanted(w, 3, &out("Python 2.7")));
}
