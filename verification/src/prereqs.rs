//! What must be on the machine before a project can be made, and the
//! runtime environment of a new project.

use vstd::prelude::*;
use crate::command::{Invocation, InvocationView, calls, list1, list2, list3, plain, plain_call};
use crate::paths::{Platform, join, joined};
use crate::project::Language;
use crate::text::{contains, contains_text, opt_text, same_text};

verus! {

/// The calls that look for an interpreter, in the order in which their
/// outcomes are weighed.
pub open spec fn interpreter_probes(platform: Platform) -> Seq<InvocationView> {
    match platform {
        Platform::Windows => seq![
            plain_call("python3"@, seq!["--version"@]),
            plain_call("python"@, seq!["--version"@]),
            plain_call("py"@, seq!["-3"@, "--version"@]),
        ],
        Platform::Unix => seq![
            plain_call("python3"@, seq!["--version"@]),
            plain_call("python"@, seq!["--version"@]),
        ],
    }
}

/// The calls to make before an interpreter is chosen.
pub fn python_probes(platform: Platform) -> (r: Vec<Invocation>)
    ensures
        calls(r@) == interpreter_probes(platform),
{
    let mut v: Vec<Invocation> = Vec::new();
    v.push(plain("python3", list1("--version")));
    v.push(plain("python", list1("--version")));
    match platform {
        Platform::Windows => {
            v.push(plain("py", list2("-3", "--version")));
        },
        Platform::Unix => {},
    }
    assert(calls(v@) =~= interpreter_probes(platform));
    v
}

/// Whether a probe could be started and named a third major version.
pub open spec fn names_python3(outcome: Option<Seq<char>>) -> bool {
    outcome.is_some() && contains(outcome.unwrap(), "Python 3"@)
}

/// The interpreter to use, given what each probe printed (`None` for a
/// probe that could not be started).
///
/// Elsewhere than on Windows `python3` is taken as soon as it starts.
/// Otherwise, and always on Windows, a candidate is taken when it names
/// a third major version. The search ends without a result at the first
/// candidate after `python3` that cannot be started.
pub open spec fn interpreter_found(
    platform: Platform,
    python3: Option<Seq<char>>,
    python: Option<Seq<char>>,
    py: Option<Seq<char>>,
) -> Option<Seq<char>> {
    match platform {
        Platform::Windows => {
            if names_python3(python3) {
                Some("python3"@)
            } else if python.is_none() {
                None
            } else if names_python3(python) {
                Some("python"@)
            } else if names_python3(py) {
                Some("py"@)
            } else {
                None
            }
        },
        Platform::Unix => {
            if python3.is_some() {
                Some("python3"@)
            } else if names_python3(python) {
                Some("python"@)
            } else {
                None
            }
        },
    }
}

fn names_third(outcome: &Option<String>) -> (r: bool)
    ensures
        r == names_python3(opt_text(*outcome)),
{
    match outcome {
        Some(out) => contains_text(out.as_str(), "Python 3"),
        None => false,
    }
}

/// Chooses the interpreter from what the probes printed.
pub fn python3_found(
    platform: Platform,
    python3: &Option<String>,
    python: &Option<String>,
    py: &Option<String>,
) -> (r: Option<String>)
    ensures
        opt_text(r) == interpreter_found(
            platform,
            opt_text(*python3),
            opt_text(*python),
            opt_text(*py),
        ),
{
    match platform {
        Platform::Windows => {
            if names_third(python3) {
                return Some(String::from_str("python3"));
            }
            if python.is_none() {
                return None;
            }
            if names_third(python) {
                return Some(String::from_str("python"));
            }
            if names_third(py) {
                return Some(String::from_str("py"));
            }
            None
        },
        Platform::Unix => {
            if python3.is_some() {
                return Some(String::from_str("python3"));
            }
            if names_third(python) {
                return Some(String::from_str("python"));
            }
            None
        },
    }
}

/// Whether the search for an interpreter goes on to the next candidate
/// after `tried` of them were probed, the last with `last` as its
/// outcome. It ends as soon as a candidate is taken, when a candidate
/// after `python3` cannot be started, and when none is left.
pub open spec fn search_goes_on(platform: Platform, tried: nat, last: Option<Seq<char>>) -> bool {
    match platform {
        Platform::Windows => {
            if tried == 1 {
                !names_python3(last)
            } else if tried == 2 {
                last.is_some() && !names_python3(last)
            } else {
                false
            }
        },
        Platform::Unix => tried == 1 && last.is_none(),
    }
}

/// Says whether another candidate is to be probed after `tried` of them,
/// the last with the outcome `last`.
pub fn another_probe_wanted(platform: Platform, tried: usize, last: &Option<String>) -> (r: bool)
    ensures
        r == search_goes_on(platform, tried as nat, opt_text(*last)),
{
    match platform {
        Platform::Windows => {
            if tried == 1 {
                !names_third(last)
            } else if tried == 2 {
                last.is_some() && !names_third(last)
            } else {
                false
            }
        },
        Platform::Unix => tried == 1 && last.is_none(),
    }
}

/// Where the search ends, the candidates that were not probed do not
/// matter: the interpreter found is the same whatever they would print.
pub proof fn unprobed_candidates_do_not_matter(
    platform: Platform,
    python3: Option<Seq<char>>,
    python: Option<Seq<char>>,
    py: Option<Seq<char>>,
    other_python: Option<Seq<char>>,
    other_py: Option<Seq<char>>,
)
    ensures
        !search_goes_on(platform, 1, python3) ==> interpreter_found(platform, python3, python, py)
            == interpreter_found(platform, python3, other_python, other_py),
        !search_goes_on(platform, 2, python) ==> interpreter_found(platform, python3, python, py)
            == interpreter_found(platform, python3, python, other_py),
        !search_goes_on(platform, 3, py),
{
}

/// The call that shows whether `interpreter` has `module`. The launcher
/// `py` of Windows is told the major version first.
pub open spec fn module_probe(platform: Platform, interpreter: Seq<char>, module: Seq<char>) -> InvocationView {
    if platform == Platform::Windows && interpreter == "py"@ {
        plain_call(interpreter, seq!["-3"@, "-m"@, module])
    } else {
        plain_call(interpreter, seq!["-m"@, module])
    }
}

fn probe_module(platform: Platform, interpreter: &str, module: &str) -> (r: Invocation)
    ensures
        r@ == module_probe(platform, interpreter@, module@),
{
    if platform == Platform::Windows && same_text(interpreter, "py") {
        plain(interpreter, list3("-3", "-m", module))
    } else {
        plain(interpreter, list2("-m", module))
    }
}

/// The call that shows whether `interpreter` can make environments.
pub fn venv_probe(platform: Platform, interpreter: &str) -> (r: Invocation)
    ensures
        r@ == module_probe(platform, interpreter@, "venv"@),
{
    probe_module(platform, interpreter, "venv")
}

/// The call that shows whether `interpreter` can install packages.
pub fn pip_probe(platform: Platform, interpreter: &str) -> (r: Invocation)
    ensures
        r@ == module_probe(platform, interpreter@, "pip"@),
{
    probe_module(platform, interpreter, "pip")
}

/// Something that must be on the machine.
#[derive(Clone, Copy, Debug, PartialEq, Eq, Structural)]
pub enum Prerequisite {
    Git,
    Python,
    Pip,
    Venv,
}

/// The first prerequisite that is missing, in the order in which they
/// are looked for.
pub open spec fn first_missing(git: bool, interpreter: bool, pip: bool, venv: bool) -> Option<
    Prerequisite,
> {
    if !git {
        Some(Prerequisite::Git)
    } else if !interpreter {
        Some(Prerequisite::Python)
    } else if !pip {
        Some(Prerequisite::Pip)
    } else if !venv {
        Some(Prerequisite::Venv)
    } else {
        None
    }
}

/// Names the first prerequisite that is missing, if any: `git` says
/// whether version control could be run, `interpreter` is the one that
/// was found, `pip` and `venv` say whether it has those modules.
pub fn missing_prerequisite(git: bool, interpreter: &Option<String>, pip: bool, venv: bool) -> (r:
    Option<Prerequisite>)
    ensures
        r == first_missing(git, interpreter.is_some(), pip, venv),
{
    if !git {
        Some(Prerequisite::Git)
    } else if interpreter.is_none() {
        Some(Prerequisite::Python)
    } else if !pip {
        Some(Prerequisite::Pip)
    } else if !venv {
        Some(Prerequisite::Venv)
    } else {
        None
    }
}

/// Whether everything a new project needs is on the machine.
pub fn prereqs_found(git: bool, interpreter: &Option<String>, pip: bool, venv: bool) -> (r: bool)
    ensures
        r == (git && interpreter.is_some() && pip && venv),
        r == first_missing(git, interpreter.is_some(), pip, venv).is_none(),
{
    missing_prerequisite(git, interpreter, pip, venv).is_none()
}

/// What the user is told when `missing` is not on the machine.
pub open spec fn missing_report(missing: Prerequisite) -> Seq<char> {
    match missing {
        Prerequisite::Git => "[-] Git not found, please install git and try again"@,
        Prerequisite::Python => "[-] Python 3 not found, please install python 3 and try again"@,
        Prerequisite::Pip => "[-] Python pip not found, please install python pip and try again"@,
        Prerequisite::Venv => "[-] Python venv not found, please install python venv and try again"@,
    }
}

/// Writes out what the user is told when `missing` is not on the machine.
pub fn describe_missing(missing: Prerequisite) -> (r: String)
    ensures
        r@ == missing_report(missing),
{
    match missing {
        Prerequisite::Git => String::from_str(
            "[-] Git not found, please install git and try again",
        ),
        Prerequisite::Python => String::from_str(
            "[-] Python 3 not found, please install python 3 and try again",
        ),
        Prerequisite::Pip => String::from_str(
            "[-] Python pip not found, please install python pip and try again",
        ),
        Prerequisite::Venv => String::from_str(
            "[-] Python venv not found, please install python venv and try again",
        ),
    }
}

/// The installer inside the environment at `directory`.
pub open spec fn installer_of(platform: Platform, directory: Seq<char>) -> Seq<char> {
    match platform {
        Platform::Windows => joined(platform, joined(platform, directory, "Scripts"@), "pip.exe"@),
        Platform::Unix => joined(platform, joined(platform, directory, "bin"@), "pip"@),
    }
}

/// The call that creates the environment at `directory`. On Windows the
/// interpreter that was found makes it, elsewhere `python3` does.
pub open spec fn environment_call(platform: Platform, interpreter: Seq<char>, directory: Seq<char>) -> InvocationView {
    match platform {
        Platform::Windows => plain_call(interpreter, seq!["-m"@, "venv"@, directory]),
        Platform::Unix => plain_call("python3"@, seq!["-m"@, "venv"@, directory]),
    }
}

/// The call that installs the binding builder into the environment at
/// `directory`; elsewhere than on Windows together with its helper.
pub open spec fn builder_install(platform: Platform, directory: Seq<char>) -> InvocationView {
    match platform {
        Platform::Windows => plain_call(
            installer_of(platform, directory),
            seq!["install"@, "maturin"@],
        ),
        Platform::Unix => plain_call(
            installer_of(platform, directory),
            seq!["install"@, "maturin[patchelf]"@],
        ),
    }
}

/// The calls that set up the environment at `directory`, in order: it is
/// created, and for a native project the binding builder is installed
/// into it. Each is made only if the one before succeeded.
pub open spec fn environment_setup(
    platform: Platform,
    interpreter: Seq<char>,
    directory: Seq<char>,
    language: Language,
) -> Seq<InvocationView> {
    match language {
        Language::Python => seq![environment_call(platform, interpreter, directory)],
        Language::Rust => seq![
            environment_call(platform, interpreter, directory),
            builder_install(platform, directory),
        ],
    }
}

/// The calls that set up a runtime environment at `directory`.
pub fn setup_venv(platform: Platform, interpreter: &str, directory: &str, language: Language) -> (r:
    Vec<Invocation>)
    ensures
        calls(r@) == environment_setup(platform, interpreter@, directory@, language),
{
    let mut v: Vec<Invocation> = Vec::new();
    match platform {
        Platform::Windows => {
            v.push(plain(interpreter, list3("-m", "venv", directory)));
        },
        Platform::Unix => {
            v.push(plain("python3", list3("-m", "venv", directory)));
        },
    }
    match language {
        Language::Python => {},
        Language::Rust => {
            match platform {
                Platform::Windows => {
                    let scripts = join(platform, directory, "Scripts");
                    let pip = join(platform, scripts.as_str(), "pip.exe");
                    v.push(plain(pip.as_str(), list2("install", "maturin")));
                },
                Platform::Unix => {
                    let bin = join(platform, directory, "bin");
                    let pip = join(platform, bin.as_str(), "pip");
                    v.push(plain(pip.as_str(), list2("install", "maturin[patchelf]")));
                },
            }
        },
    }
    assert(calls(v@) =~= environment_setup(platform, interpreter@, directory@, language));
    v
}

} // verus!
