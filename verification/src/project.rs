//! Telling whether a directory is a competitor project, and of which kind.

use vstd::prelude::*;
use crate::paths::{
    Platform, lib_dir, lib_path, manifest_path, native_manifest, python_binary_path,
    script_entry, venv_dir, venv_path,
};
use crate::snapshot::{EntryKind, FsSnapshot, FsView};
use crate::text::texts;

verus! {

/// The kind of a competitor project.
#[derive(Clone, Copy, Debug, PartialEq, Eq, Structural)]
pub enum ProjectType {
    /// Started through the interpreter of its runtime environment.
    Python,
    /// Built by the native toolchain and started directly.
    Rust,
    Unknown,
}

/// The language a new project is written in.
#[derive(Clone, Copy, Debug, PartialEq, Eq, Structural)]
pub enum Language {
    Python,
    Rust,
}

/// The first thing found wrong with a directory that is no project.
#[derive(Clone, Copy, Debug, PartialEq, Eq, Structural)]
pub enum ProjectFault {
    Missing,
    NotDirectory,
    NoLib,
    NoVenv,
    UnknownType,
}

/// The kind of the project at `directory`: a script entry point decides
/// before a native manifest does.
pub open spec fn project_type(fs: FsView, directory: Seq<char>) -> ProjectType {
    if fs.is_present(script_entry(fs.platform, directory)) {
        ProjectType::Python
    } else if fs.is_present(native_manifest(fs.platform, directory)) {
        ProjectType::Rust
    } else {
        ProjectType::Unknown
    }
}

/// `directory` is a competitor project: a directory that holds a `lib`
/// and a `venv` directory and whose kind can be told.
pub open spec fn is_project(fs: FsView, directory: Seq<char>) -> bool {
    &&& fs.is_present(directory)
    &&& fs.is_dir(directory)
    &&& fs.is_dir(lib_dir(fs.platform, directory))
    &&& fs.is_dir(venv_dir(fs.platform, directory))
    &&& project_type(fs, directory) != ProjectType::Unknown
}

/// The first check that `directory` fails, in the order in which they are made.
pub open spec fn project_fault(fs: FsView, directory: Seq<char>) -> Option<ProjectFault> {
    if !fs.is_present(directory) {
        Some(ProjectFault::Missing)
    } else if !fs.is_dir(directory) {
        Some(ProjectFault::NotDirectory)
    } else if !fs.is_dir(lib_dir(fs.platform, directory)) {
        Some(ProjectFault::NoLib)
    } else if !fs.is_dir(venv_dir(fs.platform, directory)) {
        Some(ProjectFault::NoVenv)
    } else if project_type(fs, directory) == ProjectType::Unknown {
        Some(ProjectFault::UnknownType)
    } else {
        None
    }
}

/// What is said of `directory` when it fails with `fault`.
pub open spec fn fault_report(fault: ProjectFault, directory: Seq<char>) -> Seq<Seq<char>> {
    match fault {
        ProjectFault::Missing => seq!["[-] Directory "@ + directory + " does not exist"@],
        ProjectFault::NotDirectory => seq!["[-] Path "@ + directory + " is not a directory"@],
        ProjectFault::NoLib => seq![
            "[-] Directory "@ + directory + " does not contain a lib directory"@,
        ],
        ProjectFault::NoVenv => seq![
            "[-] Directory "@ + directory + " does not contain a venv directory"@,
        ],
        ProjectFault::UnknownType => seq![
            "[-] Directory "@ + directory + " is invalid"@,
            "[-] Expected a Cargo.toml or bot.py file"@,
        ],
    }
}

/// What a check says: nothing unless it is verbose and finds a fault.
pub open spec fn check_report(fs: FsView, directory: Seq<char>, verbose: bool) -> Seq<Seq<char>> {
    match project_fault(fs, directory) {
        Some(fault) if verbose => fault_report(fault, directory),
        _ => Seq::empty(),
    }
}

/// The paths whose state decides whether `directory` is a project.
pub open spec fn probed(platform: Platform, directory: Seq<char>) -> Seq<Seq<char>> {
    seq![
        directory,
        lib_dir(platform, directory),
        venv_dir(platform, directory),
        script_entry(platform, directory),
        native_manifest(platform, directory),
    ]
}

/// The paths to look up before `directory` is checked.
pub fn probe_paths(platform: Platform, directory: &str) -> (r: Vec<String>)
    ensures
        texts(r@) == probed(platform, directory@),
{
    let mut out: Vec<String> = Vec::new();
    out.push(String::from_str(directory));
    out.push(lib_path(platform, directory));
    out.push(venv_path(platform, directory));
    out.push(python_binary_path(platform, directory));
    out.push(manifest_path(platform, directory));
    assert(texts(out@) =~= probed(platform, directory@));
    out
}

/// Guesses the kind of the project at `directory` from what it holds.
pub fn guess_project_type(fs: &FsSnapshot, directory: &str) -> (r: ProjectType)
    ensures
        r == project_type(fs@, directory@),
{
    let script = python_binary_path(fs.platform, directory);
    if fs.is_present(script.as_str()) {
        return ProjectType::Python;
    }
    let manifest = manifest_path(fs.platform, directory);
    if fs.is_present(manifest.as_str()) {
        return ProjectType::Rust;
    }
    ProjectType::Unknown
}

/// Finds the first check that `directory` fails, if any.
pub fn find_fault(fs: &FsSnapshot, directory: &str) -> (r: Option<ProjectFault>)
    ensures
        r == project_fault(fs@, directory@),
        r.is_none() == is_project(fs@, directory@),
{
    match fs.kind_of(directory) {
        EntryKind::Missing => {
            return Some(ProjectFault::Missing);
        },
        EntryKind::File => {
            return Some(ProjectFault::NotDirectory);
        },
        EntryKind::Directory => {},
    }
    let lib = lib_path(fs.platform, directory);
    if !fs.is_dir(lib.as_str()) {
        return Some(ProjectFault::NoLib);
    }
    let venv = venv_path(fs.platform, directory);
    if !fs.is_dir(venv.as_str()) {
        return Some(ProjectFault::NoVenv);
    }
    match guess_project_type(fs, directory) {
        ProjectType::Unknown => Some(ProjectFault::UnknownType),
        _ => None,
    }
}

fn prefixed(head: &str, directory: &str, tail: &str) -> (r: String)
    ensures
        r@ == head@ + directory@ + tail@,
{
    let mut out = String::from_str(head);
    out.append(directory);
    out.append(tail);
    out
}

/// Writes out what is said of `directory` when it fails with `fault`.
pub fn describe_fault(fault: ProjectFault, directory: &str) -> (r: Vec<String>)
    ensures
        texts(r@) == fault_report(fault, directory@),
{
    let mut out: Vec<String> = Vec::new();
    match fault {
        ProjectFault::Missing => {
            out.push(prefixed("[-] Directory ", directory, " does not exist"));
        },
        ProjectFault::NotDirectory => {
            out.push(prefixed("[-] Path ", directory, " is not a directory"));
        },
        ProjectFault::NoLib => {
            out.push(prefixed("[-] Directory ", directory, " does not contain a lib directory"));
        },
        ProjectFault::NoVenv => {
            out.push(prefixed("[-] Directory ", directory, " does not contain a venv directory"));
        },
        ProjectFault::UnknownType => {
            out.push(prefixed("[-] Directory ", directory, " is invalid"));
            out.push(String::from_str("[-] Expected a Cargo.toml or bot.py file"));
        },
    }
    assert(texts(out@) =~= fault_report(fault, directory@));
    out
}

/// Checks whether `directory` is a competitor project. A verbose check
/// that fails adds to `report` what it found wrong: the first fault only.
pub fn check_project(fs: &FsSnapshot, directory: &str, verbose: bool, report: &mut Vec<String>) -> (r:
    bool)
    ensures
        r == is_project(fs@, directory@),
        texts(final(report)@) == texts(old(report)@) + check_report(fs@, directory@, verbose),
{
    match find_fault(fs, directory) {
        Some(fault) => {
            if verbose {
                let mut lines = describe_fault(fault, directory);
                let ghost before = report@;
                let ghost added = lines@;
                report.append(&mut lines);
                assert(texts(report@) =~= texts(before) + texts(added));
            } else {
                assert(texts(report@) =~= texts(report@) + Seq::<Seq<char>>::empty());
            }
            false
        },
        None => {
            assert(texts(report@) =~= texts(report@) + Seq::<Seq<char>>::empty());
            true
        },
    }
}

/// A directory fails the check when it is missing, is a file, lacks its
/// `lib` or its `venv` directory, or holds neither a script entry point
/// nor a native manifest.
pub proof fn faulty_directories_fail(fs: FsView, directory: Seq<char>)
    ensures
        !fs.is_present(directory) ==> !is_project(fs, directory),
        fs.kind_at(directory) == EntryKind::File ==> !is_project(fs, directory),
        !fs.is_dir(lib_dir(fs.platform, directory)) ==> !is_project(fs, directory),
        !fs.is_dir(venv_dir(fs.platform, directory)) ==> !is_project(fs, directory),
        (!fs.is_present(script_entry(fs.platform, directory)) && !fs.is_present(
            native_manifest(fs.platform, directory),
        )) ==> !is_project(fs, directory),
        is_project(fs, directory) <==> project_fault(fs, directory).is_none(),
{
}

/// A directory that holds a script entry point is a script project,
/// whether or not it holds a native manifest too.
pub proof fn script_entry_decides_first(fs: FsView, directory: Seq<char>)
    requires
        fs.is_present(script_entry(fs.platform, directory)),
    ensures
        project_type(fs, directory) == ProjectType::Python,
{
}

/// Two snapshots that agree on the probed paths of `directory` agree on
/// its kind and on what is wrong with it.
pub proof fn check_reads_probed_paths_only(a: FsView, b: FsView, directory: Seq<char>)
    requires
        a.platform == b.platform,
        forall|i: int|
            0 <= i < probed(a.platform, directory).len() ==> a.kind_at(
                #[trigger] probed(a.platform, directory)[i],
            ) == b.kind_at(probed(a.platform, directory)[i]),
    ensures
        project_type(a, directory) == project_type(b, directory),
        project_fault(a, directory) == project_fault(b, directory),
        is_project(a, directory) == is_project(b, directory),
{
    let p = probed(a.platform, directory);
    assert(p[0] == directory);
    assert(p[1] == lib_dir(a.platform, directory));
    assert(p[2] == venv_dir(a.platform, directory));
    assert(p[3] == script_entry(a.platform, directory));
    assert(p[4] == native_manifest(a.platform, directory));
}

} // verus!
