//! Where the parts of a competitor project lie, as text.

use vstd::prelude::*;
use crate::text::{starts_with, skip_chars};

verus! {

/// The family of operating system the tool runs on.
#[derive(Clone, Copy, Debug, PartialEq, Eq, Structural)]
pub enum Platform {
    Windows,
    Unix,
}

/// The character that `platform` puts between the parts of a path.
pub open spec fn separator(platform: Platform) -> char {
    match platform {
        Platform::Windows => '\\',
        Platform::Unix => '/',
    }
}

/// Whether `platform` reads `c` as parting two components.
pub open spec fn parts_components(platform: Platform, c: char) -> bool {
    c == '/' || (platform == Platform::Windows && c == '\\')
}

/// `name` below `base`: a separator is put between them unless `base` is
/// empty or ends in one already.
pub open spec fn joined(platform: Platform, base: Seq<char>, name: Seq<char>) -> Seq<char> {
    if base.len() == 0 {
        name
    } else if parts_components(platform, base.last()) {
        base + name
    } else {
        base.push(separator(platform)) + name
    }
}

/// The path of the relative `name` below `base`.
pub fn join(platform: Platform, base: &str, name: &str) -> (r: String)
    ensures
        r@ == joined(platform, base@, name@),
{
    let n: usize = base.unicode_len();
    if n == 0 {
        return String::from_str(name);
    }
    let last: char = base.get_char(n - 1);
    let ends_parted: bool = last == '/' || (platform == Platform::Windows && last == '\\');
    let mut out = String::from_str(base);
    if !ends_parted {
        proof {
            reveal_strlit("\\");
            reveal_strlit("/");
        }
        match platform {
            Platform::Windows => out.append("\\"),
            Platform::Unix => out.append("/"),
        }
        assert(out@ =~= base@.push(separator(platform)));
    }
    out.append(name);
    out
}

/// The directory that holds the scaffold of a project.
pub open spec fn lib_dir(platform: Platform, project: Seq<char>) -> Seq<char> {
    joined(platform, project, "lib"@)
}

/// The directory that holds the runtime environment of a project.
pub open spec fn venv_dir(platform: Platform, project: Seq<char>) -> Seq<char> {
    joined(platform, project, "venv"@)
}

/// The script entry point of a project.
pub open spec fn script_entry(platform: Platform, project: Seq<char>) -> Seq<char> {
    joined(platform, project, "bot.py"@)
}

/// The native build manifest of a project.
pub open spec fn native_manifest(platform: Platform, project: Seq<char>) -> Seq<char> {
    joined(platform, project, "Cargo.toml"@)
}

/// The directory of the scaffold proper, below `lib`.
pub open spec fn scaffolding_dir(platform: Platform, project: Seq<char>) -> Seq<char> {
    joined(platform, lib_dir(platform, project), "scaffolding"@)
}

/// The directory in which the runtime environment keeps its programs.
pub open spec fn venv_binaries(platform: Platform, project: Seq<char>) -> Seq<char> {
    match platform {
        Platform::Windows => joined(platform, venv_dir(platform, project), "Scripts"@),
        Platform::Unix => joined(platform, venv_dir(platform, project), "bin"@),
    }
}

/// The interpreter of the project's runtime environment.
pub open spec fn interpreter_of(platform: Platform, project: Seq<char>) -> Seq<char> {
    match platform {
        Platform::Windows => joined(platform, venv_binaries(platform, project), "python.exe"@),
        Platform::Unix => joined(platform, venv_binaries(platform, project), "python3"@),
    }
}

/// The executable that a release build of a native project leaves.
pub open spec fn native_binary(platform: Platform, project: Seq<char>) -> Seq<char> {
    joined(
        platform,
        joined(platform, joined(platform, project, "target"@), "release"@),
        "rust_client"@,
    )
}

/// The static files of the scaffold's front end.
pub open spec fn static_files(platform: Platform, project: Seq<char>) -> Seq<char> {
    joined(platform, scaffolding_dir(platform, project), "frontend"@)
}

/// The manifest of the binding source inside the scaffold.
pub open spec fn binding_manifest(platform: Platform, project: Seq<char>) -> Seq<char> {
    joined(
        platform,
        joined(platform, scaffolding_dir(platform, project), "python_ffi"@),
        "Cargo.toml"@,
    )
}

/// The directory that holds the scaffold of the project at
/// `project_directory`.
pub fn lib_path(platform: Platform, project_directory: &str) -> (r: String)
    ensures
        r@ == lib_dir(platform, project_directory@),
{
    join(platform, project_directory, "lib")
}

/// The directory that holds the runtime environment of the project at
/// `project_directory`.
pub fn venv_path(platform: Platform, project_directory: &str) -> (r: String)
    ensures
        r@ == venv_dir(platform, project_directory@),
{
    join(platform, project_directory, "venv")
}

/// The directory of the scaffold proper of the project at
/// `project_directory`.
pub fn scaffolding_path(platform: Platform, project_directory: &str) -> (r: String)
    ensures
        r@ == scaffolding_dir(platform, project_directory@),
{
    let lib = lib_path(platform, project_directory);
    join(platform, lib.as_str(), "scaffolding")
}

/// The directory in which the runtime environment of the project at
/// `project_directory` keeps its programs.
pub fn venv_binaries_path(platform: Platform, project_directory: &str) -> (r: String)
    ensures
        r@ == venv_binaries(platform, project_directory@),
{
    let venv = venv_path(platform, project_directory);
    match platform {
        Platform::Windows => join(platform, venv.as_str(), "Scripts"),
        Platform::Unix => join(platform, venv.as_str(), "bin"),
    }
}

/// The interpreter inside the project's runtime environment.
pub fn python_interpreter_path(platform: Platform, project_directory: &str) -> (r: String)
    ensures
        r@ == interpreter_of(platform, project_directory@),
{
    let bin = venv_binaries_path(platform, project_directory);
    match platform {
        Platform::Windows => join(platform, bin.as_str(), "python.exe"),
        Platform::Unix => join(platform, bin.as_str(), "python3"),
    }
}

/// The script that a script project is started by.
pub fn python_binary_path(platform: Platform, project_directory: &str) -> (r: String)
    ensures
        r@ == script_entry(platform, project_directory@),
{
    join(platform, project_directory, "bot.py")
}

/// The manifest that marks a native project.
pub fn manifest_path(platform: Platform, project_directory: &str) -> (r: String)
    ensures
        r@ == native_manifest(platform, project_directory@),
{
    join(platform, project_directory, "Cargo.toml")
}

/// Where a release build leaves the executable of a native project,
/// as written from `project_directory`.
pub fn release_binary_path(platform: Platform, project_directory: &str) -> (r: String)
    ensures
        r@ == native_binary(platform, project_directory@),
{
    let target = join(platform, project_directory, "target");
    let release = join(platform, target.as_str(), "release");
    join(platform, release.as_str(), "rust_client")
}

/// The front end's static files, as written from `project_directory`.
pub fn frontend_path(platform: Platform, project_directory: &str) -> (r: String)
    ensures
        r@ == static_files(platform, project_directory@),
{
    let scaffolding = scaffolding_path(platform, project_directory);
    join(platform, scaffolding.as_str(), "frontend")
}

/// The manifest of the binding source, as written from `project_directory`.
pub fn binding_manifest_path(platform: Platform, project_directory: &str) -> (r: String)
    ensures
        r@ == binding_manifest(platform, project_directory@),
{
    let scaffolding = scaffolding_path(platform, project_directory);
    let ffi = join(platform, scaffolding.as_str(), "python_ffi");
    join(platform, ffi.as_str(), "Cargo.toml")
}

/// The mark that Windows puts before a canonical path.
pub open spec fn verbatim_mark() -> Seq<char> {
    seq!['\\', '\\', '?', '\\']
}

/// A canonical path as the tool keeps it: on Windows without the
/// verbatim mark in front, elsewhere as it is.
pub open spec fn plain_form(platform: Platform, canonical: Seq<char>) -> Seq<char> {
    if platform == Platform::Windows && verbatim_mark().is_prefix_of(canonical) {
        canonical.skip(4)
    } else {
        canonical
    }
}

/// Brings a canonical path into the form the tool keeps.
pub fn plain_path(platform: Platform, canonical: &str) -> (r: String)
    ensures
        r@ == plain_form(platform, canonical@),
{
    proof {
        reveal_strlit("\\\\?\\");
        assert("\\\\?\\"@ =~= verbatim_mark());
    }
    if platform == Platform::Windows && starts_with(canonical, "\\\\?\\") {
        skip_chars(canonical, 4)
    } else {
        String::from_str(canonical)
    }
}

} // verus!
