//! Building the binding artifact and installing it into a project's
//! runtime environment.

use vstd::prelude::*;
use crate::command::{Invocation, InvocationView};
use crate::paths::{
    Platform, binding_manifest, binding_manifest_path, interpreter_of, parts_components,
    plain_form, plain_path, python_interpreter_path, venv_binaries, venv_binaries_path,
};
use crate::snapshot::{FsSnapshot, FsView, relative_to_full_path};
use crate::text::{ends_with, texts};

verus! {

/// The search path with the environment's programs on it. Elsewhere than
/// on Windows they come first, so that the helper the builder needs is
/// found there.
pub open spec fn extended_path(platform: Platform, old_path: Seq<char>, binaries: Seq<char>) -> Seq<
    char,
> {
    match platform {
        Platform::Windows => old_path + ";"@ + binaries,
        Platform::Unix => binaries + ":"@ + old_path,
    }
}

/// Puts the environment's programs on the search path.
pub fn extend_path(platform: Platform, old_path: &str, binaries: &str) -> (r: String)
    ensures
        r@ == extended_path(platform, old_path@, binaries@),
{
    match platform {
        Platform::Windows => {
            let mut out = String::from_str(old_path);
            out.append(";");
            out.append(binaries);
            out
        },
        Platform::Unix => {
            let mut out = String::from_str(binaries);
            out.append(":");
            out.append(old_path);
            out
        },
    }
}

/// The call of the binding builder: a release build of `manifest` that
/// leaves its artifact in `binaries`, run there.
pub open spec fn builder_call(
    platform: Platform,
    manifest: Seq<char>,
    binaries: Seq<char>,
    old_path: Seq<char>,
) -> InvocationView {
    InvocationView {
        program: "maturin"@,
        args: seq![
            "build"@,
            "--release"@,
            "--manifest-path"@,
            manifest,
            "--out"@,
            binaries,
            "--interpreter"@,
            "./python"@,
        ],
        working_dir: Some(binaries),
        search_path: Some(extended_path(platform, old_path, binaries)),
    }
}

/// The call that builds the bindings of the project at `directory`, where
/// both the environment's programs and the binding manifest exist; they
/// enter the call in their absolute form.
pub open spec fn binding_build(fs: FsView, directory: Seq<char>, old_path: Seq<char>) -> Option<
    InvocationView,
> {
    let binaries = fs.full_path(venv_binaries(fs.platform, directory));
    let manifest = fs.full_path(binding_manifest(fs.platform, directory));
    if binaries.is_some() && manifest.is_some() {
        Some(builder_call(fs.platform, manifest.unwrap(), binaries.unwrap(), old_path))
    } else {
        None
    }
}

/// The view of an optional invocation.
pub open spec fn opt_call(o: Option<Invocation>) -> Option<InvocationView> {
    match o {
        Some(c) => Some(c@),
        None => None,
    }
}

/// The call that builds the bindings for the half-made project at
/// `directory`, with `old_path` the search path of the caller. `None`
/// where the environment or the scaffold is not in place.
pub fn maturin_build(fs: &FsSnapshot, directory: &str, old_path: &str) -> (r: Option<Invocation>)
    ensures
        opt_call(r) == binding_build(fs@, directory@, old_path@),
{
    let platform = fs.platform;
    let binaries_written = venv_binaries_path(platform, directory);
    let binaries = match relative_to_full_path(fs, binaries_written.as_str()) {
        Some(b) => b,
        None => {
            return None;
        },
    };
    let manifest_written = binding_manifest_path(platform, directory);
    let manifest = match relative_to_full_path(fs, manifest_written.as_str()) {
        Some(m) => m,
        None => {
            return None;
        },
    };
    let new_path = extend_path(platform, old_path, binaries.as_str());
    let mut args: Vec<String> = Vec::new();
    args.push(String::from_str("build"));
    args.push(String::from_str("--release"));
    args.push(String::from_str("--manifest-path"));
    args.push(manifest);
    args.push(String::from_str("--out"));
    args.push(binaries.clone());
    args.push(String::from_str("--interpreter"));
    args.push(String::from_str("./python"));
    assert(texts(args@) =~= builder_call(platform, manifest@, binaries@, old_path@).args);
    Some(
        Invocation {
            program: String::from_str("maturin"),
            args,
            working_dir: Some(binaries),
            search_path: Some(new_path),
        },
    )
}

/// Whether `path` names a packaged binding: its file name ends in
/// `.whl` and has something before that ending.
pub open spec fn is_wheel(platform: Platform, path: Seq<char>) -> bool {
    &&& ".whl"@.is_suffix_of(path)
    &&& path.len() > ".whl"@.len()
    &&& !parts_components(platform, path[path.len() - ".whl"@.len() - 1])
}

/// Whether `path` names a packaged binding.
pub fn names_wheel(platform: Platform, path: &str) -> (r: bool)
    ensures
        r == is_wheel(platform, path@),
{
    proof {
        reveal_strlit(".whl");
    }
    let n: usize = path.unicode_len();
    if n <= 4 || !ends_with(path, ".whl") {
        return false;
    }
    let before: char = path.get_char(n - 5);
    !(before == '/' || (platform == Platform::Windows && before == '\\'))
}

/// Finds the packaged binding among the entries of the directory it was
/// built into: the place of the first entry that names one.
pub fn find_wheel(platform: Platform, entries: &Vec<String>) -> (r: Option<usize>)
    ensures
        match r {
            Some(i) => i < entries.len() && is_wheel(platform, entries[i as int]@) && forall|
                j: int,
            |
                0 <= j < i ==> !is_wheel(platform, #[trigger] entries[j]@),
            None => forall|j: int|
                0 <= j < entries.len() ==> !is_wheel(platform, #[trigger] entries[j]@),
        },
{
    let mut i: usize = 0;
    while i < entries.len()
        invariant
            i <= entries.len(),
            forall|j: int| 0 <= j < i ==> !is_wheel(platform, #[trigger] entries[j]@),
        decreases entries.len() - i,
    {
        if names_wheel(platform, entries[i].as_str()) {
            return Some(i);
        }
        i = i + 1;
    }
    None
}

/// The call that installs the packaged binding `wheel` into the
/// environment of the project at `directory`, over what is installed.
pub open spec fn wheel_install(platform: Platform, directory: Seq<char>, wheel: Seq<char>) -> InvocationView {
    InvocationView {
        program: interpreter_of(platform, directory),
        args: seq![
            "-m"@,
            "pip"@,
            "install"@,
            plain_form(platform, wheel),
            "--force-reinstall"@,
        ],
        working_dir: None,
        search_path: None,
    }
}

/// The call that installs the packaged binding into the environment.
pub fn install_wheel(platform: Platform, directory: &str, wheel: &str) -> (r: Invocation)
    ensures
        r@ == wheel_install(platform, directory@, wheel@),
{
    let mut args: Vec<String> = Vec::new();
    args.push(String::from_str("-m"));
    args.push(String::from_str("pip"));
    args.push(String::from_str("install"));
    args.push(plain_path(platform, wheel));
    args.push(String::from_str("--force-reinstall"));
    assert(texts(args@) =~= wheel_install(platform, directory@, wheel@).args);
    Invocation {
        program: python_interpreter_path(platform, directory),
        args,
        working_dir: None,
        search_path: None,
    }
}

} // verus!
