//! The calls of outside tools, as values.
//!
//! The library starts no process. It says which program is to be run,
//! with which arguments, where, and with which search path; the caller
//! runs it and reports how it went.

use vstd::prelude::*;
use crate::paths::{Platform, scaffolding_dir, scaffolding_path};
use crate::text::{opt_text, texts};

verus! {

/// One call of an outside tool.
#[derive(Clone, Debug, PartialEq, Eq)]
pub struct Invocation {
    pub program: String,
    pub args: Vec<String>,
    /// The directory to run in; the caller's own where there is none.
    pub working_dir: Option<String>,
    /// The search path to run with; the caller's own where there is none.
    pub search_path: Option<String>,
}

/// The mathematical content of an invocation.
pub struct InvocationView {
    pub program: Seq<char>,
    pub args: Seq<Seq<char>>,
    pub working_dir: Option<Seq<char>>,
    pub search_path: Option<Seq<char>>,
}

impl View for Invocation {
    type V = InvocationView;

    open spec fn view(&self) -> InvocationView {
        InvocationView {
            program: self.program@,
            args: texts(self.args@),
            working_dir: opt_text(self.working_dir),
            search_path: opt_text(self.search_path),
        }
    }
}

/// The views of a list of invocations, in order.
pub open spec fn calls(v: Seq<Invocation>) -> Seq<InvocationView> {
    v.map_values(|c: Invocation| c@)
}

/// A call of `program` with `args`, in the caller's directory.
pub open spec fn plain_call(program: Seq<char>, args: Seq<Seq<char>>) -> InvocationView {
    InvocationView { program, args, working_dir: None, search_path: None }
}

/// A call of `program` with `args`, in the directory `dir`.
pub open spec fn call_in(program: Seq<char>, args: Seq<Seq<char>>, dir: Seq<char>) -> InvocationView {
    InvocationView { program, args, working_dir: Some(dir), search_path: None }
}

pub(crate) fn list1(a: &str) -> (r: Vec<String>)
    ensures
        texts(r@) == seq![a@],
{
    let mut v: Vec<String> = Vec::new();
    v.push(String::from_str(a));
    assert(texts(v@) =~= seq![a@]);
    v
}

pub(crate) fn list2(a: &str, b: &str) -> (r: Vec<String>)
    ensures
        texts(r@) == seq![a@, b@],
{
    let mut v: Vec<String> = Vec::new();
    v.push(String::from_str(a));
    v.push(String::from_str(b));
    assert(texts(v@) =~= seq![a@, b@]);
    v
}

pub(crate) fn list3(a: &str, b: &str, c: &str) -> (r: Vec<String>)
    ensures
        texts(r@) == seq![a@, b@, c@],
{
    let mut v: Vec<String> = Vec::new();
    v.push(String::from_str(a));
    v.push(String::from_str(b));
    v.push(String::from_str(c));
    assert(texts(v@) =~= seq![a@, b@, c@]);
    v
}

pub(crate) fn plain(program: &str, args: Vec<String>) -> (r: Invocation)
    ensures
        r@ == plain_call(program@, texts(args@)),
{
    Invocation { program: String::from_str(program), args, working_dir: None, search_path: None }
}

pub(crate) fn inside(program: &str, args: Vec<String>, dir: &str) -> (r: Invocation)
    ensures
        r@ == call_in(program@, texts(args@), dir@),
{
    Invocation {
        program: String::from_str(program),
        args,
        working_dir: Some(String::from_str(dir)),
        search_path: None,
    }
}

/// The call that shows whether version control can be run: `git version`.
pub fn git_probe() -> (r: Invocation)
    ensures
        r@ == plain_call("git"@, seq!["version"@]),
{
    plain("git", list1("version"))
}

/// The call that clones `repo_url` into `subdirectory`.
pub fn clone_repo(subdirectory: &str, repo_url: &str) -> (r: Invocation)
    ensures
        r@ == plain_call("git"@, seq!["clone"@, repo_url@, subdirectory@]),
{
    plain("git", list3("clone", repo_url, subdirectory))
}

/// The call that builds the native project in `project_directory` in
/// release mode.
pub fn build_rust_project(project_directory: &str) -> (r: Invocation)
    ensures
        r@ == call_in("cargo"@, seq!["build"@, "--release"@], project_directory@),
{
    inside("cargo", list2("build", "--release"), project_directory)
}

/// The call that asks the registry for the published version of the tool.
pub fn update_probe() -> (r: Invocation)
    ensures
        r@ == plain_call("cargo"@, seq!["search"@, "stourney"@]),
{
    plain("cargo", list2("search", "stourney"))
}

/// The call that names the revision the scaffold of `directory` stands at.
pub fn current_scaffolding_version(platform: Platform, directory: &str) -> (r: Invocation)
    ensures
        r@ == call_in(
            "git"@,
            seq!["rev-parse"@, "HEAD"@],
            scaffolding_dir(platform, directory@),
        ),
{
    let scaffolding = scaffolding_path(platform, directory);
    inside("git", list2("rev-parse", "HEAD"), scaffolding.as_str())
}

/// The call that names the revision of the remote branch that the
/// scaffold of `directory` follows.
pub fn current_scaffolding_remote_version(platform: Platform, directory: &str) -> (r: Invocation)
    ensures
        r@ == call_in(
            "git"@,
            seq!["rev-parse"@, "origin/main"@],
            scaffolding_dir(platform, directory@),
        ),
{
    let scaffolding = scaffolding_path(platform, directory);
    inside("git", list2("rev-parse", "origin/main"), scaffolding.as_str())
}

/// The call that lists the changes in the scaffold of `directory` that
/// are not committed, one to a line; it prints nothing where there are
/// none.
pub fn current_scaffolding_status(platform: Platform, directory: &str) -> (r: Invocation)
    ensures
        r@ == call_in(
            "git"@,
            seq!["status"@, "--porcelain"@],
            scaffolding_dir(platform, directory@),
        ),
{
    let scaffolding = scaffolding_path(platform, directory);
    inside("git", list2("status", "--porcelain"), scaffolding.as_str())
}

/// The calls that bring the scaffold of `directory` up to date, in the
/// order in which they are made: local changes are stashed, then the
/// followed branch is pulled. The second is made only if the first
/// succeeded.
pub fn update_scaffolding(platform: Platform, directory: &str) -> (r: Vec<Invocation>)
    ensures
        calls(r@) == seq![
            call_in("git"@, seq!["stash"@], scaffolding_dir(platform, directory@)),
            call_in(
                "git"@,
                seq!["pull"@, "origin"@, "main"@],
                scaffolding_dir(platform, directory@),
            ),
        ],
{
    let scaffolding = scaffolding_path(platform, directory);
    let mut v: Vec<Invocation> = Vec::new();
    v.push(inside("git", list1("stash"), scaffolding.as_str()));
    v.push(inside("git", list3("pull", "origin", "main"), scaffolding.as_str()));
    assert(calls(v@) =~= seq![
        call_in("git"@, seq!["stash"@], scaffolding_dir(platform, directory@)),
        call_in("git"@, seq!["pull"@, "origin"@, "main"@], scaffolding_dir(platform, directory@)),
    ]);
    v
}

} // verus!
