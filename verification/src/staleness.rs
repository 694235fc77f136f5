//! Telling which projects lag behind the scaffold they were cloned from.
//!
//! The check advises only: it changes nothing and stops nothing.

use vstd::prelude::*;
use crate::command::{Invocation, call_in, calls, update_scaffolding};
use crate::config::ProjectConfig;
use crate::constants::VERSION;
use crate::paths::{Platform, scaffolding_dir};
use crate::text::{contains, contains_text, opt_text, same_text, texts, trim, trimmed};

verus! {

/// The revision that a query printed: what it printed without the white
/// space around it, and nothing where the query could not be made.
pub open spec fn revision_of(outcome: Option<Seq<char>>) -> Seq<char> {
    match outcome {
        Some(out) => trimmed(out),
        None => Seq::empty(),
    }
}

/// Reads the revision off what a query printed; `None` stands for a
/// query that could not be made.
pub fn scaffolding_revision(outcome: &Option<String>) -> (r: String)
    ensures
        r@ == revision_of(opt_text(*outcome)),
{
    match outcome {
        Some(out) => trim(out.as_str()),
        None => String::new(),
    }
}

/// Whether what the status query printed tells of changes that are not
/// committed: it does when it printed anything but white space. A query
/// that could not be made tells of none.
pub open spec fn tells_of_changes(status: Option<Seq<char>>) -> bool {
    match status {
        Some(out) => trimmed(out).len() > 0,
        None => false,
    }
}

/// Whether the scaffold holds changes that are not committed, given what
/// the status query printed in it; `None` stands for a query that could
/// not be made.
pub fn git_dirty(status: &Option<String>) -> (r: bool)
    ensures
        r == tells_of_changes(opt_text(*status)),
{
    match status {
        Some(out) => {
            let left = trim(out.as_str());
            left.as_str().unicode_len() > 0
        },
        None => false,
    }
}

/// How a project's scaffold stands to the remote one.
#[derive(Clone, Copy, Debug, PartialEq, Eq, Structural)]
pub enum Staleness {
    UpToDate,
    OutOfDate,
    /// Neither revision could be told, so nothing is known. Such a
    /// project is not listed as out of date, and not taken to be up to
    /// date either.
    Unknown,
}

/// A project is out of date when its scaffold stands at another
/// revision than the remote branch, or holds changes of its own.
pub open spec fn is_out_of_date(local: Seq<char>, remote: Seq<char>, dirty: bool) -> bool {
    local != remote || dirty
}

/// How a scaffold at revision `local` stands to the remote at `remote`.
pub open spec fn staleness_of(local: Seq<char>, remote: Seq<char>, dirty: bool) -> Staleness {
    if is_out_of_date(local, remote, dirty) {
        Staleness::OutOfDate
    } else if local.len() == 0 {
        Staleness::Unknown
    } else {
        Staleness::UpToDate
    }
}

/// Tells how a scaffold stands to the remote one.
pub fn staleness(local: &str, remote: &str, dirty: bool) -> (r: Staleness)
    ensures
        r == staleness_of(local@, remote@, dirty),
        (r == Staleness::OutOfDate) == is_out_of_date(local@, remote@, dirty),
{
    if dirty || !same_text(local, remote) {
        Staleness::OutOfDate
    } else if local.unicode_len() == 0 {
        Staleness::Unknown
    } else {
        Staleness::UpToDate
    }
}

/// What was found out about the scaffold of one project: what each of
/// the three queries printed, `None` for one that could not be made.
#[derive(Clone, Debug, PartialEq, Eq)]
pub struct ScaffoldProbe {
    /// What the query for the local revision printed.
    pub local: Option<String>,
    /// What the query for the remote revision printed.
    pub remote: Option<String>,
    /// What the query for changes that are not committed printed.
    pub status: Option<String>,
}

impl ScaffoldProbe {
    /// How the probed scaffold stands to the remote one.
    pub open spec fn standing(self) -> Staleness {
        staleness_of(
            revision_of(opt_text(self.local)),
            revision_of(opt_text(self.remote)),
            tells_of_changes(opt_text(self.status)),
        )
    }

    /// Tells how the probed scaffold stands to the remote one.
    pub fn verdict(&self) -> (r: Staleness)
        ensures
            r == self.standing(),
    {
        let local = scaffolding_revision(&self.local);
        let remote = scaffolding_revision(&self.remote);
        staleness(local.as_str(), remote.as_str(), git_dirty(&self.status))
    }
}

/// How the project at place `i` stands by `probes`, which holds the
/// probe of each project at the project's place. Of a project without a
/// probe nothing is known.
pub open spec fn standing_at(probes: Seq<ScaffoldProbe>, i: int) -> Staleness {
    if 0 <= i < probes.len() {
        probes[i].standing()
    } else {
        Staleness::Unknown
    }
}

/// The projects among the first `n` of `recents` that stand as `which`,
/// in their order.
pub open spec fn standing_among(
    recents: Seq<Seq<char>>,
    probes: Seq<ScaffoldProbe>,
    n: nat,
    which: Staleness,
) -> Seq<Seq<char>>
    decreases n,
{
    if n == 0 || n > recents.len() {
        Seq::empty()
    } else {
        let before = standing_among(recents, probes, (n - 1) as nat, which);
        if standing_at(probes, n - 1) == which {
            before.push(recents[n - 1])
        } else {
            before
        }
    }
}

fn projects_standing(cfg: &ProjectConfig, probes: &Vec<ScaffoldProbe>, which: Staleness) -> (r: Vec<
    String,
>)
    ensures
        texts(r@) == standing_among(cfg@.recents, probes@, cfg@.recents.len(), which),
{
    let mut out: Vec<String> = Vec::new();
    let mut i: usize = 0;
    assert(texts(out@) =~= standing_among(cfg@.recents, probes@, 0, which));
    while i < cfg.recents.len()
        invariant
            i <= cfg.recents.len(),
            texts(out@) == standing_among(cfg@.recents, probes@, i as nat, which),
        decreases cfg.recents.len() - i,
    {
        assert(cfg@.recents[i as int] == cfg.recents@[i as int]@);
        let found = if i < probes.len() {
            probes[i].verdict()
        } else {
            Staleness::Unknown
        };
        if found == which {
            let ghost so_far = out@;
            out.push(cfg.recents[i].clone());
            assert(texts(out@) =~= texts(so_far).push(cfg.recents@[i as int]@));
        }
        i = i + 1;
    }
    out
}

/// The recent projects that are out of date, in their order.
pub fn out_of_date_projects(cfg: &ProjectConfig, probes: &Vec<ScaffoldProbe>) -> (r: Vec<String>)
    ensures
        texts(r@) == standing_among(
            cfg@.recents,
            probes@,
            cfg@.recents.len(),
            Staleness::OutOfDate,
        ),
{
    projects_standing(cfg, probes, Staleness::OutOfDate)
}

/// The recent projects of which nothing is known, in their order:
/// neither revision could be told and no change was seen. They are not
/// among the projects that are out of date, and are to be reported as
/// what they are.
pub fn unknown_projects(cfg: &ProjectConfig, probes: &Vec<ScaffoldProbe>) -> (r: Vec<String>)
    ensures
        texts(r@) == standing_among(
            cfg@.recents,
            probes@,
            cfg@.recents.len(),
            Staleness::Unknown,
        ),
{
    projects_standing(cfg, probes, Staleness::Unknown)
}

/// A scaffold none of whose queries could be made, or none of which
/// printed anything, stands as unknown: it is neither up to date nor out
/// of date. One that holds changes is out of date whatever its revisions.
pub proof fn unqueried_scaffold_is_unknown(probe: ScaffoldProbe)
    ensures
        revision_of(opt_text(probe.local)).len() == 0 && revision_of(
            opt_text(probe.remote),
        ).len() == 0 && !tells_of_changes(opt_text(probe.status)) ==> probe.standing()
            == Staleness::Unknown,
        probe.local.is_none() && probe.remote.is_none() && probe.status.is_none()
            ==> probe.standing() == Staleness::Unknown,
        tells_of_changes(opt_text(probe.status)) ==> probe.standing() == Staleness::OutOfDate,
{
    let local = revision_of(opt_text(probe.local));
    let remote = revision_of(opt_text(probe.remote));
    if local.len() == 0 && remote.len() == 0 {
        assert(local =~= remote);
    }
}

/// The calls that bring each project of `out_of_date` up to date, one
/// list for each project, in order. A call that fails ends the update of
/// its own project only.
pub fn update_out_of_date_projects(platform: Platform, out_of_date: &Vec<String>) -> (r: Vec<
    Vec<Invocation>,
>)
    ensures
        r.len() == out_of_date.len(),
        forall|i: int|
            0 <= i < r.len() ==> calls((#[trigger] r[i])@) == seq![
                call_in("git"@, seq!["stash"@], scaffolding_dir(platform, out_of_date[i]@)),
                call_in(
                    "git"@,
                    seq!["pull"@, "origin"@, "main"@],
                    scaffolding_dir(platform, out_of_date[i]@),
                ),
            ],
{
    let mut out: Vec<Vec<Invocation>> = Vec::new();
    let mut i: usize = 0;
    while i < out_of_date.len()
        invariant
            i <= out_of_date.len(),
            out.len() == i,
            forall|k: int|
                0 <= k < i ==> calls((#[trigger] out[k])@) == seq![
                    call_in("git"@, seq!["stash"@], scaffolding_dir(platform, out_of_date[k]@)),
                    call_in(
                        "git"@,
                        seq!["pull"@, "origin"@, "main"@],
                        scaffolding_dir(platform, out_of_date[k]@),
                    ),
                ],
        decreases out_of_date.len() - i,
    {
        out.push(update_scaffolding(platform, out_of_date[i].as_str()));
        i = i + 1;
    }
    out
}

/// The line by which the registry lists the running version of the tool.
pub open spec fn current_listing() -> Seq<char> {
    "stourney = \""@ + VERSION@ + "\""@
}

/// Whether the tool itself is out of date, given what the search of the
/// registry printed: it is when the running version is not listed. A
/// search that could not be made says nothing.
pub fn check_for_updates(search_output: &Option<String>) -> (r: bool)
    ensures
        r == match opt_text(*search_output) {
            Some(out) => !contains(out, current_listing()),
            None => false,
        },
{
    match search_output {
        Some(out) => {
            let mut listing = String::from_str("stourney = \"");
            listing.append(VERSION);
            listing.append("\"");
            !contains_text(out.as_str(), listing.as_str())
        },
        None => false,
    }
}

} // verus!
