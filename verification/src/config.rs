//! The versioned configuration record and the list of recent projects.

use vstd::prelude::*;
use crate::constants::{DEFAULT_PORT, VERSION};
use crate::project::{check_project, is_project};
use crate::snapshot::{FsSnapshot, FsView, relative_to_full_path};
use crate::lists::{
    filter_by_last, filter_keeps_all, filter_keeps_distinct, filter_of_full_length, filter_places,
    rises,
};
use crate::text::{same_text, texts};

verus! {

/// The configuration that is kept between runs.
///
/// Fields are only ever added, each with a default, so that a record
/// written by an older version still reads.
#[derive(Clone, Debug, PartialEq, Eq)]
pub struct ProjectConfig {
    /// The version that wrote the record; current when it equals `VERSION`.
    pub version: String,
    /// The key that authenticates against the global server.
    pub api_key: String,
    /// The interpreter to run projects with. No longer used.
    pub interpreter: String,
    /// The projects that take part in a match, in seating order.
    pub selected_projects: Vec<String>,
    /// The projects seen so far, most recent first, none twice.
    pub recents: Vec<String>,
    /// The port a local server runs on.
    pub port: u16,
}

/// The mathematical content of a configuration.
pub struct ConfigView {
    pub version: Seq<char>,
    pub api_key: Seq<char>,
    pub interpreter: Seq<char>,
    pub selected_projects: Seq<Seq<char>>,
    pub recents: Seq<Seq<char>>,
    pub port: u16,
}

impl View for ProjectConfig {
    type V = ConfigView;

    open spec fn view(&self) -> ConfigView {
        ConfigView {
            version: self.version@,
            api_key: self.api_key@,
            interpreter: self.interpreter@,
            selected_projects: texts(self.selected_projects@),
            recents: texts(self.recents@),
            port: self.port,
        }
    }
}

/// The record that a first run starts from.
pub open spec fn default_config() -> ConfigView {
    ConfigView {
        version: VERSION@,
        api_key: Seq::empty(),
        interpreter: "./venv/bin/python3"@,
        selected_projects: Seq::empty(),
        recents: Seq::empty(),
        port: 3030,
    }
}

impl Default for ProjectConfig {
    fn default() -> (r: Self)
        ensures
            r@ == default_config(),
    {
        let r = ProjectConfig {
            version: String::from_str(VERSION),
            api_key: String::new(),
            interpreter: String::from_str("./venv/bin/python3"),
            selected_projects: Vec::new(),
            recents: Vec::new(),
            port: DEFAULT_PORT,
        };
        assert(texts(r.selected_projects@) =~= Seq::<Seq<char>>::empty());
        assert(texts(r.recents@) =~= Seq::<Seq<char>>::empty());
        r
    }
}

/// `c` brought to the current version: every field that is empty or zero
/// takes the default's value, every other field stays, and the version is
/// the current one.
pub open spec fn migrated(c: ConfigView) -> ConfigView {
    let d = default_config();
    ConfigView {
        version: d.version,
        api_key: if c.api_key.len() == 0 {
            d.api_key
        } else {
            c.api_key
        },
        interpreter: if c.interpreter.len() == 0 {
            d.interpreter
        } else {
            c.interpreter
        },
        selected_projects: if c.selected_projects.len() == 0 {
            d.selected_projects
        } else {
            c.selected_projects
        },
        recents: if c.recents.len() == 0 {
            d.recents
        } else {
            c.recents
        },
        port: if c.port == 0 {
            d.port
        } else {
            c.port
        },
    }
}

/// Whether `c` was written by the running version.
pub open spec fn is_current(c: ConfigView) -> bool {
    c.version == VERSION@
}

/// Brings a configuration to the current version by filling the fields
/// it leaves empty.
pub fn migrate_config(cfg: ProjectConfig) -> (r: ProjectConfig)
    ensures
        r@ == migrated(cfg@),
{
    let default = ProjectConfig::default();
    let mut cfg = cfg;
    cfg.version = default.version;
    if cfg.api_key.as_str().unicode_len() == 0 {
        cfg.api_key = default.api_key;
    }
    if cfg.interpreter.as_str().unicode_len() == 0 {
        cfg.interpreter = default.interpreter;
    }
    if cfg.selected_projects.len() == 0 {
        cfg.selected_projects = default.selected_projects;
    }
    if cfg.recents.len() == 0 {
        cfg.recents = default.recents;
    }
    if cfg.port == 0 {
        cfg.port = default.port;
    }
    cfg
}

/// Whether the configuration was written by the running version.
pub fn correct_version(cfg: &ProjectConfig) -> (r: bool)
    ensures
        r == is_current(cfg@),
{
    same_text(cfg.version.as_str(), VERSION)
}

/// Migrating a migrated configuration changes nothing.
pub proof fn migration_is_idempotent(c: ConfigView)
    ensures
        migrated(migrated(c)) == migrated(c),
{
}

/// A migrated configuration is current, the default one included.
pub proof fn migrated_is_current(c: ConfigView)
    ensures
        is_current(migrated(c)),
        is_current(migrated(default_config())),
{
}

/// Migration drops nothing: a field that held something holds it still,
/// and the selected projects keep their order.
pub proof fn migration_keeps_what_is_set(c: ConfigView)
    ensures
        c.api_key.len() > 0 ==> migrated(c).api_key == c.api_key,
        c.interpreter.len() > 0 ==> migrated(c).interpreter == c.interpreter,
        migrated(c).selected_projects == c.selected_projects,
        migrated(c).recents == c.recents,
        c.port != 0 ==> migrated(c).port == c.port,
{
    assert(migrated(c).selected_projects =~= c.selected_projects);
    assert(migrated(c).recents =~= c.recents);
}

/// The test that a path is a project in `fs`.
pub open spec fn project_in(fs: FsView) -> spec_fn(Seq<char>) -> bool {
    |p: Seq<char>| is_project(fs, p)
}

/// The test that a path is another one than `path`.
pub open spec fn other_than(path: Seq<char>) -> spec_fn(Seq<char>) -> bool {
    |p: Seq<char>| p != path
}

/// The entries of `recents` that are projects, in their order.
pub open spec fn purged(fs: FsView, recents: Seq<Seq<char>>) -> Seq<Seq<char>> {
    recents.filter(project_in(fs))
}

/// `recents` without any occurrence of `path`.
pub open spec fn without(recents: Seq<Seq<char>>, path: Seq<char>) -> Seq<Seq<char>> {
    recents.filter(other_than(path))
}

/// `recents` with `path` moved, or put, in front.
pub open spec fn fronted(recents: Seq<Seq<char>>, path: Seq<char>) -> Seq<Seq<char>> {
    seq![path] + without(recents, path)
}

/// `recents` after `directory` was added: its absolute form stands in
/// front and what is no project is gone. A directory that does not exist
/// has no absolute form and changes nothing.
pub open spec fn added(fs: FsView, recents: Seq<Seq<char>>, directory: Seq<char>) -> Seq<
    Seq<char>,
> {
    match fs.full_path(directory) {
        Some(full) => purged(fs, fronted(recents, full)),
        None => recents,
    }
}

/// `c` with `recents` in place of its recent projects.
pub open spec fn with_recents(c: ConfigView, recents: Seq<Seq<char>>) -> ConfigView {
    ConfigView { recents, ..c }
}

/// Drops from the recent projects every directory that is no project.
/// Returns whether any was dropped, that is whether the configuration
/// changed.
pub fn purge_recents(cfg: &mut ProjectConfig, fs: &FsSnapshot) -> (changed: bool)
    ensures
        final(cfg)@ == with_recents(old(cfg)@, purged(fs@, old(cfg)@.recents)),
        changed == (final(cfg)@ != old(cfg)@),
{
    let mut kept: Vec<String> = Vec::new();
    let mut silent: Vec<String> = Vec::new();
    let ghost pred = project_in(fs@);
    proof {
        filter_by_last(texts(cfg.recents@.take(0)), pred);
    }
    let mut i: usize = 0;
    while i < cfg.recents.len()
        invariant
            *cfg == *old(cfg),
            i <= cfg.recents.len(),
            pred == project_in(fs@),
            texts(kept@) == texts(cfg.recents@.take(i as int)).filter(pred),
            silent@.len() == 0,
        decreases cfg.recents.len() - i,
    {
        let ghost before = texts(cfg.recents@.take(i as int));
        assert(texts(cfg.recents@.take(i + 1)).drop_last() =~= before);
        assert(texts(cfg.recents@.take(i + 1)).last() == cfg.recents@[i as int]@);
        proof {
            filter_by_last(texts(cfg.recents@.take(i + 1)), pred);
        }
        if check_project(fs, cfg.recents[i].as_str(), false, &mut silent) {
            kept.push(cfg.recents[i].clone());
            assert(texts(kept@) =~= before.filter(pred).push(cfg.recents@[i as int]@));
        }
        assert(texts(silent@).len() == 0);
        i = i + 1;
    }
    assert(cfg.recents@.take(i as int) =~= cfg.recents@);
    let changed = kept.len() != cfg.recents.len();
    proof {
        if !changed {
            filter_of_full_length(texts(cfg.recents@), pred);
        }
    }
    cfg.recents = kept;
    changed
}

/// Moves `path` to the front of the recent projects, or puts it there.
pub fn front_recent(cfg: &mut ProjectConfig, path: &str)
    ensures
        final(cfg)@ == with_recents(old(cfg)@, fronted(old(cfg)@.recents, path@)),
{
    let key = String::from_str(path);
    let mut out: Vec<String> = Vec::new();
    out.push(key.clone());
    let ghost pred = other_than(path@);
    assert(texts(out@) =~= seq![path@]);
    proof {
        filter_by_last(texts(cfg.recents@.take(0)), pred);
    }
    let mut i: usize = 0;
    while i < cfg.recents.len()
        invariant
            *cfg == *old(cfg),
            key@ == path@,
            i <= cfg.recents.len(),
            pred == other_than(path@),
            texts(out@) == seq![path@] + texts(cfg.recents@.take(i as int)).filter(pred),
        decreases cfg.recents.len() - i,
    {
        let ghost before = texts(cfg.recents@.take(i as int));
        assert(texts(cfg.recents@.take(i + 1)).drop_last() =~= before);
        assert(texts(cfg.recents@.take(i + 1)).last() == cfg.recents@[i as int]@);
        proof {
            filter_by_last(texts(cfg.recents@.take(i + 1)), pred);
        }
        if !(cfg.recents[i] == key) {
            let ghost so_far = out@;
            out.push(cfg.recents[i].clone());
            assert(texts(out@) =~= texts(so_far).push(cfg.recents@[i as int]@));
            assert((seq![path@] + before.filter(pred)).push(cfg.recents@[i as int]@) =~= seq![
                path@,
            ] + before.filter(pred).push(cfg.recents@[i as int]@));
        }
        i = i + 1;
    }
    assert(cfg.recents@.take(i as int) =~= cfg.recents@);
    cfg.recents = out;
}

/// Adds `directory` to the recent projects: its absolute form moves to the
/// front, then the list is purged. Returns whether `directory` exists;
/// where it does not, the configuration stays as it is.
pub fn add_to_recents(cfg: &mut ProjectConfig, fs: &FsSnapshot, directory: &str) -> (r: bool)
    ensures
        r == fs@.is_present(directory@),
        final(cfg)@ == with_recents(old(cfg)@, added(fs@, old(cfg)@.recents, directory@)),
{
    match relative_to_full_path(fs, directory) {
        Some(full) => {
            front_recent(cfg, full.as_str());
            purge_recents(cfg, fs);
            true
        },
        None => {
            assert(cfg@ =~= with_recents(cfg@, cfg@.recents));
            false
        },
    }
}

/// What a purge leaves is what was a project, in the order it stood in.
/// The result names, for each entry that is left, the place it had
/// before: the places rise, so no two entries change their order; each
/// held a project; and every place that held a project is among them.
pub proof fn purge_keeps_projects_in_order(fs: FsView, recents: Seq<Seq<char>>) -> (places: Seq<
    int,
>)
    ensures
        places.len() == purged(fs, recents).len(),
        rises(places),
        forall|k: int|
            0 <= k < places.len() ==> 0 <= #[trigger] places[k] < recents.len()
                && recents[places[k]] == purged(fs, recents)[k] && is_project(
                fs,
                recents[places[k]],
            ),
        forall|j: int|
            0 <= j < recents.len() && is_project(fs, #[trigger] recents[j]) ==> places.contains(j),
{
    filter_places(recents, project_in(fs))
}

/// A purged list holds projects only, and purging it again changes nothing.
pub proof fn purge_is_idempotent(fs: FsView, recents: Seq<Seq<char>>)
    ensures
        forall|k: int|
            0 <= k < purged(fs, recents).len() ==> is_project(fs, #[trigger] purged(fs, recents)[k]),
        purged(fs, purged(fs, recents)) == purged(fs, recents),
{
    let once = purged(fs, recents);
    let places = filter_places(recents, project_in(fs));
    assert forall|k: int| 0 <= k < once.len() implies is_project(fs, #[trigger] once[k]) by {
        assert(recents[places[k]] == once[k]);
    }
    filter_keeps_all(once, project_in(fs));
}

/// A project that is put in front of a purged list stands there alone:
/// at the first place, and at no other.
proof fn fronted_project_stands_once(fs: FsView, recents: Seq<Seq<char>>, full: Seq<char>)
    requires
        is_project(fs, full),
    ensures
        purged(fs, fronted(recents, full)).len() > 0,
        purged(fs, fronted(recents, full))[0] == full,
        forall|i: int|
            0 < i < purged(fs, fronted(recents, full)).len() ==> #[trigger] purged(
                fs,
                fronted(recents, full),
            )[i] != full,
{
    let rest = without(recents, full);
    let head = seq![full];
    Seq::filter_distributes_over_add(head, rest, project_in(fs));
    filter_by_last(head, project_in(fs));
    filter_by_last(head.drop_last(), project_in(fs));
    assert(head.drop_last().push(full) =~= head);
    assert(head.filter(project_in(fs)) == head);
    let tail = rest.filter(project_in(fs));
    let result = purged(fs, fronted(recents, full));
    assert(result == head + tail);
    let in_rest = filter_places(rest, project_in(fs));
    let in_recents = filter_places(recents, other_than(full));
    assert forall|i: int| 0 < i < result.len() implies #[trigger] result[i] != full by {
        assert(result[i] == tail[i - 1]);
        assert(rest[in_rest[i - 1]] == tail[i - 1]);
        assert(recents[in_recents[in_rest[i - 1]]] == rest[in_rest[i - 1]]);
    }
}

/// Adding a project twice leaves exactly one occurrence of it, at the
/// front, and so does adding it once. `directory` must lead to a project:
/// one that is none does not outlast the purge that ends each addition.
pub proof fn added_twice_stands_once_in_front(
    fs: FsView,
    recents: Seq<Seq<char>>,
    directory: Seq<char>,
)
    requires
        fs.full_path(directory).is_some(),
        is_project(fs, fs.full_path(directory).unwrap()),
    ensures
        ({
            let full = fs.full_path(directory).unwrap();
            let once = added(fs, recents, directory);
            let twice = added(fs, once, directory);
            &&& once.len() > 0 && once[0] == full
            &&& forall|i: int| 0 < i < once.len() ==> #[trigger] once[i] != full
            &&& twice.len() > 0 && twice[0] == full
            &&& forall|i: int| 0 < i < twice.len() ==> #[trigger] twice[i] != full
        }),
{
    let full = fs.full_path(directory).unwrap();
    fronted_project_stands_once(fs, recents, full);
    fronted_project_stands_once(fs, added(fs, recents, directory), full);
}

/// A list that holds nothing twice holds nothing twice after a purge or
/// an addition, and an addition leaves projects only.
pub proof fn recents_stay_distinct(fs: FsView, recents: Seq<Seq<char>>, directory: Seq<char>)
    requires
        recents.no_duplicates(),
    ensures
        purged(fs, recents).no_duplicates(),
        added(fs, recents, directory).no_duplicates(),
{
    filter_keeps_distinct(recents, project_in(fs));
    match fs.full_path(directory) {
        Some(full) => {
            let rest = without(recents, full);
            filter_keeps_distinct(recents, other_than(full));
            let places = filter_places(recents, other_than(full));
            let f = fronted(recents, full);
            assert forall|i: int, j: int| 0 <= i < f.len() && 0 <= j < f.len() && i != j implies f[i]
                != f[j] by {
                if i > 0 {
                    assert(f[i] == rest[i - 1]);
                    assert(recents[places[i - 1]] == rest[i - 1]);
                }
                if j > 0 {
                    assert(f[j] == rest[j - 1]);
                    assert(recents[places[j - 1]] == rest[j - 1]);
                }
            }
            filter_keeps_distinct(f, project_in(fs));
        },
        None => {},
    }
}

} // verus!
