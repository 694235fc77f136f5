//! Resolving the selected competitors into what a match is started with.

use vstd::prelude::*;
use crate::command::{Invocation, InvocationView, build_rust_project, call_in, calls, plain_call};
use crate::config::ProjectConfig;
use crate::constants::{DEFAULT_PORT, INCREMENT_SECS, INITIAL_TIME_SECS};
use crate::paths::{
    interpreter_of, native_binary, python_binary_path, python_interpreter_path,
    release_binary_path, script_entry, static_files, frontend_path,
};
use crate::project::{ProjectType, guess_project_type, project_type};
use crate::snapshot::{FsSnapshot, FsView, relative_to_full_path};
use crate::text::{decimal, decimal_text, opt_text, texts};

verus! {

/// How one competitor is started: directly, or through an interpreter.
#[derive(Clone, Debug, PartialEq, Eq)]
pub struct LaunchSpec {
    /// The interpreter that runs `target`; none for an executable.
    pub interpreter: Option<String>,
    /// The executable, or the script handed to the interpreter.
    pub target: String,
}

/// The mathematical content of a launch spec.
pub struct LaunchSpecView {
    pub interpreter: Option<Seq<char>>,
    pub target: Seq<char>,
}

impl View for LaunchSpec {
    type V = LaunchSpecView;

    open spec fn view(&self) -> LaunchSpecView {
        LaunchSpecView { interpreter: opt_text(self.interpreter), target: self.target@ }
    }
}

/// Why a match cannot be started.
#[derive(Clone, Copy, Debug, PartialEq, Eq, Structural)]
pub enum RunError {
    /// No competitor is selected.
    NoCompetitors,
    /// The kind of the competitor at `index` cannot be told.
    UnknownProject { index: usize },
    /// The native competitor at `index` has no executable.
    NotBuilt { index: usize },
}

/// Why one competitor cannot be started.
#[derive(Clone, Copy, Debug, PartialEq, Eq, Structural)]
pub enum CompetitorFault {
    UnknownProject,
    NotBuilt,
}

/// The absolute path of the executable of the native project at
/// `project_directory`, where it has been built.
pub open spec fn built_binary(fs: FsView, project_directory: Seq<char>) -> Option<Seq<char>> {
    fs.full_path(native_binary(fs.platform, project_directory))
}

/// The executable of the native project at `project_directory`; `None`
/// before it is built.
pub fn rust_binary_path(fs: &FsSnapshot, project_directory: &str) -> (r: Option<String>)
    ensures
        opt_text(r) == built_binary(fs@, project_directory@),
{
    let written = release_binary_path(fs.platform, project_directory);
    relative_to_full_path(fs, written.as_str())
}

/// The absolute path of the front end's static files in the scaffold of
/// `project_directory`; `None` where they are not there.
pub fn static_files_path(fs: &FsSnapshot, project_directory: &str) -> (r: Option<String>)
    ensures
        opt_text(r) == fs@.full_path(static_files(fs@.platform, project_directory@)),
{
    let written = frontend_path(fs.platform, project_directory);
    relative_to_full_path(fs, written.as_str())
}

/// How the competitor at `directory` is started: a script project through
/// the interpreter of its environment, a native project by its built
/// executable. One whose kind cannot be told is not started at all.
pub open spec fn resolved(fs: FsView, directory: Seq<char>) -> Result<
    LaunchSpecView,
    CompetitorFault,
> {
    match project_type(fs, directory) {
        ProjectType::Python => Ok(
            LaunchSpecView {
                interpreter: Some(interpreter_of(fs.platform, directory)),
                target: script_entry(fs.platform, directory),
            },
        ),
        ProjectType::Rust => match built_binary(fs, directory) {
            Some(binary) => Ok(LaunchSpecView { interpreter: None, target: binary }),
            None => Err(CompetitorFault::NotBuilt),
        },
        ProjectType::Unknown => Err(CompetitorFault::UnknownProject),
    }
}

/// Resolves one competitor.
pub fn resolve_competitor(fs: &FsSnapshot, directory: &str) -> (r: Result<
    LaunchSpec,
    CompetitorFault,
>)
    ensures
        match r {
            Ok(spec) => resolved(fs@, directory@) == Ok::<LaunchSpecView, CompetitorFault>(spec@),
            Err(fault) => resolved(fs@, directory@) == Err::<LaunchSpecView, CompetitorFault>(
                fault,
            ),
        },
{
    match guess_project_type(fs, directory) {
        ProjectType::Python => Ok(
            LaunchSpec {
                interpreter: Some(python_interpreter_path(fs.platform, directory)),
                target: python_binary_path(fs.platform, directory),
            },
        ),
        ProjectType::Rust => match rust_binary_path(fs, directory) {
            Some(binary) => Ok(LaunchSpec { interpreter: None, target: binary }),
            None => Err(CompetitorFault::NotBuilt),
        },
        ProjectType::Unknown => Err(CompetitorFault::UnknownProject),
    }
}

/// What the match runtime is handed: the competitors' targets and
/// interpreters, place by place in seating order, and the fixed
/// parameters of a match.
#[derive(Clone, Debug, PartialEq, Eq)]
pub struct LaunchRequest {
    pub port: u16,
    pub targets: Vec<String>,
    pub num_players: usize,
    pub initial_time_secs: u64,
    pub increment_secs: u64,
    /// For each target the interpreter that runs it, if it needs one.
    pub interpreters: Vec<Option<String>>,
}

impl LaunchRequest {
    /// How the competitor at seat `i` is started.
    pub open spec fn spec_at(self, i: int) -> LaunchSpecView {
        LaunchSpecView { interpreter: opt_text(self.interpreters[i]), target: self.targets[i]@ }
    }

    /// The request holds one target and one interpreter entry for each
    /// of `seats` competitors, and the fixed parameters of a match.
    pub open spec fn is_for(self, seats: int) -> bool {
        &&& self.targets.len() == seats
        &&& self.interpreters.len() == seats
        &&& self.num_players == seats
        &&& self.port == 3030
        &&& self.initial_time_secs == 10
        &&& self.increment_secs == 1
    }
}

/// Whether the competitor at `directory` can be started.
pub open spec fn startable(fs: FsView, directory: Seq<char>) -> bool {
    resolved(fs, directory).is_ok()
}

/// What starting a match with `selected` comes to.
///
/// With nobody selected there is nothing to start. Otherwise the
/// competitors are resolved in seating order, and the first that cannot
/// be started stops the match for all: nothing is launched. Where all
/// can be started, the request holds each one's launch spec at its seat.
pub open spec fn run_outcome(
    fs: FsView,
    selected: Seq<Seq<char>>,
    r: Result<LaunchRequest, RunError>,
) -> bool {
    match r {
        Ok(request) => {
            &&& selected.len() > 0
            &&& request.is_for(selected.len() as int)
            &&& forall|i: int|
                0 <= i < selected.len() ==> resolved(fs, #[trigger] selected[i]) == Ok::<
                    LaunchSpecView,
                    CompetitorFault,
                >(request.spec_at(i))
        },
        Err(RunError::NoCompetitors) => selected.len() == 0,
        Err(RunError::UnknownProject { index }) => {
            &&& index < selected.len()
            &&& project_type(fs, selected[index as int]) == ProjectType::Unknown
            &&& forall|i: int| 0 <= i < index ==> startable(fs, #[trigger] selected[i])
        },
        Err(RunError::NotBuilt { index }) => {
            &&& index < selected.len()
            &&& resolved(fs, selected[index as int]) == Err::<LaunchSpecView, CompetitorFault>(
                CompetitorFault::NotBuilt,
            )
            &&& forall|i: int| 0 <= i < index ==> startable(fs, #[trigger] selected[i])
        },
    }
}

/// Resolves the selected competitors, in seating order, into a launch
/// request; the first that cannot be started stops the match for all.
pub fn run_command(cfg: &ProjectConfig, fs: &FsSnapshot) -> (r: Result<LaunchRequest, RunError>)
    ensures
        run_outcome(fs@, cfg@.selected_projects, r),
{
    let n: usize = cfg.selected_projects.len();
    if n == 0 {
        return Err(RunError::NoCompetitors);
    }
    let mut targets: Vec<String> = Vec::new();
    let mut interpreters: Vec<Option<String>> = Vec::new();
    let mut i: usize = 0;
    while i < n
        invariant
            n == cfg.selected_projects.len(),
            i <= n,
            targets.len() == i,
            interpreters.len() == i,
            forall|k: int|
                0 <= k < i ==> resolved(fs@, #[trigger] cfg@.selected_projects[k]) == Ok::<
                    LaunchSpecView,
                    CompetitorFault,
                >(
                    LaunchSpecView {
                        interpreter: opt_text(interpreters[k]),
                        target: targets[k]@,
                    },
                ),
        decreases n - i,
    {
        assert(cfg@.selected_projects[i as int] == cfg.selected_projects[i as int]@);
        match resolve_competitor(fs, cfg.selected_projects[i].as_str()) {
            Ok(spec) => {
                targets.push(spec.target);
                interpreters.push(spec.interpreter);
            },
            Err(CompetitorFault::UnknownProject) => {
                return Err(RunError::UnknownProject { index: i });
            },
            Err(CompetitorFault::NotBuilt) => {
                return Err(RunError::NotBuilt { index: i });
            },
        }
        i = i + 1;
    }
    Ok(
        LaunchRequest {
            port: DEFAULT_PORT,
            targets,
            num_players: n,
            initial_time_secs: INITIAL_TIME_SECS,
            increment_secs: INCREMENT_SECS,
            interpreters,
        },
    )
}

/// The launch spec of each seat of `request`, in seating order: the
/// target with the interpreter at the same place. The shorter list
/// decides where the two differ in length.
pub fn launch_specs(request: &LaunchRequest) -> (r: Vec<LaunchSpec>)
    ensures
        r.len() == if request.targets.len() <= request.interpreters.len() {
            request.targets.len()
        } else {
            request.interpreters.len()
        },
        forall|i: int| 0 <= i < r.len() ==> (#[trigger] r[i])@ == request.spec_at(i),
{
    let mut out: Vec<LaunchSpec> = Vec::new();
    let mut i: usize = 0;
    while i < request.targets.len() && i < request.interpreters.len()
        invariant
            i <= request.targets.len(),
            i <= request.interpreters.len(),
            out.len() == i,
            forall|k: int| 0 <= k < i ==> (#[trigger] out[k])@ == request.spec_at(k),
        decreases request.targets.len() - i,
    {
        out.push(
            LaunchSpec {
                interpreter: request.interpreters[i].clone(),
                target: request.targets[i].clone(),
            },
        );
        i = i + 1;
    }
    out
}

/// One competitor whose kind cannot be told stops the match, wherever it
/// sits and however the others resolve; so does a native one that has
/// no executable.
pub proof fn one_fault_stops_the_match(
    fs: FsView,
    selected: Seq<Seq<char>>,
    r: Result<LaunchRequest, RunError>,
    seat: int,
)
    requires
        run_outcome(fs, selected, r),
        0 <= seat < selected.len(),
        !startable(fs, selected[seat]),
    ensures
        r.is_err(),
        r != Err::<LaunchRequest, RunError>(RunError::NoCompetitors),
{
    match r {
        Ok(request) => {
            assert(resolved(fs, selected[seat]).is_ok());
        },
        _ => {},
    }
}

/// In a request, a seat has an interpreter exactly when its competitor
/// is a script project; a native one is started by its own executable.
pub proof fn interpreters_mark_script_projects(
    fs: FsView,
    selected: Seq<Seq<char>>,
    request: LaunchRequest,
    seat: int,
)
    requires
        run_outcome(fs, selected, Ok(request)),
        0 <= seat < selected.len(),
    ensures
        request.interpreters[seat].is_some() <==> project_type(fs, selected[seat])
            == ProjectType::Python,
        request.interpreters[seat].is_none() <==> project_type(fs, selected[seat])
            == ProjectType::Rust,
        project_type(fs, selected[seat]) == ProjectType::Rust ==> Some(request.targets[seat]@)
            == built_binary(fs, selected[seat]),
        project_type(fs, selected[seat]) == ProjectType::Python ==> request.targets[seat]@
            == script_entry(fs.platform, selected[seat]),
{
    assert(resolved(fs, selected[seat]) == Ok::<LaunchSpecView, CompetitorFault>(
        request.spec_at(seat),
    ));
}

/// The seat of the competitor that an error names; none for the error
/// that names nobody.
pub open spec fn faulty_seat(e: RunError) -> int {
    match e {
        RunError::NoCompetitors => -1,
        RunError::UnknownProject { index } => index as int,
        RunError::NotBuilt { index } => index as int,
    }
}

/// What starting a match comes to is settled by the snapshot and the
/// selection: two outcomes are the same error, or requests that agree
/// seat by seat.
pub proof fn run_outcome_is_settled(
    fs: FsView,
    selected: Seq<Seq<char>>,
    a: Result<LaunchRequest, RunError>,
    b: Result<LaunchRequest, RunError>,
)
    requires
        run_outcome(fs, selected, a),
        run_outcome(fs, selected, b),
    ensures
        a.is_ok() == b.is_ok(),
        a.is_err() ==> a.unwrap_err() == b.unwrap_err(),
        a.is_ok() ==> forall|i: int|
            0 <= i < selected.len() ==> a.unwrap().spec_at(i) == b.unwrap().spec_at(i),
{
    if a.is_ok() {
        if b.is_err() {
            match b.unwrap_err() {
                RunError::NoCompetitors => {},
                RunError::UnknownProject { index } => {
                    assert(startable(fs, selected[index as int]));
                },
                RunError::NotBuilt { index } => {
                    assert(startable(fs, selected[index as int]));
                },
            }
        } else {
            assert forall|i: int| 0 <= i < selected.len() implies a.unwrap().spec_at(i)
                == b.unwrap().spec_at(i) by {
                assert(resolved(fs, selected[i]) == Ok::<LaunchSpecView, CompetitorFault>(
                    a.unwrap().spec_at(i),
                ));
                assert(resolved(fs, selected[i]) == Ok::<LaunchSpecView, CompetitorFault>(
                    b.unwrap().spec_at(i),
                ));
            }
        }
    } else {
        if b.is_ok() {
            if faulty_seat(a.unwrap_err()) >= 0 {
                assert(startable(fs, selected[faulty_seat(a.unwrap_err())]));
            }
        } else {
            let i = faulty_seat(a.unwrap_err());
            let j = faulty_seat(b.unwrap_err());
            if i >= 0 && j >= 0 {
                if i < j {
                    assert(startable(fs, selected[i]));
                } else if j < i {
                    assert(startable(fs, selected[j]));
                }
            }
        }
    }
}

/// The release builds of the native projects among `selected`, in
/// seating order.
pub open spec fn native_builds(fs: FsView, selected: Seq<Seq<char>>) -> Seq<InvocationView>
    decreases selected.len(),
{
    if selected.len() == 0 {
        Seq::empty()
    } else {
        let before = native_builds(fs, selected.drop_last());
        if project_type(fs, selected.last()) == ProjectType::Rust {
            before.push(call_in("cargo"@, seq!["build"@, "--release"@], selected.last()))
        } else {
            before
        }
    }
}

/// What preparing a match with `selected` comes to: nothing is built
/// unless somebody is selected and every competitor's kind can be told.
pub open spec fn build_outcome(
    fs: FsView,
    selected: Seq<Seq<char>>,
    r: Result<Vec<Invocation>, RunError>,
) -> bool {
    match r {
        Ok(builds) => {
            &&& selected.len() > 0
            &&& forall|i: int|
                0 <= i < selected.len() ==> project_type(fs, #[trigger] selected[i])
                    != ProjectType::Unknown
            &&& calls(builds@) == native_builds(fs, selected)
        },
        Err(RunError::NoCompetitors) => selected.len() == 0,
        Err(RunError::UnknownProject { index }) => {
            &&& index < selected.len()
            &&& project_type(fs, selected[index as int]) == ProjectType::Unknown
            &&& forall|i: int|
                0 <= i < index ==> project_type(fs, #[trigger] selected[i]) != ProjectType::Unknown
        },
        Err(RunError::NotBuilt { index }) => false,
    }
}

/// The builds to make before a match is started, in seating order.
pub fn build_plan(cfg: &ProjectConfig, fs: &FsSnapshot) -> (r: Result<Vec<Invocation>, RunError>)
    ensures
        build_outcome(fs@, cfg@.selected_projects, r),
{
    let n: usize = cfg.selected_projects.len();
    if n == 0 {
        return Err(RunError::NoCompetitors);
    }
    let mut i: usize = 0;
    while i < n
        invariant
            n == cfg.selected_projects.len(),
            i <= n,
            forall|k: int|
                0 <= k < i ==> project_type(fs@, #[trigger] cfg@.selected_projects[k])
                    != ProjectType::Unknown,
        decreases n - i,
    {
        assert(cfg@.selected_projects[i as int] == cfg.selected_projects[i as int]@);
        match guess_project_type(fs, cfg.selected_projects[i].as_str()) {
            ProjectType::Unknown => {
                return Err(RunError::UnknownProject { index: i });
            },
            _ => {},
        }
        i = i + 1;
    }
    let mut builds: Vec<Invocation> = Vec::new();
    let mut j: usize = 0;
    assert(cfg@.selected_projects.take(0) =~= Seq::<Seq<char>>::empty());
    while j < n
        invariant
            n == cfg.selected_projects.len(),
            j <= n,
            calls(builds@) == native_builds(fs@, cfg@.selected_projects.take(j as int)),
        decreases n - j,
    {
        assert(cfg@.selected_projects[j as int] == cfg.selected_projects[j as int]@);
        assert(cfg@.selected_projects.take(j + 1).drop_last() =~= cfg@.selected_projects.take(
            j as int,
        ));
        assert(cfg@.selected_projects.take(j + 1).last() == cfg@.selected_projects[j as int]);
        match guess_project_type(fs, cfg.selected_projects[j].as_str()) {
            ProjectType::Rust => {
                let ghost before = builds@;
                let build = build_rust_project(cfg.selected_projects[j].as_str());
                builds.push(build);
                assert(calls(builds@) =~= calls(before).push(build@));
            },
            _ => {},
        }
        j = j + 1;
    }
    assert(cfg@.selected_projects.take(n as int) =~= cfg@.selected_projects);
    Ok(builds)
}

/// The call that starts one client of a match: the target, through its
/// interpreter where it has one, and after `--` the address of the
/// match, its port and the client's name.
pub open spec fn client_call(
    url: Seq<char>,
    port: u16,
    client_id: Seq<char>,
    spec: LaunchSpecView,
) -> InvocationView {
    let rest = seq![
        "--"@,
        "--url"@,
        url,
        "--port"@,
        decimal(port as nat),
        "--client-id"@,
        client_id,
    ];
    match spec.interpreter {
        Some(interpreter) => plain_call(interpreter, seq![spec.target] + rest),
        None => plain_call(spec.target, rest),
    }
}

/// The call that starts the client `client_id` of the match at `url`.
pub fn client_command(url: &str, port: u16, client_id: &str, spec: &LaunchSpec) -> (r: Invocation)
    ensures
        r@ == client_call(url@, port, client_id@, spec@),
{
    let mut args: Vec<String> = Vec::new();
    let ghost rest = seq![
        "--"@,
        "--url"@,
        url@,
        "--port"@,
        decimal(port as nat),
        "--client-id"@,
        client_id@,
    ];
    let program = match &spec.interpreter {
        Some(interpreter) => {
            args.push(spec.target.clone());
            interpreter.clone()
        },
        None => spec.target.clone(),
    };
    let ghost head = texts(args@);
    args.push(String::from_str("--"));
    args.push(String::from_str("--url"));
    args.push(String::from_str(url));
    args.push(String::from_str("--port"));
    args.push(decimal_text(port as u64));
    args.push(String::from_str("--client-id"));
    args.push(String::from_str(client_id));
    assert(texts(args@) =~= head + rest);
    proof {
        if spec.interpreter.is_some() {
            assert(head =~= seq![spec.target@]);
        } else {
            assert(head + rest =~= rest);
        }
    }
    Invocation { program, args, working_dir: None, search_path: None }
}

/// The calls that start the clients of the match at `url`, one for each
/// name in `client_ids` with the launch spec at the same place. The two
/// lists must be of one length: each client has its name and its spec.
pub fn spawn_clients(url: &str, port: u16, client_ids: &Vec<String>, binaries: &Vec<LaunchSpec>) -> (r:
    Vec<Invocation>)
    requires
        client_ids.len() == binaries.len(),
    ensures
        r.len() == client_ids.len(),
        forall|i: int|
            0 <= i < r.len() ==> (#[trigger] r[i])@ == client_call(
                url@,
                port,
                client_ids[i]@,
                binaries[i]@,
            ),
{
    let mut clients: Vec<Invocation> = Vec::new();
    let mut i: usize = 0;
    while i < client_ids.len()
        invariant
            client_ids.len() == binaries.len(),
            i <= client_ids.len(),
            clients.len() == i,
            forall|k: int|
                0 <= k < i ==> (#[trigger] clients[k])@ == client_call(
                    url@,
                    port,
                    client_ids[k]@,
                    binaries[k]@,
                ),
        decreases client_ids.len() - i,
    {
        clients.push(client_command(url, port, client_ids[i].as_str(), &binaries[i]));
        i = i + 1;
    }
    clients
}

/// What is said when a match cannot be started for `e`; `name` is the
/// directory of the competitor that `e` names.
pub open spec fn run_error_report(e: RunError, name: Seq<char>) -> Seq<Seq<char>> {
    match e {
        RunError::NoCompetitors => seq![
            "No competitors selected yet!"@,
            "try running \n\tstourney config edit\nto add some competitors!"@,
        ],
        RunError::UnknownProject { index } => seq![
            "[-] Unknown project type for "@ + name,
            "[-] Expected a Rust or Python project"@,
            "[-] Exiting..."@,
        ],
        RunError::NotBuilt { index } => seq![
            "[-] No executable was built for "@ + name,
            "[-] Exiting..."@,
        ],
    }
}

/// The directory at seat `seat` of `selected`; empty where there is no
/// such seat.
pub open spec fn name_at(selected: Seq<Seq<char>>, seat: int) -> Seq<char> {
    if 0 <= seat < selected.len() {
        selected[seat]
    } else {
        Seq::empty()
    }
}

/// Writes out what is said when a match cannot be started for `e`.
pub fn describe_run_error(cfg: &ProjectConfig, e: RunError) -> (r: Vec<String>)
    ensures
        texts(r@) == run_error_report(e, name_at(cfg@.selected_projects, faulty_seat(e))),
{
    let mut out: Vec<String> = Vec::new();
    match e {
        RunError::NoCompetitors => {
            out.push(String::from_str("No competitors selected yet!"));
            out.push(
                String::from_str("try running \n\tstourney config edit\nto add some competitors!"),
            );
        },
        RunError::UnknownProject { index } => {
            let mut line = String::from_str("[-] Unknown project type for ");
            if index < cfg.selected_projects.len() {
                line.append(cfg.selected_projects[index].as_str());
            } else {
                assert(line@ + Seq::<char>::empty() =~= line@);
            }
            out.push(line);
            out.push(String::from_str("[-] Expected a Rust or Python project"));
            out.push(String::from_str("[-] Exiting..."));
        },
        RunError::NotBuilt { index } => {
            let mut line = String::from_str("[-] No executable was built for ");
            if index < cfg.selected_projects.len() {
                line.append(cfg.selected_projects[index].as_str());
            } else {
                assert(line@ + Seq::<char>::empty() =~= line@);
            }
            out.push(line);
            out.push(String::from_str("[-] Exiting..."));
        },
    }
    assert(texts(out@) =~= run_error_report(
        e,
        name_at(cfg@.selected_projects, faulty_seat(e)),
    ));
    out
}

} // verus!
