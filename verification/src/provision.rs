//! Making a new competitor project, step by step.
//!
//! The caller does the work on the machine and reports how each task
//! went; the provisioner decides what comes next. A task that fails ends
//! the run where it stands: what was made so far is left on disk.

use vstd::prelude::*;
use crate::command::{Invocation, InvocationView, calls, clone_repo, plain_call};
use crate::constants::STOURNEY_ARENA_REPO_URL;
use crate::paths::{Platform, join, joined, lib_dir, lib_path, venv_dir, venv_path};
use crate::prereqs::{
    Prerequisite, describe_missing, environment_setup, missing_report, setup_venv,
};
use crate::project::Language;
use crate::snapshot::EntryKind;
use crate::text::texts;

verus! {

/// How far the making of a project has come: the last step that is done.
#[derive(Clone, Copy, Debug, PartialEq, Eq, Structural)]
pub enum Stage {
    NotStarted,
    PrereqsChecked,
    DirectoryPrepared,
    TemplateCloned,
    EnvironmentReady,
    /// Reached by native projects only.
    BindingsInstalled,
    Complete,
}

/// What the caller is to do next.
#[derive(Clone, Copy, Debug, PartialEq, Eq, Structural)]
pub enum Task {
    /// Look for the prerequisites and report the first that is missing.
    CheckPrerequisites,
    /// Look at the target path and report what stands there.
    InspectDirectory,
    /// Create the target directory.
    CreateDirectory,
    /// Ask whether what the target directory holds may be deleted.
    ConfirmDelete,
    /// Delete what the target directory holds.
    ClearDirectory,
    /// Clone the scaffold into the `lib` directory of the target.
    CloneTemplate,
    /// Ask for the language and the example to start from.
    ChooseTemplate,
    /// Copy the chosen example over the project's root.
    CopyTemplate,
    /// Create the runtime environment in the `venv` directory.
    SetupEnvironment,
    /// Build the bindings and install them into the environment.
    InstallBindings,
    /// Tell of the success and put the project among the recent ones.
    Register,
    /// Nothing is left to do.
    Nothing,
}

/// Why a run ended before the project was made.
#[derive(Clone, Copy, Debug, PartialEq, Eq, Structural)]
pub enum AbortReason {
    /// Something the run needs is not on the machine.
    PrerequisiteMissing(Prerequisite),
    /// The target path holds something that is no directory.
    NotADirectory,
    /// The user would not have the target directory emptied. No error.
    Declined,
    /// The pending task failed.
    StepFailed(Task),
}

/// What stands at the target path.
#[derive(Clone, Copy, Debug, PartialEq, Eq, Structural)]
pub enum DirectoryState {
    Missing,
    NotADirectory,
    Empty,
    Filled,
}

/// What the caller reports of the task it was given.
#[derive(Clone, Copy, Debug, PartialEq, Eq, Structural)]
pub enum Report {
    /// The first prerequisite that is missing, if any.
    Prerequisites(Option<Prerequisite>),
    Directory(DirectoryState),
    /// The user's answer to a question.
    Answer(bool),
    /// The language the user chose.
    Template(Language),
    /// Whether the task succeeded.
    Done(bool),
}

/// The state of one run.
#[derive(Clone, Copy, Debug, PartialEq, Eq, Structural)]
pub struct Provisioner {
    /// The last step that is done.
    pub stage: Stage,
    /// The task the caller is to carry out and report on.
    pub task: Task,
    /// The language of the project, once it is chosen.
    pub language: Option<Language>,
    /// Why the run ended early, if it did.
    pub aborted: Option<AbortReason>,
}

/// The place of a stage in the run.
pub open spec fn rank(stage: Stage) -> nat {
    match stage {
        Stage::NotStarted => 0,
        Stage::PrereqsChecked => 1,
        Stage::DirectoryPrepared => 2,
        Stage::TemplateCloned => 3,
        Stage::EnvironmentReady => 4,
        Stage::BindingsInstalled => 5,
        Stage::Complete => 6,
    }
}

/// The step that follows `stage` in the making of a project of
/// `language`; bindings are a step for native projects only.
pub open spec fn step_after(stage: Stage, language: Option<Language>) -> Stage {
    match stage {
        Stage::NotStarted => Stage::PrereqsChecked,
        Stage::PrereqsChecked => Stage::DirectoryPrepared,
        Stage::DirectoryPrepared => Stage::TemplateCloned,
        Stage::TemplateCloned => Stage::EnvironmentReady,
        Stage::EnvironmentReady => match language {
            Some(Language::Rust) => Stage::BindingsInstalled,
            _ => Stage::Complete,
        },
        Stage::BindingsInstalled => Stage::Complete,
        Stage::Complete => Stage::Complete,
    }
}

/// The step in which `p` ended early, if it did: the one after the last
/// that was done.
pub open spec fn ended_in(p: Provisioner) -> Option<Stage> {
    if p.aborted.is_some() {
        Some(step_after(p.stage, p.language))
    } else {
        None
    }
}

/// Whether carrying out `task` changes what is on disk.
pub open spec fn touches_disk(task: Task) -> bool {
    match task {
        Task::CreateDirectory | Task::ClearDirectory | Task::CloneTemplate | Task::CopyTemplate
        | Task::SetupEnvironment | Task::InstallBindings => true,
        _ => false,
    }
}

/// The state a run starts in.
pub open spec fn initial() -> Provisioner {
    Provisioner {
        stage: Stage::NotStarted,
        task: Task::CheckPrerequisites,
        language: None,
        aborted: None,
    }
}

/// `p` ended early for `reason`: the stage stays, nothing is left to do.
pub open spec fn stopped(p: Provisioner, reason: AbortReason) -> Provisioner {
    Provisioner { task: Task::Nothing, aborted: Some(reason), ..p }
}

/// `p` after `stage` is done, with `task` to come.
pub open spec fn moved(p: Provisioner, stage: Stage, task: Task) -> Provisioner {
    Provisioner { stage, task, ..p }
}

/// `p` with `task` to come at the same stage.
pub open spec fn turned(p: Provisioner, task: Task) -> Provisioner {
    Provisioner { task, ..p }
}

/// `p` after the pending task succeeded.
pub open spec fn succeeded(p: Provisioner) -> Provisioner {
    match p.task {
        Task::CreateDirectory | Task::ClearDirectory => moved(
            p,
            Stage::DirectoryPrepared,
            Task::CloneTemplate,
        ),
        Task::CloneTemplate => moved(p, Stage::TemplateCloned, Task::ChooseTemplate),
        Task::CopyTemplate => turned(p, Task::SetupEnvironment),
        Task::SetupEnvironment => match p.language {
            Some(Language::Rust) => moved(p, Stage::EnvironmentReady, Task::InstallBindings),
            _ => moved(p, Stage::EnvironmentReady, Task::Register),
        },
        Task::InstallBindings => moved(p, Stage::BindingsInstalled, Task::Register),
        Task::Register => moved(p, Stage::Complete, Task::Nothing),
        _ => p,
    }
}

/// Whether `report` answers `task`.
pub open spec fn answers(task: Task, report: Report) -> bool {
    match task {
        Task::CheckPrerequisites => report is Prerequisites,
        Task::InspectDirectory => report is Directory,
        Task::ConfirmDelete => report is Answer,
        Task::ChooseTemplate => report is Template,
        Task::CreateDirectory | Task::ClearDirectory | Task::CloneTemplate | Task::CopyTemplate
        | Task::SetupEnvironment | Task::InstallBindings | Task::Register => report is Done,
        Task::Nothing => false,
    }
}

/// The state that follows `p` on `report`.
///
/// A report that does not answer the pending task changes nothing, and
/// neither does any report once the run has ended. Putting the project
/// among the recent ones ends the run in success however it went.
pub open spec fn advanced(p: Provisioner, report: Report) -> Provisioner {
    if p.aborted.is_some() || !answers(p.task, report) {
        p
    } else {
        match report {
            Report::Prerequisites(None) => moved(p, Stage::PrereqsChecked, Task::InspectDirectory),
            Report::Prerequisites(Some(missing)) => stopped(
                p,
                AbortReason::PrerequisiteMissing(missing),
            ),
            Report::Directory(DirectoryState::Missing) => turned(p, Task::CreateDirectory),
            Report::Directory(DirectoryState::NotADirectory) => stopped(
                p,
                AbortReason::NotADirectory,
            ),
            Report::Directory(DirectoryState::Empty) => moved(
                p,
                Stage::DirectoryPrepared,
                Task::CloneTemplate,
            ),
            Report::Directory(DirectoryState::Filled) => turned(p, Task::ConfirmDelete),
            Report::Answer(true) => turned(p, Task::ClearDirectory),
            Report::Answer(false) => stopped(p, AbortReason::Declined),
            Report::Template(language) => Provisioner {
                task: Task::CopyTemplate,
                language: Some(language),
                ..p
            },
            Report::Done(ok) => if ok || p.task == Task::Register {
                succeeded(p)
            } else {
                stopped(p, AbortReason::StepFailed(p.task))
            },
        }
    }
}

/// What holds of every state a run can be in: a run that ended early
/// has nothing pending; while it lasts, the pending task belongs to the
/// step after the last one done, and the language is known from the
/// moment it is chosen; bindings are installed for native projects only.
pub open spec fn coherent(p: Provisioner) -> bool {
    &&& p.aborted.is_some() ==> p.task == Task::Nothing
    &&& p.aborted.is_none() ==> match p.task {
        Task::CheckPrerequisites => p.stage == Stage::NotStarted && p.language.is_none(),
        Task::InspectDirectory | Task::CreateDirectory | Task::ConfirmDelete
        | Task::ClearDirectory => p.stage == Stage::PrereqsChecked && p.language.is_none(),
        Task::CloneTemplate => p.stage == Stage::DirectoryPrepared && p.language.is_none(),
        Task::ChooseTemplate => p.stage == Stage::TemplateCloned && p.language.is_none(),
        Task::CopyTemplate | Task::SetupEnvironment => p.stage == Stage::TemplateCloned
            && p.language.is_some(),
        Task::InstallBindings => p.stage == Stage::EnvironmentReady && p.language == Some(
            Language::Rust,
        ),
        Task::Register => (p.stage == Stage::EnvironmentReady && p.language == Some(
            Language::Python,
        )) || (p.stage == Stage::BindingsInstalled && p.language == Some(Language::Rust)),
        Task::Nothing => p.stage == Stage::Complete,
    }
    &&& p.stage == Stage::BindingsInstalled ==> p.language == Some(Language::Rust)
}

impl Provisioner {
    /// A run that has not started.
    pub fn new() -> (r: Self)
        ensures
            r == initial(),
            coherent(r),
    {
        Provisioner {
            stage: Stage::NotStarted,
            task: Task::CheckPrerequisites,
            language: None,
            aborted: None,
        }
    }

    /// Whether the run is over, in success or not.
    pub fn is_over(&self) -> (r: bool)
        ensures
            r == (self.task == Task::Nothing),
    {
        self.task == Task::Nothing
    }

    /// Whether the project was made.
    pub fn is_complete(&self) -> (r: bool)
        ensures
            r == (self.stage == Stage::Complete),
    {
        self.stage == Stage::Complete
    }

    /// The step in which the run ended early, if it did.
    pub fn aborted_in(&self) -> (r: Option<Stage>)
        ensures
            r == ended_in(*self),
    {
        if self.aborted.is_none() {
            return None;
        }
        Some(
            match self.stage {
                Stage::NotStarted => Stage::PrereqsChecked,
                Stage::PrereqsChecked => Stage::DirectoryPrepared,
                Stage::DirectoryPrepared => Stage::TemplateCloned,
                Stage::TemplateCloned => Stage::EnvironmentReady,
                Stage::EnvironmentReady => match self.language {
                    Some(Language::Rust) => Stage::BindingsInstalled,
                    _ => Stage::Complete,
                },
                Stage::BindingsInstalled => Stage::Complete,
                Stage::Complete => Stage::Complete,
            },
        )
    }

    fn stop(self, reason: AbortReason) -> (r: Self)
        ensures
            r == stopped(self, reason),
    {
        Provisioner { stage: self.stage, task: Task::Nothing, language: self.language, aborted: Some(reason) }
    }

    fn go(self, stage: Stage, task: Task) -> (r: Self)
        ensures
            r == moved(self, stage, task),
    {
        Provisioner { stage, task, language: self.language, aborted: self.aborted }
    }

    fn turn(self, task: Task) -> (r: Self)
        ensures
            r == turned(self, task),
    {
        Provisioner { stage: self.stage, task, language: self.language, aborted: self.aborted }
    }

    fn succeed(self) -> (r: Self)
        ensures
            r == succeeded(self),
    {
        match self.task {
            Task::CreateDirectory | Task::ClearDirectory => self.go(
                Stage::DirectoryPrepared,
                Task::CloneTemplate,
            ),
            Task::CloneTemplate => self.go(Stage::TemplateCloned, Task::ChooseTemplate),
            Task::CopyTemplate => self.turn(Task::SetupEnvironment),
            Task::SetupEnvironment => match self.language {
                Some(Language::Rust) => self.go(Stage::EnvironmentReady, Task::InstallBindings),
                _ => self.go(Stage::EnvironmentReady, Task::Register),
            },
            Task::InstallBindings => self.go(Stage::BindingsInstalled, Task::Register),
            Task::Register => self.go(Stage::Complete, Task::Nothing),
            _ => self,
        }
    }

    /// The state that follows on `report`.
    pub fn advance(self, report: Report) -> (r: Self)
        ensures
            r == advanced(self, report),
    {
        if self.aborted.is_some() {
            return self;
        }
        match (self.task, report) {
            (Task::CheckPrerequisites, Report::Prerequisites(None)) => self.go(
                Stage::PrereqsChecked,
                Task::InspectDirectory,
            ),
            (Task::CheckPrerequisites, Report::Prerequisites(Some(missing))) => self.stop(
                AbortReason::PrerequisiteMissing(missing),
            ),
            (Task::InspectDirectory, Report::Directory(state)) => match state {
                DirectoryState::Missing => self.turn(Task::CreateDirectory),
                DirectoryState::NotADirectory => self.stop(AbortReason::NotADirectory),
                DirectoryState::Empty => self.go(Stage::DirectoryPrepared, Task::CloneTemplate),
                DirectoryState::Filled => self.turn(Task::ConfirmDelete),
            },
            (Task::ConfirmDelete, Report::Answer(yes)) => if yes {
                self.turn(Task::ClearDirectory)
            } else {
                self.stop(AbortReason::Declined)
            },
            (Task::ChooseTemplate, Report::Template(language)) => Provisioner {
                stage: self.stage,
                task: Task::CopyTemplate,
                language: Some(language),
                aborted: self.aborted,
            },
            (Task::Register, Report::Done(_)) => self.succeed(),
            (
                Task::CreateDirectory | Task::ClearDirectory | Task::CloneTemplate
                | Task::CopyTemplate | Task::SetupEnvironment | Task::InstallBindings,
                Report::Done(ok),
            ) => if ok {
                self.succeed()
            } else {
                self.stop(AbortReason::StepFailed(self.task))
            },
            _ => self,
        }
    }
}

/// What the user is told when a run ends early for `reason`. Declining
/// the deletion is no error and is met with silence.
pub open spec fn abort_report(reason: AbortReason) -> Seq<Seq<char>> {
    match reason {
        AbortReason::PrerequisiteMissing(missing) => seq![
            missing_report(missing),
            "[-] Prerequisites not met, exiting..."@,
        ],
        AbortReason::NotADirectory => seq![
            "[-] File exists but is not a directory, cannot overwrite it, exiting..."@,
        ],
        AbortReason::Declined => Seq::empty(),
        AbortReason::StepFailed(task) => seq!["[-] Failed to create project"@],
    }
}

/// Writes out what the user is told when a run ends early for `reason`.
pub fn describe_abort(reason: AbortReason) -> (r: Vec<String>)
    ensures
        texts(r@) == abort_report(reason),
{
    let mut out: Vec<String> = Vec::new();
    match reason {
        AbortReason::PrerequisiteMissing(missing) => {
            out.push(describe_missing(missing));
            out.push(String::from_str("[-] Prerequisites not met, exiting..."));
        },
        AbortReason::NotADirectory => {
            out.push(
                String::from_str(
                    "[-] File exists but is not a directory, cannot overwrite it, exiting...",
                ),
            );
        },
        AbortReason::Declined => {},
        AbortReason::StepFailed(_) => {
            out.push(String::from_str("[-] Failed to create project"));
        },
    }
    assert(texts(out@) =~= abort_report(reason));
    out
}

/// What stands at a path of kind `kind` that holds `entries` entries.
pub fn directory_state(kind: EntryKind, entries: usize) -> (r: DirectoryState)
    ensures
        r == match kind {
            EntryKind::Missing => DirectoryState::Missing,
            EntryKind::File => DirectoryState::NotADirectory,
            EntryKind::Directory => if entries == 0 {
                DirectoryState::Empty
            } else {
                DirectoryState::Filled
            },
        },
{
    match kind {
        EntryKind::Missing => DirectoryState::Missing,
        EntryKind::File => DirectoryState::NotADirectory,
        EntryKind::Directory => if entries == 0 {
            DirectoryState::Empty
        } else {
            DirectoryState::Filled
        },
    }
}

/// Every state of a run is coherent: the first is, and each report
/// leads from a coherent state to a coherent one.
pub proof fn runs_stay_coherent(p: Provisioner, report: Report)
    requires
        coherent(p),
    ensures
        coherent(initial()),
        coherent(advanced(p, report)),
{
}

/// A run never goes back: no report lowers the stage, and an ended run
/// stays as it is. A task that fails ends the run in the step it
/// belongs to, and is named as the reason.
pub proof fn runs_never_go_back(p: Provisioner, report: Report)
    requires
        coherent(p),
    ensures
        rank(advanced(p, report).stage) >= rank(p.stage),
        p.task == Task::Nothing ==> advanced(p, report) == p,
        p.aborted.is_some() ==> advanced(p, report) == p,
        p.aborted.is_none() && touches_disk(p.task) ==> advanced(p, Report::Done(false))
            == stopped(p, AbortReason::StepFailed(p.task)),
{
}

/// Nothing on disk is touched before the prerequisites are found: a task
/// that changes the disk is pending only from that stage on, and a
/// missing prerequisite ends the run with nothing to do.
pub proof fn prerequisites_come_first(p: Provisioner, report: Report, missing: Prerequisite)
    requires
        coherent(p),
    ensures
        touches_disk(p.task) ==> rank(p.stage) >= rank(Stage::PrereqsChecked),
        advanced(initial(), Report::Prerequisites(Some(missing))) == stopped(
            initial(),
            AbortReason::PrerequisiteMissing(missing),
        ),
{
}

/// A filled directory is emptied only after the user agreed: the task
/// follows on nothing but a yes to the question, and a no ends the run
/// at once, the directory as it was.
pub proof fn nothing_is_deleted_unasked(p: Provisioner, report: Report)
    requires
        coherent(p),
        p.task != Task::ClearDirectory,
        advanced(p, report).task == Task::ClearDirectory,
    ensures
        p.task == Task::ConfirmDelete,
        report == Report::Answer(true),
        advanced(p, Report::Answer(false)) == stopped(p, AbortReason::Declined),
        ended_in(advanced(p, Report::Answer(false))) == Some(Stage::DirectoryPrepared),
        !touches_disk(advanced(p, Report::Answer(false)).task),
{
}

/// A run is complete only when every step before was done: the last
/// report answered the registration, which is pending only once the
/// environment stands and, for a native project, the bindings are in.
pub proof fn completion_is_earned(p: Provisioner, report: Report)
    requires
        coherent(p),
        p.stage != Stage::Complete,
        advanced(p, report).stage == Stage::Complete,
    ensures
        p.task == Task::Register,
        p.aborted.is_none(),
        p.language == Some(Language::Rust) ==> p.stage == Stage::BindingsInstalled,
        p.language == Some(Language::Python) ==> p.stage == Stage::EnvironmentReady,
{
}

/// A copy of a directory with all it holds, over what the goal holds.
#[derive(Clone, Debug, PartialEq, Eq)]
pub struct CopyPlan {
    pub source: String,
    pub destination: String,
}

/// Where the example `example` of the scaffold lies in the project at
/// `directory`.
pub open spec fn example_dir(platform: Platform, example: Seq<char>, directory: Seq<char>) -> Seq<
    char,
> {
    joined(platform, lib_dir(platform, directory), example)
}

/// The copy that puts the example `example` of the cloned scaffold over
/// the root of the project at `directory`.
pub fn copy_example(platform: Platform, example: &str, directory: &str) -> (r: CopyPlan)
    ensures
        r.source@ == example_dir(platform, example@, directory@),
        r.destination@ == directory@,
{
    let lib = lib_path(platform, directory);
    CopyPlan {
        source: join(platform, lib.as_str(), example),
        destination: String::from_str(directory),
    }
}

/// The call that clones the scaffold into the project at `directory`.
pub open spec fn scaffold_clone(platform: Platform, directory: Seq<char>) -> InvocationView {
    plain_call(
        "git"@,
        seq!["clone"@, STOURNEY_ARENA_REPO_URL@, lib_dir(platform, directory)],
    )
}

/// The work that makes a project in a prepared directory, in the order
/// in which it is done. Each part is done only if the one before
/// succeeded.
#[derive(Clone, Debug, PartialEq, Eq)]
pub struct ProjectPlan {
    /// Clones the scaffold into `lib`.
    pub clone: Invocation,
    /// Copies the chosen example over the project's root.
    pub copy: CopyPlan,
    /// Sets up the runtime environment in `venv`.
    pub environment: Vec<Invocation>,
}

/// Lays out the making of a project of `language` from `example` in the
/// prepared directory `project_directory`, with `interpreter` the one
/// that was found on the machine.
pub fn create_project(
    platform: Platform,
    interpreter: &str,
    project_directory: &str,
    language: Language,
    example: &str,
) -> (r: ProjectPlan)
    ensures
        r.clone@ == scaffold_clone(platform, project_directory@),
        r.copy.source@ == example_dir(platform, example@, project_directory@),
        r.copy.destination@ == project_directory@,
        calls(r.environment@) == environment_setup(
            platform,
            interpreter@,
            venv_dir(platform, project_directory@),
            language,
        ),
{
    let arena_lib = lib_path(platform, project_directory);
    let venv = venv_path(platform, project_directory);
    ProjectPlan {
        clone: clone_repo(arena_lib.as_str(), STOURNEY_ARENA_REPO_URL),
        copy: copy_example(platform, example, project_directory),
        environment: setup_venv(platform, interpreter, venv.as_str(), language),
    }
}

} // verus!
