//! The questions put to the user, and what the answers mean.
//!
//! The caller shows a question and hands back the place of the option
//! that was picked; the library says what that choice stands for.

use vstd::prelude::*;
use crate::config::{ProjectConfig, added, add_to_recents, with_recents};
use crate::paths::{Platform, join, joined};
use crate::project::{Language, check_project, check_report, is_project};
use crate::snapshot::FsSnapshot;
use crate::text::{decimal, decimal_text, texts};

verus! {

/// A question with the options to pick from. The first option is the
/// one offered by default.
#[derive(Clone, Debug, PartialEq, Eq)]
pub struct Question {
    pub prompt: String,
    pub options: Vec<String>,
}

/// The mathematical content of a question.
pub struct QuestionView {
    pub prompt: Seq<char>,
    pub options: Seq<Seq<char>>,
}

impl View for Question {
    type V = QuestionView;

    open spec fn view(&self) -> QuestionView {
        QuestionView { prompt: self.prompt@, options: texts(self.options@) }
    }
}

fn ask2(prompt: &str, a: &str, b: &str) -> (r: Question)
    ensures
        r@ == (QuestionView { prompt: prompt@, options: seq![a@, b@] }),
{
    let mut options: Vec<String> = Vec::new();
    options.push(String::from_str(a));
    options.push(String::from_str(b));
    assert(texts(options@) =~= seq![a@, b@]);
    Question { prompt: String::from_str(prompt), options }
}

fn ask5(prompt: &str, a: &str, b: &str, c: &str, d: &str, e: &str) -> (r: Question)
    ensures
        r@ == (QuestionView { prompt: prompt@, options: seq![a@, b@, c@, d@, e@] }),
{
    let mut options: Vec<String> = Vec::new();
    options.push(String::from_str(a));
    options.push(String::from_str(b));
    options.push(String::from_str(c));
    options.push(String::from_str(d));
    options.push(String::from_str(e));
    assert(texts(options@) =~= seq![a@, b@, c@, d@, e@]);
    Question { prompt: String::from_str(prompt), options }
}

/// The question whether a directory that holds something may be emptied.
pub fn confirm_delete_question() -> (r: Question)
    ensures
        r@ == (QuestionView {
            prompt: "This directory is not empty, would you like to delete its contents?"@,
            options: seq!["Yes"@, "No"@],
        }),
{
    ask2("This directory is not empty, would you like to delete its contents?", "Yes", "No")
}

/// Whether the answer at place `selection` agrees to the deletion: only
/// the first option does.
pub fn confirm_delete(selection: usize) -> (r: bool)
    ensures
        r == (selection == 0),
{
    selection == 0
}

/// The question which language the project is written in.
pub fn language_question() -> (r: Question)
    ensures
        r@ == (QuestionView {
            prompt: "Choose the language you'd like to develop in"@,
            options: seq!["Python"@, "Rust"@],
        }),
{
    ask2("Choose the language you'd like to develop in", "Python", "Rust")
}

/// The language at place `selection`; none beyond the two there are.
pub fn language(selection: usize) -> (r: Option<Language>)
    ensures
        r == if selection == 0 {
            Some(Language::Python)
        } else if selection == 1 {
            Some(Language::Rust)
        } else {
            None::<Language>
        },
{
    if selection == 0 {
        Some(Language::Python)
    } else if selection == 1 {
        Some(Language::Rust)
    } else {
        None
    }
}

/// The example `name` for `language` inside the scaffold.
pub open spec fn example_path(platform: Platform, language: Seq<char>, name: Seq<char>) -> Seq<
    char,
> {
    joined(platform, joined(platform, "examples"@, language), name)
}

fn example(platform: Platform, language: &str, name: &str) -> (r: String)
    ensures
        r@ == example_path(platform, language@, name@),
{
    let dir = join(platform, "examples", language);
    join(platform, dir.as_str(), name)
}

/// The question which native example to start from.
pub fn rust_template_question() -> (r: Question)
    ensures
        r@ == (QuestionView {
            prompt: "Choose the Rust template you'd like to use"@,
            options: seq![
                "Default"@,
                "Board and History Example"@,
                "Actions Example"@,
                "Cards Example"@,
                "Simple Example"@,
            ],
        }),
{
    ask5(
        "Choose the Rust template you'd like to use",
        "Default",
        "Board and History Example",
        "Actions Example",
        "Cards Example",
        "Simple Example",
    )
}

/// The name of the native example that the option at place `selection`
/// names; the default is the simple one.
pub open spec fn rust_example(selection: usize) -> Option<Seq<char>> {
    if selection == 0 || selection == 4 {
        Some("simple"@)
    } else if selection == 1 {
        Some("board_and_history"@)
    } else if selection == 2 {
        Some("actions"@)
    } else if selection == 3 {
        Some("cards"@)
    } else {
        None
    }
}

/// Where the native example at place `selection` lies inside the
/// scaffold; none beyond the five there are.
pub fn rust_template(platform: Platform, selection: usize) -> (r: Option<String>)
    ensures
        match rust_example(selection) {
            Some(name) => r.is_some() && r.unwrap()@ == example_path(platform, "rust"@, name),
            None => r.is_none(),
        },
{
    if selection == 0 || selection == 4 {
        Some(example(platform, "rust", "simple"))
    } else if selection == 1 {
        Some(example(platform, "rust", "board_and_history"))
    } else if selection == 2 {
        Some(example(platform, "rust", "actions"))
    } else if selection == 3 {
        Some(example(platform, "rust", "cards"))
    } else {
        None
    }
}

/// The question which script example to start from.
pub fn python_template_question() -> (r: Question)
    ensures
        r@ == (QuestionView {
            prompt: "Choose the Python template you'd like to use"@,
            options: seq![
                "Default"@,
                "Board and History Example"@,
                "Actions Example"@,
                "Cards Example"@,
                "Timeout Example"@,
            ],
        }),
{
    ask5(
        "Choose the Python template you'd like to use",
        "Default",
        "Board and History Example",
        "Actions Example",
        "Cards Example",
        "Timeout Example",
    )
}

/// The name of the script example that the option at place `selection`
/// names; the default is the one on timeouts.
pub open spec fn python_example(selection: usize) -> Option<Seq<char>> {
    if selection == 0 || selection == 4 {
        Some("timeout"@)
    } else if selection == 1 {
        Some("board_and_history"@)
    } else if selection == 2 {
        Some("actions"@)
    } else if selection == 3 {
        Some("cards"@)
    } else {
        None
    }
}

/// Where the script example at place `selection` lies inside the
/// scaffold; none beyond the five there are.
pub fn python_template(platform: Platform, selection: usize) -> (r: Option<String>)
    ensures
        match python_example(selection) {
            Some(name) => r.is_some() && r.unwrap()@ == example_path(platform, "python"@, name),
            None => r.is_none(),
        },
{
    if selection == 0 || selection == 4 {
        Some(example(platform, "python", "timeout"))
    } else if selection == 1 {
        Some(example(platform, "python", "board_and_history"))
    } else if selection == 2 {
        Some(example(platform, "python", "actions"))
    } else if selection == 3 {
        Some(example(platform, "python", "cards"))
    } else {
        None
    }
}

/// The question how many competitors take part.
pub fn num_competitors_question() -> (r: Question)
    ensures
        r@ == (QuestionView {
            prompt: "Choose the number of competitors"@,
            options: seq!["2"@, "3"@, "4"@],
        }),
{
    let mut options: Vec<String> = Vec::new();
    options.push(String::from_str("2"));
    options.push(String::from_str("3"));
    options.push(String::from_str("4"));
    assert(texts(options@) =~= seq!["2"@, "3"@, "4"@]);
    Question { prompt: String::from_str("Choose the number of competitors"), options }
}

/// The number of competitors at place `selection`: two, three or four.
pub fn num_competitors(selection: usize) -> (r: Option<usize>)
    ensures
        r == if selection < 3 {
            Some((selection + 2) as usize)
        } else {
            None::<usize>
        },
{
    if selection < 3 {
        Some(selection + 2)
    } else {
        None
    }
}

/// How many of `count` recent projects are shown.
pub open spec fn shown(count: int) -> int {
    if count < 9 {
        count
    } else {
        9
    }
}

/// The option that stands for a path typed in by hand.
pub open spec fn manual_entry() -> Seq<char> {
    "Other..."@
}

/// The options offered for a seat: the most recent projects, nine at
/// most, and after them the entry for a path typed in by hand.
pub open spec fn recent_options(recents: Seq<Seq<char>>) -> Seq<Seq<char>> {
    recents.take(shown(recents.len() as int)).push(manual_entry())
}

/// The question which project takes the seat `competitor_num`.
pub open spec fn recent_question(recents: Seq<Seq<char>>, competitor_num: usize) -> QuestionView {
    QuestionView {
        prompt: "[Competitor "@ + decimal(competitor_num as nat) + "] Select a recent project"@,
        options: recent_options(recents),
    }
}

/// Puts together the question which project takes a seat.
pub fn select_recent_question(cfg: &ProjectConfig, competitor_num: usize) -> (r: Question)
    ensures
        r@ == recent_question(cfg@.recents, competitor_num),
{
    let mut prompt = String::from_str("[Competitor ");
    let number = decimal_text(competitor_num as u64);
    prompt.append(number.as_str());
    prompt.append("] Select a recent project");
    let mut options: Vec<String> = Vec::new();
    let mut i: usize = 0;
    while i < cfg.recents.len() && i < 9
        invariant
            i <= cfg.recents.len(),
            i <= 9,
            texts(options@) == cfg@.recents.take(i as int),
        decreases cfg.recents.len() - i,
    {
        let ghost so_far = options@;
        options.push(cfg.recents[i].clone());
        assert(texts(options@) =~= texts(so_far).push(cfg.recents@[i as int]@));
        assert(cfg@.recents[i as int] == cfg.recents@[i as int]@);
        i = i + 1;
        assert(cfg@.recents.take(i as int) =~= cfg@.recents.take(i - 1).push(
            cfg@.recents[i - 1],
        ));
    }
    options.push(String::from_str("Other..."));
    assert(texts(options@) =~= recent_options(cfg@.recents));
    Question { prompt, options }
}

/// What the pick of an option for a seat stands for.
#[derive(Clone, Debug, PartialEq, Eq)]
pub enum RecentChoice {
    /// One of the recent projects.
    Listed(String),
    /// A path is to be typed in by hand.
    Manual,
    /// No option stands at that place.
    OutOfRange,
}

/// Says what the pick at place `selection` stands for: a recent project
/// where one is shown there, the entry by hand right after the last one
/// shown.
pub fn recent_choice(cfg: &ProjectConfig, selection: usize) -> (r: RecentChoice)
    ensures
        match r {
            RecentChoice::Listed(path) => selection < shown(cfg@.recents.len() as int) && path@
                == cfg@.recents[selection as int],
            RecentChoice::Manual => selection == shown(cfg@.recents.len() as int),
            RecentChoice::OutOfRange => selection > shown(cfg@.recents.len() as int),
        },
{
    let count: usize = if cfg.recents.len() < 9 {
        cfg.recents.len()
    } else {
        9
    };
    if selection < count {
        RecentChoice::Listed(cfg.recents[selection].clone())
    } else if selection == count {
        RecentChoice::Manual
    } else {
        RecentChoice::OutOfRange
    }
}

/// What is said when the directory picked for a seat is no project.
pub open spec fn rejection() -> Seq<char> {
    "[-] Invalid project directory"@
}

/// Takes `directory` for a seat if it is a project: it is then put among
/// the recent projects and handed back. If it is none, the configuration
/// stays as it is and `report` is told why.
pub fn select_recent_project(
    cfg: &mut ProjectConfig,
    fs: &FsSnapshot,
    directory: &str,
    report: &mut Vec<String>,
) -> (r: Option<String>)
    ensures
        r.is_some() == is_project(fs@, directory@),
        r.is_some() ==> r.unwrap()@ == directory@,
        is_project(fs@, directory@) ==> final(cfg)@ == with_recents(
            old(cfg)@,
            added(fs@, old(cfg)@.recents, directory@),
        ) && texts(final(report)@) == texts(old(report)@),
        !is_project(fs@, directory@) ==> final(cfg)@ == old(cfg)@ && texts(final(report)@)
            == (texts(old(report)@) + check_report(fs@, directory@, true)).push(rejection()),
{
    if check_project(fs, directory, true, report) {
        assert(check_report(fs@, directory@, true) =~= Seq::<Seq<char>>::empty());
        assert(texts(report@) =~= texts(old(report)@));
        add_to_recents(cfg, fs, directory);
        Some(String::from_str(directory))
    } else {
        let ghost before = report@;
        report.push(String::from_str("[-] Invalid project directory"));
        assert(texts(report@) =~= texts(before).push(rejection()));
        None
    }
}

} // verus!
