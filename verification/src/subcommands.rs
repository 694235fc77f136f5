//! What each command of the tool comes to.

use vstd::prelude::*;
use crate::config::{ConfigView, ProjectConfig};
use crate::constants::VERSION;
use crate::text::texts;

verus! {

/// The line that names the running version.
pub fn version_command() -> (r: String)
    ensures
        r@ == "stourney v"@ + VERSION@,
{
    let mut out = String::from_str("stourney v");
    out.append(VERSION);
    out
}

/// What can be done with the configuration.
#[derive(Clone, Copy, Debug, PartialEq, Eq, Structural)]
pub enum ConfigCommands {
    /// Select the competitors anew.
    Edit,
    /// Show the selected competitors.
    Show,
}

/// What the configuration command does: without a subcommand it shows.
pub fn config_action(command: Option<ConfigCommands>) -> (r: ConfigCommands)
    ensures
        r == match command {
            Some(c) => c,
            None => ConfigCommands::Show,
        },
{
    match command {
        Some(c) => c,
        None => ConfigCommands::Show,
    }
}

/// The line that shows one competitor.
pub open spec fn entry_line(competitor: Seq<char>) -> Seq<char> {
    "  - "@ + competitor
}

/// What is said of the selected competitors: a heading, a hint where
/// nobody is selected, and a line for each competitor in seating order.
pub open spec fn competitor_lines(selected: Seq<Seq<char>>) -> Seq<Seq<char>> {
    let heading = seq!["[+] Competitors:"@];
    let hint = if selected.len() == 0 {
        seq![
            "No competitors selected yet!"@,
            "try running \n\tstourney config edit\nto add some competitors."@,
        ]
    } else {
        Seq::empty()
    };
    heading + hint + selected.map_values(|c: Seq<char>| entry_line(c))
}

/// The lines that show the selected competitors.
pub fn display_competitors(cfg: &ProjectConfig) -> (r: Vec<String>)
    ensures
        texts(r@) == competitor_lines(cfg@.selected_projects),
{
    let mut out: Vec<String> = Vec::new();
    out.push(String::from_str("[+] Competitors:"));
    if cfg.selected_projects.len() == 0 {
        out.push(String::from_str("No competitors selected yet!"));
        out.push(
            String::from_str("try running \n\tstourney config edit\nto add some competitors."),
        );
    }
    let ghost head = texts(out@);
    let mut i: usize = 0;
    assert(head + cfg@.selected_projects.take(0).map_values(|c: Seq<char>| entry_line(c))
        =~= head);
    while i < cfg.selected_projects.len()
        invariant
            i <= cfg.selected_projects.len(),
            texts(out@) == head + cfg@.selected_projects.take(i as int).map_values(
                |c: Seq<char>| entry_line(c),
            ),
        decreases cfg.selected_projects.len() - i,
    {
        let mut line = String::from_str("  - ");
        line.append(cfg.selected_projects[i].as_str());
        let ghost so_far = out@;
        out.push(line);
        assert(texts(out@) =~= texts(so_far).push(entry_line(cfg@.selected_projects[i as int])));
        i = i + 1;
        assert(cfg@.selected_projects.take(i as int).map_values(|c: Seq<char>| entry_line(c))
            =~= cfg@.selected_projects.take(i - 1).map_values(|c: Seq<char>| entry_line(c)).push(
            entry_line(cfg@.selected_projects[i - 1]),
        ));
    }
    assert(cfg@.selected_projects.take(i as int) =~= cfg@.selected_projects);
    out
}

/// The lines that show the selected competitors.
pub fn show_competitors(cfg: &ProjectConfig) -> (r: Vec<String>)
    ensures
        texts(r@) == competitor_lines(cfg@.selected_projects),
{
    display_competitors(cfg)
}

/// Takes the answer for a seat: a project that was picked joins the
/// competitors while seats are free. Returns whether a seat is still
/// free, that is whether another pick is to be asked for.
pub fn take_choice(competitors: &mut Vec<String>, choice: Option<String>, wanted: usize) -> (r:
    bool)
    ensures
        final(competitors)@ == if choice.is_some() && old(competitors).len() < wanted {
            old(competitors)@.push(choice.unwrap())
        } else {
            old(competitors)@
        },
        r == (final(competitors).len() < wanted),
{
    match choice {
        Some(path) => {
            if competitors.len() < wanted {
                competitors.push(path);
            }
        },
        None => {},
    }
    competitors.len() < wanted
}

/// What is said after the competitors were selected anew.
pub open spec fn configured_lines(selected: Seq<Seq<char>>) -> Seq<Seq<char>> {
    seq![Seq::<char>::empty(), "[+] Configuration saved successfully!"@] + competitor_lines(
        selected,
    ) + seq!["[+] To run the project, try: \n\tstourney run"@]
}

/// Makes `competitors` the selected projects, in that order, and hands
/// back what is said of it.
pub fn configure_command(cfg: &mut ProjectConfig, competitors: Vec<String>) -> (r: Vec<String>)
    ensures
        final(cfg)@ == (ConfigView { selected_projects: texts(competitors@), ..old(cfg)@ }),
        texts(r@) == configured_lines(texts(competitors@)),
{
    cfg.selected_projects = competitors;
    let mut out: Vec<String> = Vec::new();
    out.push(String::new());
    out.push(String::from_str("[+] Configuration saved successfully!"));
    let ghost head = texts(out@);
    assert(head =~= seq![Seq::<char>::empty(), "[+] Configuration saved successfully!"@]);
    let mut shown = display_competitors(cfg);
    let ghost middle = texts(shown@);
    out.append(&mut shown);
    assert(texts(out@) =~= head + middle);
    let ghost so_far = out@;
    out.push(String::from_str("[+] To run the project, try: \n\tstourney run"));
    assert(texts(out@) =~= texts(so_far).push("[+] To run the project, try: \n\tstourney run"@));
    assert(texts(out@) =~= configured_lines(texts(competitors@)));
    out
}

} // verus!
