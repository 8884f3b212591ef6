use vstd::prelude::*;

use crate::text::{contains_seq, lower_of, str_contains, str_eq, to_lower};

verus! {

/// The applications that a tool may run in: terminals first, then editors,
/// in the order in which they are tried.
pub open spec fn known_apps() -> Seq<Seq<char>> {
    seq![
        "Warp"@,
        "iTerm"@,
        "iTerm2"@,
        "Terminal"@,
        "Alacritty"@,
        "kitty"@,
        "Cursor"@,
        "Code"@,
        "Antigravity"@,
    ]
}

/// The number of known applications.
pub const KNOWN_APP_COUNT: usize = 9;

/// How many terminals lead the list of known applications.
pub const TERMINAL_APP_COUNT: usize = 6;

/// The known application at place `i`.
pub fn known_app(i: usize) -> (r: &'static str)
    requires
        i < KNOWN_APP_COUNT,
    ensures
        r@ == known_apps()[i as int],
{
    if i == 0 {
        "Warp"
    } else if i == 1 {
        "iTerm"
    } else if i == 2 {
        "iTerm2"
    } else if i == 3 {
        "Terminal"
    } else if i == 4 {
        "Alacritty"
    } else if i == 5 {
        "kitty"
    } else if i == 6 {
        "Cursor"
    } else if i == 7 {
        "Code"
    } else {
        "Antigravity"
    }
}

/// Whether a command line runs an application, both in lower case: the
/// line holds the application's bundle or a path ending in its name, or is
/// its name.
pub open spec fn lower_command_runs(cmd_lower: Seq<char>, app_lower: Seq<char>) -> bool {
    contains_seq(cmd_lower, app_lower + ".app"@) || contains_seq(cmd_lower, "/"@ + app_lower)
        || cmd_lower == app_lower
}

/// Whether a command line, in lower case, runs the application `app`.
pub open spec fn command_runs_app(cmd_lower: Seq<char>, app: Seq<char>) -> bool {
    lower_command_runs(cmd_lower, lower_of(app))
}

/// Whether the command line `cmd_lower` runs the application `app_lower`,
/// both in lower case.
pub fn lower_command_runs_app(cmd_lower: &str, app_lower: &str) -> (r: bool)
    ensures
        r == lower_command_runs(cmd_lower@, app_lower@),
{
    let bundle = String::from_str(app_lower).concat(".app");
    let path = String::from_str("/").concat(app_lower);
    str_contains(cmd_lower, bundle.as_str()) || str_contains(cmd_lower, path.as_str()) || str_eq(
        cmd_lower,
        app_lower,
    )
}

/// The first known application from place `i` on that a lower-case command
/// line runs.
pub open spec fn first_app_from(cmd_lower: Seq<char>, i: int) -> Option<Seq<char>>
    decreases known_apps().len() - i,
{
    if i < 0 || i >= known_apps().len() {
        None
    } else if command_runs_app(cmd_lower, known_apps()[i]) {
        Some(known_apps()[i])
    } else {
        first_app_from(cmd_lower, i + 1)
    }
}

/// The known application that a command line runs, the first in the list.
pub open spec fn app_for_command(cmd: Seq<char>) -> Option<Seq<char>> {
    first_app_from(lower_of(cmd), 0)
}

/// The known application that the command line `cmd` runs, if any.
pub fn known_app_for_command(cmd: &str) -> (r: Option<&'static str>)
    ensures
        match r {
            Some(a) => app_for_command(cmd@) == Some(a@),
            None => app_for_command(cmd@) is None,
        },
{
    let c = to_lower(cmd);
    let mut i: usize = 0;
    while i < KNOWN_APP_COUNT
        invariant
            c@ == lower_of(cmd@),
            i <= KNOWN_APP_COUNT,
            first_app_from(c@, 0) == first_app_from(c@, i as int),
        decreases KNOWN_APP_COUNT - i,
    {
        let app = known_app(i);
        let a = to_lower(app);
        if lower_command_runs_app(c.as_str(), a.as_str()) {
            return Some(app);
        }
        i = i + 1;
    }
    None
}

/// Whether a line of `lsof` output is the working-directory entry of a
/// process in `cwd`: it holds the word `cwd` and the directory.
pub fn lsof_line_shows_cwd(line: &str, cwd: &str) -> (r: bool)
    ensures
        r == (contains_seq(line@, "cwd"@) && contains_seq(line@, cwd@)),
{
    str_contains(line, "cwd") && str_contains(line, cwd)
}

/// The most levels that a walk up the process tree climbs.
pub const MAX_WALK_DEPTH: usize = 10;

/// What a walk up the process tree does after looking at one process.
#[derive(Debug, Clone, Copy)]
pub enum WalkStep {
    /// The process is a known application.
    Found(&'static str),
    /// Go on to the parent with this pid.
    Up(u32),
    /// Give up: the process is gone, or its parent is the init process.
    Stop,
}

/// The step of a walk up the process tree after reading a process's command
/// line and parent pid (`None` where the process could not be read).
pub fn walk_step(info: &Option<(String, u32)>) -> (r: WalkStep)
    ensures
        info is None ==> r == WalkStep::Stop,
        info matches Some(p) ==> match app_for_command(p.0@) {
            Some(a) => r matches WalkStep::Found(f) && f@ == a,
            None => r == if p.1 == 0 || p.1 == 1 {
                WalkStep::Stop
            } else {
                WalkStep::Up(p.1)
            },
        },
{
    match info {
        None => WalkStep::Stop,
        Some((cmd, ppid)) => match known_app_for_command(cmd.as_str()) {
            Some(a) => WalkStep::Found(a),
            None => if *ppid == 0 || *ppid == 1 {
                WalkStep::Stop
            } else {
                WalkStep::Up(*ppid)
            },
        },
    }
}

} // verus!
