use focus_guard::event::{CliEvent, CliMessage};
use focus_guard::lsof::{cwd_from_line, parse_lsof_cwd, parse_pid, split_words, white_space};
use focus_guard::registry::StateManager;
use focus_guard::scan::{
    contains_any_of, dedup_by_lower_name, fallback_messages, is_cli_process_name, occurs_in_any_of,
    sort_by_name, str_le, unique_by_name, ProcessInfo,
};
use focus_guard::text::str_contains;
use focus_guard::window::{
    known_app, known_app_for_command, lower_command_runs_app, lsof_line_shows_cwd, walk_step, WalkStep, KNOWN_APP_COUNT,
    TERMINAL_APP_COUNT,
};

fn process(name: &str, pid: u32) -> ProcessInfo {
    ProcessInfo { name: name.to_string(), pid, status: "running".to_string(), cwd: None }
}

fn strings(v: &[&str]) -> Vec<String> {
    v.iter().map(|s| s.to_string()).collect()
}

#[test]
fn substring_search() {
    assert!(str_contains("hello world", "o w"));
    assert!(str_contains("abc", ""));
    assert!(str_contains("abc", "abc"));
    assert!(!str_contains("abc", "abcd"));
    assert!(!str_contains("", "a"));
    assert!(str_contains("版本号", "本"));
}

#[test]
fn lower_case_matching() {
    assert!(lower_command_runs_app("/applications/warp.app/x", "warp"));
    assert!(lower_command_runs_app("/usr/bin/kitty", "kitty"));
    assert!(lower_command_runs_app("code", "code"));
    assert!(!lower_command_runs_app("/applications/warp.app/x", "Warp"));
    assert!(!lower_command_runs_app("vscode", "code"));
    assert_eq!(known_app_for_command("/APPLICATIONS/WARP.APP/X"), Some("Warp"));
    let msgs = fallback_messages(&vec![process("ÉCOLE", 3)], &vec![], &vec![]);
    assert_eq!(msgs[0].cli, "école");
}

#[test]
fn pattern_lists() {
    let pats = strings(&["gemini", "qwen"]);
    assert!(contains_any_of("gemini-cli", &pats));
    assert!(!contains_any_of("codex", &pats));
    let names = strings(&["codex", "gemini"]);
    assert!(occurs_in_any_of(&names, "gem"));
    assert!(!occurs_in_any_of(&names, "qwen"));
}

#[test]
fn unhooked_process_gets_a_working_event() {
    let msgs = fallback_messages(&vec![process("Codex", 5)], &vec![], &strings(&["gemini"]));
    assert_eq!(msgs.len(), 1);
    assert_eq!(msgs[0].cli, "codex");
    assert_eq!(msgs[0].event, CliEvent::Working);
    assert_eq!(msgs[0].pid, Some(5));
    assert_eq!(msgs[0].session_id, None);
}

#[test]
fn hooked_or_known_processes_are_left_alone() {
    let hooked = strings(&["gemini"]);
    let msgs = fallback_messages(&vec![process("gemini", 1), process("codex", 2)], &strings(&["codex"]), &hooked);
    assert!(msgs.is_empty());
}

#[test]
fn vanished_tool_gets_a_session_end() {
    let hooked = strings(&["gemini"]);
    let msgs = fallback_messages(&vec![], &strings(&["codex", "gemini:a"]), &hooked);
    assert_eq!(msgs.len(), 1);
    assert_eq!(msgs[0].cli, "codex");
    assert_eq!(msgs[0].event, CliEvent::SessionEnd);
    assert_eq!(msgs[0].pid, None);
}

#[test]
fn registry_fallback_round() {
    let hooked = strings(&["gemini"]);
    let mut m = StateManager::new();
    let scan = vec![process("codex", 9)];
    let first = m.fallback_messages(&scan, &hooked);
    assert_eq!(first.len(), 1);
    for msg in &first {
        m.handle_message(msg, 0);
    }
    assert!(m.fallback_messages(&scan, &hooked).is_empty());
    let gone = m.fallback_messages(&vec![], &hooked);
    assert_eq!(gone.len(), 1);
    assert_eq!(gone[0].event, CliEvent::SessionEnd);
    let e = m.handle_message(&gone[0], 1);
    assert_eq!(e.state, focus_guard::session::CliState::Offline);
    let none: Option<CliMessage> = None;
    assert!(none.is_none());
}

#[test]
fn known_applications_in_order() {
    let names: Vec<&str> = (0..KNOWN_APP_COUNT).map(known_app).collect();
    assert_eq!(
        names,
        vec!["Warp", "iTerm", "iTerm2", "Terminal", "Alacritty", "kitty", "Cursor", "Code", "Antigravity"]
    );
    assert_eq!(TERMINAL_APP_COUNT, 6);
}

#[test]
fn command_lines_to_applications() {
    assert_eq!(known_app_for_command("/Applications/iTerm.app/Contents/MacOS/iTerm2"), Some("iTerm"));
    assert_eq!(known_app_for_command("/usr/local/bin/kitty"), Some("kitty"));
    assert_eq!(known_app_for_command("Code"), Some("Code"));
    assert_eq!(
        known_app_for_command("/Applications/Visual Studio Code.app/Contents/MacOS/Electron"),
        Some("Code")
    );
    assert_eq!(known_app_for_command("/Applications/Warp.app/Contents/MacOS/stable"), Some("Warp"));
    assert_eq!(known_app_for_command("-zsh"), None);
}

#[test]
fn process_tree_walk_steps() {
    assert!(matches!(walk_step(&None), WalkStep::Stop));
    assert!(matches!(walk_step(&Some(("bash".to_string(), 1))), WalkStep::Stop));
    assert!(matches!(walk_step(&Some(("bash".to_string(), 0))), WalkStep::Stop));
    assert!(matches!(walk_step(&Some(("bash".to_string(), 500))), WalkStep::Up(500)));
    assert!(matches!(
        walk_step(&Some(("/Applications/Warp.app/x".to_string(), 7))),
        WalkStep::Found("Warp")
    ));
}

#[test]
fn lsof_working_directory_lines() {
    let line = "zsh 123 u cwd DIR 1,4 640 2 /Users/u/proj";
    assert!(lsof_line_shows_cwd(line, "/Users/u/proj"));
    assert!(!lsof_line_shows_cwd(line, "/Users/u/other"));
    assert!(!lsof_line_shows_cwd("zsh 123 u txt REG /Users/u/proj", "/Users/u/proj"));
}

#[test]
fn lsof_listing_gives_working_directory() {
    let listing = "COMMAND PID USER FD TYPE DEVICE SIZE/OFF NODE NAME\n\
                   zsh 123 u cwd DIR 1,4 640 2 /Users/u/my   proj\n\
                   zsh 123 u txt REG 1,4 640 3 /bin/zsh\n";
    assert_eq!(parse_lsof_cwd(listing).as_deref(), Some("/Users/u/my proj"));
    assert_eq!(parse_lsof_cwd("zsh 1 u cwd DIR\nzsh 1 u cwd DIR 1,4 640 2 /tmp"), Some("/tmp".to_string()));
    assert_eq!(parse_lsof_cwd(""), None);
    assert_eq!(parse_lsof_cwd("zsh 1 u txt REG 1,4 640 2 /tmp"), None);
    assert_eq!(cwd_from_line("a b c cwd e f g h /x\r"), Some("/x".to_string()));
    assert_eq!(split_words("  a\tb\u{3000}c  "), vec!["a", "b", "c"]);
    assert!(split_words(" \n ").is_empty());
    assert!(white_space('\u{85}'));
    assert!(!white_space('x'));
}

#[test]
fn text_order() {
    assert!(str_le("abc", "abd"));
    assert!(str_le("ab", "abc"));
    assert!(str_le("", ""));
    assert!(!str_le("b", "abc"));
    assert!(str_le("Codex", "aider"));
    assert!(str_le("z", "é"));
}

fn names(v: &[ProcessInfo]) -> Vec<(String, u32)> {
    v.iter().map(|p| (p.name.clone(), p.pid)).collect()
}

#[test]
fn processes_sort_stably_by_name() {
    let v = vec![process("codex", 1), process("aider", 2), process("codex", 3), process("Codex", 4)];
    assert_eq!(
        names(&sort_by_name(v)),
        vec![
            ("Codex".to_string(), 4),
            ("aider".to_string(), 2),
            ("codex".to_string(), 1),
            ("codex".to_string(), 3)
        ]
    );
    assert!(sort_by_name(vec![]).is_empty());
}

#[test]
fn processes_dedup_by_lower_name() {
    let v = vec![process("codex", 1), process("CODEX", 2), process("gemini", 3), process("codex", 4)];
    assert_eq!(
        names(&dedup_by_lower_name(v)),
        vec![("codex".to_string(), 1), ("gemini".to_string(), 3), ("codex".to_string(), 4)]
    );
}

#[test]
fn scan_keeps_one_process_per_name() {
    let v = vec![process("gemini", 7), process("codex", 5), process("gemini", 2)];
    assert_eq!(
        names(&unique_by_name(v)),
        vec![("codex".to_string(), 5), ("gemini".to_string(), 7)]
    );
}

#[test]
fn cli_process_names_match_exactly() {
    let wanted = strings(&["gemini", "codex"]);
    assert!(is_cli_process_name("Gemini", &wanted));
    assert!(is_cli_process_name("codex", &wanted));
    assert!(!is_cli_process_name("codex-helper", &wanted));
    assert!(!is_cli_process_name("", &wanted));
}

#[test]
fn pids_from_command_output() {
    assert_eq!(parse_pid(" 123\n"), Some(123));
    assert_eq!(parse_pid("+7"), Some(7));
    assert_eq!(parse_pid("00012"), Some(12));
    assert_eq!(parse_pid("4294967295"), Some(u32::MAX));
    assert_eq!(parse_pid("4294967296"), None);
    assert_eq!(parse_pid("99999999999999999999"), None);
    assert_eq!(parse_pid(""), None);
    assert_eq!(parse_pid("  "), None);
    assert_eq!(parse_pid("+"), None);
    assert_eq!(parse_pid("-1"), None);
    assert_eq!(parse_pid("12a"), None);
    assert_eq!(parse_pid("1 2"), None);
    assert_eq!(parse_pid("\u{3000}5\u{85}"), Some(5));
    for s in [" 42 ", "+0", "x", "", "4294967296", "\t9\r\n"] {
        assert_eq!(parse_pid(s), s.trim().parse::<u32>().ok());
    }
}
