use focus_guard::event::{CliEvent, CliMessage};
use focus_guard::registry::StateManager;
use focus_guard::session::{capitalize_first, make_state_key, CliState, CliStatus};

fn msg(cli: &str, event: &str, session_id: Option<&str>) -> CliMessage {
    CliMessage::from_wire(
        cli.to_string(),
        event,
        None,
        None,
        session_id.map(|s| s.to_string()),
        None,
    )
    .expect("known event")
}

fn states(m: &StateManager) -> Vec<CliState> {
    m.get_states().iter().map(|s| s.state).collect()
}

#[test]
fn wire_names_decode_to_events() {
    assert_eq!(CliEvent::from_wire_name("session_start"), Some(CliEvent::SessionStart));
    assert_eq!(CliEvent::from_wire_name("session_end"), Some(CliEvent::SessionEnd));
    assert_eq!(CliEvent::from_wire_name("working"), Some(CliEvent::Working));
    assert_eq!(CliEvent::from_wire_name("stop"), Some(CliEvent::Stop));
    assert_eq!(CliEvent::from_wire_name("idle_prompt"), Some(CliEvent::IdlePrompt));
    assert_eq!(
        CliEvent::from_wire_name("permission_prompt"),
        Some(CliEvent::PermissionPrompt)
    );
    assert_eq!(CliEvent::from_wire_name("Stop"), None);
    assert_eq!(CliEvent::from_wire_name(""), None);
}

#[test]
fn message_from_wire_keeps_fields() {
    let m = CliMessage::from_wire(
        "gemini".to_string(),
        "working",
        Some(42),
        Some(7),
        Some("s1".to_string()),
        Some("/tmp/p".to_string()),
    )
    .unwrap();
    assert_eq!(m.cli, "gemini");
    assert_eq!(m.event, CliEvent::Working);
    assert_eq!(m.pid, Some(42));
    assert_eq!(m.timestamp, Some(7));
    assert_eq!(m.session_id.as_deref(), Some("s1"));
    assert_eq!(m.cwd.as_deref(), Some("/tmp/p"));
    assert!(CliMessage::from_wire("gemini".to_string(), "bogus", None, None, None, None).is_none());
}

#[test]
fn capitalize_first_upper_cases_first_char() {
    assert_eq!(capitalize_first("aider"), "Aider");
    assert_eq!(capitalize_first(""), "");
    assert_eq!(capitalize_first("émile"), "Émile");
    assert_eq!(capitalize_first("ß"), "SS");
}

#[test]
fn state_key_joins_tool_and_session() {
    assert_eq!(make_state_key("aider", Some("a")), "aider:a");
    assert_eq!(make_state_key("aider", None), "aider");
}

#[test]
fn display_name_uses_last_path_component() {
    let name = |cwd: Option<&str>| {
        CliStatus::format_display_name("aider", &cwd.map(|s| s.to_string()))
    };
    assert_eq!(name(Some("/home/u/my-project")), "Aider - my-project");
    assert_eq!(name(Some("/home/u/my-project/")), "Aider - my-project");
    assert_eq!(name(Some("/")), "Aider - /");
    assert_eq!(name(None), "Aider");
    let s = CliStatus::with_details("codex".to_string(), None, Some("/w/app".to_string()), 5);
    assert_eq!(s.display_name, "Codex - app");
    assert_eq!(s.state, CliState::Offline);
    assert_eq!(s.last_update, 5);
    assert_eq!(CliStatus::new("gemini".to_string(), 0).display_name, "Gemini");
}

#[test]
fn transition_table() {
    let mut s = CliStatus::new("aider".to_string(), 0);
    s.apply_event(&msg("aider", "stop", None), 1);
    assert_eq!(s.state, CliState::Working);
    assert_eq!(s.stop_received_at, Some(1));
    s.apply_event(&msg("aider", "idle_prompt", None), 2);
    assert_eq!(s.state, CliState::Idle);
    assert_eq!(s.stop_received_at, None);
    s.apply_event(&msg("aider", "stop", None), 3);
    assert_eq!(s.state, CliState::Idle);
    s.apply_event(&msg("aider", "permission_prompt", None), 4);
    assert_eq!(s.state, CliState::WaitingInput);
    s.apply_event(&msg("aider", "session_end", None), 5);
    assert_eq!(s.state, CliState::Offline);
    s.apply_event(&msg("aider", "session_start", None), 6);
    assert_eq!(s.state, CliState::Working);
    assert_eq!(s.last_event, Some(CliEvent::SessionStart));
    assert_eq!(s.last_update, 6);
}

#[test]
fn fields_are_replaced_only_when_present() {
    let mut s = CliStatus::new("aider".to_string(), 0);
    let full = CliMessage::from_wire(
        "aider".to_string(),
        "working",
        Some(10),
        None,
        Some("a".to_string()),
        Some("/x/proj".to_string()),
    )
    .unwrap();
    s.apply_event(&full, 1);
    assert_eq!(s.pid, Some(10));
    assert_eq!(s.display_name, "Aider - proj");
    s.apply_event(&msg("aider", "stop", None), 2);
    assert_eq!(s.pid, Some(10));
    assert_eq!(s.session_id.as_deref(), Some("a"));
    assert_eq!(s.cwd.as_deref(), Some("/x/proj"));
    assert_eq!(s.display_name, "Aider - proj");
}

#[test]
fn empty_registry_is_offline() {
    let m = StateManager::new();
    assert_eq!(m.calculate_aggregate_state(), CliState::Offline);
    assert!(m.get_states().is_empty());
}

#[test]
fn one_waiting_session_dominates() {
    let mut m = StateManager::new();
    m.handle_message(&msg("aider", "working", Some("a")), 0);
    m.handle_message(&msg("aider", "idle_prompt", Some("b")), 0);
    m.handle_message(&msg("codex", "session_start", None), 0);
    assert_eq!(m.calculate_aggregate_state(), CliState::Working);
    let e = m.handle_message(&msg("gemini", "permission_prompt", Some("c")), 0);
    assert_eq!(e.state, CliState::WaitingInput);
    assert!(e.state_changed);
    assert_eq!(m.calculate_aggregate_state(), CliState::WaitingInput);
}

#[test]
fn stop_then_wait_scenario() {
    let mut m = StateManager::new();
    let e1 = m.handle_message(&msg("aider", "session_start", Some("a")), 0);
    assert_eq!(e1.state, CliState::Working);
    assert!(e1.state_changed);
    assert_eq!(e1.cli_name, "aider");
    let e2 = m.handle_message(&msg("aider", "stop", Some("a")), 0);
    assert_eq!(e2.state, CliState::Working);
    assert!(!e2.state_changed);
    assert!(m.tick(1000).is_none());
    let e3 = m.tick(4000).expect("the stop is confirmed");
    assert_eq!(e3.state, CliState::WaitingInput);
    assert!(e3.state_changed);
    assert_eq!(e3.pid, None);
    assert_eq!(e3.cli_name, "");
    let snap = m.get_states();
    assert_eq!(snap.len(), 1);
    assert_eq!(snap[0].state, CliState::WaitingInput);
    assert_eq!(snap[0].stop_received_at, None);
    assert_eq!(m.calculate_aggregate_state(), CliState::WaitingInput);
}

#[test]
fn two_sessions_priority_scenario() {
    let mut m = StateManager::new();
    m.handle_message(&msg("aider", "working", Some("a")), 0);
    let e = m.handle_message(&msg("gemini", "permission_prompt", Some("b")), 0);
    assert_eq!(e.state, CliState::WaitingInput);
    let e = m.handle_message(&msg("gemini", "session_end", Some("b")), 1);
    assert_eq!(e.state, CliState::Working);
    assert!(e.state_changed);
    assert_eq!(states(&m), vec![CliState::Working, CliState::Offline]);
}

#[test]
fn quick_stop_never_reports_waiting() {
    let mut m = StateManager::new();
    m.handle_message(&msg("aider", "session_start", Some("a")), 0);
    let e = m.handle_message(&msg("aider", "stop", Some("a")), 1000);
    assert_eq!(e.state, CliState::Working);
    assert!(m.tick(2000).is_none());
    assert!(m.tick(3999).is_none());
    let e = m.handle_message(&msg("aider", "working", Some("a")), 3500);
    assert_eq!(e.state, CliState::Working);
    assert!(!e.state_changed);
    assert!(m.tick(10_000).is_none());
    assert_eq!(m.calculate_aggregate_state(), CliState::Working);
}

#[test]
fn silence_after_stop_waits_then_idles() {
    let mut m = StateManager::new();
    m.handle_message(&msg("aider", "session_start", None), 0);
    m.handle_message(&msg("aider", "stop", None), 0);
    assert!(m.tick(2999).is_none());
    let e = m.tick(3000).unwrap();
    assert_eq!(e.state, CliState::WaitingInput);
    assert!(m.tick(59_999).is_none());
    let e = m.tick(60_000).unwrap();
    assert_eq!(e.state, CliState::Idle);
    assert!(e.state_changed);
}

#[test]
fn late_first_tick_goes_straight_to_idle() {
    let mut m = StateManager::new();
    m.handle_message(&msg("aider", "stop", None), 0);
    let e = m.tick(61_000).unwrap();
    assert_eq!(e.state, CliState::Idle);
}

#[test]
fn waiting_timeout_is_configurable() {
    let mut m = StateManager::with_waiting_timeout(1000);
    m.handle_message(&msg("aider", "permission_prompt", None), 0);
    assert!(m.tick(5999).is_none());
    assert_eq!(m.tick(6000).unwrap().state, CliState::Idle);
}

#[test]
fn state_depends_on_events_not_times() {
    let events = ["session_start", "stop", "working", "stop", "idle_prompt", "stop"];
    let run = |times: [u64; 6]| {
        let mut m = StateManager::new();
        for (e, t) in events.iter().zip(times.iter()) {
            m.handle_message(&msg("aider", e, Some("a")), *t);
        }
        states(&m)
    };
    assert_eq!(run([0, 1, 2, 3, 4, 5]), run([0, 100, 5000, 9000, 20000, 90000]));
    assert_eq!(run([0, 1, 2, 3, 4, 5]), vec![CliState::Idle]);
}

#[test]
fn sessions_without_id_share_the_tool_slot() {
    let mut m = StateManager::new();
    m.handle_message(&msg("aider", "working", None), 0);
    m.handle_message(&msg("aider", "idle_prompt", None), 1);
    m.handle_message(&msg("aider", "working", Some("x")), 2);
    let snap = m.get_states();
    assert_eq!(snap.len(), 2);
    assert_eq!(snap[0].state, CliState::Idle);
    assert_eq!(snap[1].session_id.as_deref(), Some("x"));
}

#[test]
fn event_report_names_the_session() {
    let mut m = StateManager::new();
    let full = CliMessage::from_wire(
        "aider".to_string(),
        "working",
        Some(99),
        None,
        Some("a".to_string()),
        Some("/w/p".to_string()),
    )
    .unwrap();
    let e = m.handle_message(&full, 0);
    assert_eq!(e.pid, Some(99));
    assert_eq!(e.cwd.as_deref(), Some("/w/p"));
    assert_eq!(e.cli_name, "aider");
}

#[test]
fn display_name_follows_directory() {
    let mut s = CliStatus::new("gemini".to_string(), 0);
    s.cwd = Some("/src/tool".to_string());
    s.update_display_name();
    assert_eq!(s.display_name, "Gemini - tool");
}

#[test]
fn record_tick_confirms_and_demotes() {
    let mut s = CliStatus::new("gemini".to_string(), 0);
    s.apply_event(&msg("gemini", "stop", None), 1000);
    assert!(!s.tick(3999, 10_000));
    assert_eq!(s.state, CliState::Working);
    assert!(s.tick(4000, 10_000));
    assert_eq!(s.state, CliState::WaitingInput);
    assert_eq!(s.stop_received_at, None);
    assert!(!s.tick(60_999, 10_000));
    assert!(s.tick(61_000, 10_000));
    assert_eq!(s.state, CliState::Idle);
    let mut late = CliStatus::new("gemini".to_string(), 500);
    assert!(!late.tick(400, 0));
}

#[test]
fn default_registry_is_empty() {
    let m = StateManager::default();
    assert!(m.get_states().is_empty());
    assert_eq!(m.calculate_aggregate_state(), CliState::Offline);
}

fn decode(line: &str) -> CliMessage {
    let v: serde_json::Value = serde_json::from_str(line).unwrap();
    let text = |k: &str| v.get(k).and_then(|x| x.as_str()).map(|s| s.to_string());
    CliMessage::from_wire(
        text("cli").unwrap(),
        v.get("event").and_then(|x| x.as_str()).unwrap(),
        v.get("pid").and_then(|x| x.as_u64()).map(|p| p as u32),
        v.get("timestamp").and_then(|x| x.as_u64()),
        text("session_id"),
        text("cwd"),
    )
    .unwrap()
}

#[test]
fn json_lines_stop_then_wait_scenario() {
    let mut m = StateManager::new();
    m.handle_message(&decode(r#"{"cli":"aider","event":"session_start","session_id":"a"}"#), 0);
    m.handle_message(&decode(r#"{"cli":"aider","event":"stop","session_id":"a"}"#), 10);
    let report = m.tick(4010).unwrap();
    let snap = m.get_states();
    assert_eq!(snap.len(), 1);
    assert_eq!(snap[0].state, CliState::WaitingInput);
    assert_eq!(snap[0].session_id.as_deref(), Some("a"));
    assert_eq!(report.state, CliState::WaitingInput);
    assert_eq!(m.calculate_aggregate_state(), CliState::WaitingInput);
}
