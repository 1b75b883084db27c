use log_agent::app::{Action, App, AppState, InputMode, Key};
use log_agent::config::Config;
use log_agent::types::{record_from_line, LogLevel, LogMessage, LogSource};

fn app_with(auto_quit: bool) -> App {
    let mut config = Config::default();
    config.agent.auto_quit = auto_quit;
    App::new(
        "proj".to_string(),
        vec!["echo".to_string(), "hello".to_string()],
        config,
        0,
    )
}

#[test]
fn countdown_reaches_zero_then_quits() {
    let mut app = app_with(false);
    app.set_state(AppState::WaitingCountdown(5));
    for expected in [4u8, 3, 2, 1, 0] {
        app.on_tick();
        assert_eq!(app.state, AppState::WaitingCountdown(expected));
        assert!(!app.should_quit);
    }
    // The sixth tick, after "0s" has been rendered once, ends the session.
    app.on_tick();
    assert!(app.should_quit);
}

#[test]
fn tick_in_running_state_polls_for_exit() {
    let mut app = app_with(false);
    assert_eq!(app.state, AppState::Running);
    let poll = app.on_tick();
    assert!(poll);
    assert_eq!(app.state, AppState::Running);
    app.set_state(AppState::WaitingCountdown(3));
    let poll = app.on_tick();
    assert!(!poll);
}

#[test]
fn process_exit_starts_countdown() {
    let mut app = app_with(false);
    app.set_pid(Some(42));
    app.on_process_exit(true, String::new());
    assert_eq!(app.pid, None);
    assert_eq!(app.state, AppState::WaitingCountdown(5));
    assert!(!app.should_quit);
    let last = app.logs.back().unwrap();
    assert!(last.is_system);
    assert_eq!(last.message, "Process exited successfully");
}

#[test]
fn process_exit_with_auto_quit_ends_session() {
    let mut app = app_with(true);
    app.on_process_exit(false, "exit status: 1".to_string());
    assert!(app.should_quit);
    let last = app.logs.back().unwrap();
    assert_eq!(last.message, "Process exited with status: exit status: 1");
}

#[test]
fn restart_success_resets_uptime() {
    let mut app = app_with(false);
    // A long-running session: two hours in.
    let later = 2 * 3600 * 1000;
    assert_eq!(app.uptime(later), "2h0m");
    app.handle_key(Key::Char('r'));
    assert_eq!(app.state, AppState::Restarting);
    app.on_restart_result(Ok(4242), later);
    assert_eq!(app.state, AppState::Running);
    assert_eq!(app.pid, Some(4242));
    // Uptime as reported right after the restart is below one second.
    assert_eq!(app.uptime(later), "0s");
    assert_eq!(app.uptime(later + 999), "0s");
    let last = app.logs.back().unwrap();
    assert_eq!(last.message, "Process restarted (PID: 4242)");
}

#[test]
fn restart_failure_starts_countdown() {
    let mut app = app_with(false);
    app.handle_key(Key::Char('r'));
    app.on_restart_result(Err("spawn failed".to_string()), 5000);
    assert_eq!(app.state, AppState::WaitingCountdown(5));
    let last = app.logs.back().unwrap();
    assert_eq!(last.message, "Restart failed: spawn failed");
}

#[test]
fn restart_key_requests_restart_action() {
    let mut app = app_with(false);
    let act = app.handle_key(Key::Char('r'));
    assert_eq!(act, Action::Restart);
    let before = app.logs.len();
    let act = app.handle_key(Key::Char('x'));
    assert_eq!(act, Action::Nothing);
    assert_eq!(app.logs.len(), before);
}

#[test]
fn echo_end_to_end_produces_one_info_record() {
    // Spawn `echo hello`, capture its stdout, and check that exactly one
    // record comes out of the line-capture rules.
    let rt = tokio::runtime::Runtime::new().unwrap();
    let output = rt
        .block_on(async { tokio::process::Command::new("echo").arg("hello").output().await })
        .unwrap();
    assert!(output.status.success());
    let text = String::from_utf8(output.stdout).unwrap();

    let mut records: Vec<LogMessage> = Vec::new();
    for line in text.split_inclusive('\n') {
        if let Some(record) = record_from_line("proj", line, LogSource::Stdout, 1234) {
            records.push(record);
        }
    }
    assert_eq!(records.len(), 1);
    assert_eq!(records[0].data.message, "hello");
    assert!(matches!(records[0].data.source, LogSource::Stdout));
    assert!(matches!(records[0].data.level, LogLevel::Info));
    assert_eq!(records[0].data.pid, 1234);

    // The session notes the successful exit and starts the countdown.
    let mut app = app_with(false);
    app.add_log(records[0].clone(), 10);
    app.on_process_exit(true, String::new());
    assert_eq!(app.state, AppState::WaitingCountdown(5));
}

#[test]
fn quit_while_child_running_sets_should_quit_immediately() {
    // Quitting does not wait on the child: the decision loop only raises
    // the flag; the runner owns the bounded shutdown.
    let mut app = app_with(false);
    app.set_pid(Some(999));
    assert_eq!(app.state, AppState::Running);
    let act = app.handle_key(Key::Char('q'));
    assert_eq!(act, Action::Nothing);
    assert!(app.should_quit);
    assert_eq!(app.pid, Some(999));
}

#[test]
fn uptime_formats_by_magnitude() {
    let app = app_with(false);
    assert_eq!(app.uptime(0), "0s");
    assert_eq!(app.uptime(59_999), "59s");
    assert_eq!(app.uptime(60_000), "1m0s");
    assert_eq!(app.uptime(125_000), "2m5s");
    assert_eq!(app.uptime(3_599_000), "59m59s");
    assert_eq!(app.uptime(3_600_000), "1h0m");
    assert_eq!(app.uptime(7_384_000), "2h3m");
}

#[test]
fn help_mode_toggles_and_any_key_leaves() {
    let mut app = app_with(false);
    app.handle_key(Key::Char('?'));
    assert_eq!(app.input_mode, InputMode::Help);
    app.handle_key(Key::Char('z'));
    assert_eq!(app.input_mode, InputMode::Normal);
}

#[test]
fn save_prompt_round_trip() {
    let mut app = app_with(false);
    app.add_log(
        LogMessage::new("proj".to_string(), "kept".to_string(), LogSource::Stdout, 1),
        1,
    );
    app.handle_key(Key::Char('s'));
    assert_eq!(app.input_mode, InputMode::SavePrompt);
    assert_eq!(app.input_buffer, "proj_logs.txt");
    assert_eq!(app.save_filename(), "proj_logs.txt");
    let text = app.logs_text();
    assert!(text.contains("kept"));
    assert!(text.ends_with('\n'));
    let act = app.handle_key(Key::Enter);
    assert_eq!(act, Action::SaveLogs);
    app.on_save_result(Ok(1), "proj_logs.txt".to_string());
    assert_eq!(app.input_mode, InputMode::Normal);
    let last = app.logs.back().unwrap();
    assert_eq!(last.message, "Saved 1 logs to proj_logs.txt");
}

#[test]
fn save_failure_reports_and_returns_to_normal() {
    let mut app = app_with(false);
    app.handle_key(Key::Char('s'));
    app.on_save_result(Err("permission denied".to_string()), "x.txt".to_string());
    assert_eq!(app.input_mode, InputMode::Normal);
    let last = app.logs.back().unwrap();
    assert_eq!(last.message, "Save failed: permission denied");
}

#[test]
fn copy_without_selection_reports_it() {
    let mut app = app_with(false);
    let result = app.copy_selected_line();
    assert!(result.is_ok());
    let last = app.logs.back().unwrap();
    assert_eq!(last.message, "No line selected");
}
