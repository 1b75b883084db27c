use log_agent::app::{App, InputMode, Key};
use log_agent::config::Config;
use log_agent::filter::LevelFilter;
use log_agent::types::{LogLevel, LogMessage, LogSource};

fn app() -> App {
    App::new(
        "proj".to_string(),
        vec!["cmd".to_string()],
        Config::default(),
        0,
    )
}

fn push(app: &mut App, text: &str) {
    app.add_log(
        LogMessage::new("proj".to_string(), text.to_string(), LogSource::Stdout, 1),
        1,
    );
}

fn type_word(app: &mut App, word: &str) {
    for c in word.chars() {
        app.handle_key(Key::Char(c));
    }
}

#[test]
fn search_is_case_insensitive_and_counts_matches() {
    let mut app = app();
    push(&mut app, "connecting");
    push(&mut app, "ERROR: timeout");
    push(&mut app, "retrying");
    app.handle_key(Key::Char('/'));
    assert_eq!(app.input_mode, InputMode::Search);
    type_word(&mut app, "error");
    app.handle_key(Key::Enter);
    assert_eq!(app.input_mode, InputMode::Normal);
    assert_eq!(app.search_message.as_deref(), Some("1 matches"));
    let window = app.filtered_visible_logs();
    assert_eq!(window.len(), 3);
    assert!(!window[0].2);
    assert!(window[1].2);
    assert!(!window[2].2);
    assert_eq!(app.filtered_count(), 1);
}

#[test]
fn empty_search_clears_the_pattern() {
    let mut app = app();
    push(&mut app, "anything");
    app.handle_key(Key::Char('/'));
    type_word(&mut app, "any");
    app.handle_key(Key::Enter);
    assert!(app.search_regex.is_some());
    app.handle_key(Key::Char('/'));
    app.handle_key(Key::Enter);
    assert!(app.search_regex.is_none());
    assert!(app.search_message.is_none());
    assert_eq!(app.input_mode, InputMode::Normal);
}

#[test]
fn invalid_pattern_keeps_previous_search() {
    let mut app = app();
    push(&mut app, "alpha");
    app.handle_key(Key::Char('/'));
    type_word(&mut app, "alp");
    app.handle_key(Key::Enter);
    assert!(app.search_regex.is_some());
    app.handle_key(Key::Char('/'));
    type_word(&mut app, "[unclosed");
    app.handle_key(Key::Enter);
    // Still in the prompt, error reported, previous pattern untouched.
    assert_eq!(app.input_mode, InputMode::Search);
    let msg = app.search_message.clone().unwrap();
    assert!(msg.starts_with("Invalid regex: "));
    app.handle_key(Key::Esc);
    assert_eq!(app.input_mode, InputMode::Normal);
}

#[test]
fn backspace_edits_the_prompt() {
    let mut app = app();
    app.handle_key(Key::Char('/'));
    type_word(&mut app, "abc");
    assert_eq!(app.input_buffer, "abc");
    app.handle_key(Key::Backspace);
    assert_eq!(app.input_buffer, "ab");
    app.handle_key(Key::Backspace);
    app.handle_key(Key::Backspace);
    app.handle_key(Key::Backspace);
    assert_eq!(app.input_buffer, "");
}

#[test]
fn level_filter_cycles_with_period_five() {
    let start = LevelFilter::All;
    let mut f = start;
    let expected = [
        LevelFilter::Error,
        LevelFilter::Warn,
        LevelFilter::Info,
        LevelFilter::Debug,
        LevelFilter::All,
    ];
    for step in expected {
        f = f.next();
        assert_eq!(f, step);
    }
    assert_eq!(f, start);
}

#[test]
fn level_filter_matches_exactly_its_level() {
    let levels = [
        LogLevel::Info,
        LogLevel::Warn,
        LogLevel::Error,
        LogLevel::Debug,
    ];
    for level in levels {
        assert!(LevelFilter::All.matches(&level));
    }
    assert!(LevelFilter::Error.matches(&LogLevel::Error));
    assert!(!LevelFilter::Error.matches(&LogLevel::Warn));
    assert!(!LevelFilter::Warn.matches(&LogLevel::Info));
    assert!(LevelFilter::Warn.matches(&LogLevel::Warn));
    assert!(LevelFilter::Info.matches(&LogLevel::Info));
    assert!(LevelFilter::Debug.matches(&LogLevel::Debug));
    assert!(!LevelFilter::Debug.matches(&LogLevel::Error));
}

#[test]
fn cycle_key_advances_filter() {
    let mut app = app();
    assert_eq!(app.level_filter, LevelFilter::All);
    app.handle_key(Key::Char('f'));
    assert_eq!(app.level_filter, LevelFilter::Error);
    for _ in 0..4 {
        app.handle_key(Key::Char('f'));
    }
    assert_eq!(app.level_filter, LevelFilter::All);
}

#[test]
fn filter_dims_but_keeps_lines() {
    let mut app = app();
    push(&mut app, "ERROR: boom");
    push(&mut app, "plain info");
    app.handle_key(Key::Char('f'));
    assert_eq!(app.level_filter, LevelFilter::Error);
    let window = app.filtered_visible_logs();
    assert_eq!(window.len(), 2);
    assert!(window[0].2);
    assert!(!window[1].2);
    assert_eq!(app.filtered_count(), 1);
}

#[test]
fn system_lines_pass_the_level_filter() {
    let mut app = app();
    app.add_system_log("notice".to_string());
    app.handle_key(Key::Char('f'));
    assert_eq!(app.level_filter, LevelFilter::Error);
    assert_eq!(app.filtered_count(), 1);
}

#[test]
fn severity_is_inferred_from_folded_text() {
    assert!(matches!(
        LogMessage::infer_level("ERROR: connection refused"),
        LogLevel::Error
    ));
    assert!(matches!(LogMessage::infer_level("Fatal crash"), LogLevel::Error));
    // A bare "err" (as in "stderr") is not an error marker.
    assert!(matches!(LogMessage::infer_level("stderr output"), LogLevel::Info));
    assert!(matches!(LogMessage::infer_level("WARNING: slow"), LogLevel::Warn));
    assert!(matches!(LogMessage::infer_level("warn: retry"), LogLevel::Warn));
    assert!(matches!(LogMessage::infer_level("DEBUG details"), LogLevel::Debug));
    assert!(matches!(LogMessage::infer_level("trace output"), LogLevel::Debug));
    assert!(matches!(LogMessage::infer_level("hello"), LogLevel::Info));
}

#[test]
fn records_carry_tags_and_timestamps() {
    let record = LogMessage::new(
        "myproj".to_string(),
        "hello".to_string(),
        LogSource::Stderr,
        77,
    );
    assert_eq!(record.version, "1.0");
    assert_eq!(record.msg_type, "log_entry");
    assert_eq!(record.data.project, "myproj");
    assert_eq!(record.data.pid, 77);
    assert!(record.data.timestamp.len() >= 19);
    let line = log_agent::line::LogLine::from_record(record);
    assert_eq!(line.timestamp.len(), 8);
    assert!(!line.is_system);
}

#[test]
fn system_lines_carry_a_clock_reading() {
    let line = log_agent::line::LogLine::system("note".to_string());
    assert!(line.is_system);
    assert_eq!(line.timestamp.len(), 8);
    assert!(matches!(line.level, LogLevel::Info));
}
