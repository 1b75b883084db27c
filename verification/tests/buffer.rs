use log_agent::app::{App, AppState, Key, Mouse};
use log_agent::config::Config;
use log_agent::types::{LogMessage, LogSource};

fn small_app(cap: usize) -> App {
    let mut config = Config::default();
    config.performance.tui.max_logs = cap;
    App::new(
        "proj".to_string(),
        vec!["echo".to_string(), "hi".to_string()],
        config,
        0,
    )
}

fn record(text: &str) -> LogMessage {
    LogMessage::new("proj".to_string(), text.to_string(), LogSource::Stdout, 7)
}

#[test]
fn eviction_keeps_most_recent_capacity_lines() {
    let mut app = small_app(3);
    for i in 0..10 {
        app.add_log(record(&format!("line {}", i)), 1000 + i);
        assert!(app.logs.len() <= 3);
    }
    assert_eq!(app.logs.len(), 3);
    let texts: Vec<String> = app.logs.iter().map(|l| l.message.clone()).collect();
    assert_eq!(texts, vec!["line 7", "line 8", "line 9"]);
}

#[test]
fn push_counts_received_records() {
    let mut app = small_app(100);
    app.add_log(record("a"), 5);
    app.add_log(record("b"), 6);
    assert_eq!(app.total_logs_received, 2);
    assert_eq!(app.last_log_ms, Some(6));
}

#[test]
fn pause_holds_records_and_resume_flushes_in_order() {
    let mut app = small_app(100);
    app.add_log(record("before"), 1);
    app.toggle_pause();
    assert!(app.paused);
    app.add_log(record("p1"), 2);
    app.add_log(record("p2"), 3);
    // While paused nothing new reaches the display buffer beyond the
    // "Paused capture" notice.
    let texts: Vec<String> = app.logs.iter().map(|l| l.message.clone()).collect();
    assert_eq!(texts, vec!["before", "Paused capture"]);
    assert_eq!(app.paused_logs.len(), 2);
    app.toggle_pause();
    assert!(!app.paused);
    assert!(app.paused_logs.is_empty());
    let texts: Vec<String> = app.logs.iter().map(|l| l.message.clone()).collect();
    assert_eq!(
        texts,
        vec!["before", "Paused capture", "p1", "p2", "Resumed capture"]
    );
}

#[test]
fn pause_resume_matches_plain_pushes() {
    // Pushing records while paused then resuming leaves the same captured
    // lines, in the same order, as pushing them unpaused (the status notices
    // aside), even when eviction runs.
    let mut paused_app = small_app(4);
    paused_app.toggle_pause();
    for i in 0..6 {
        paused_app.add_log(record(&format!("r{}", i)), i);
    }
    paused_app.toggle_pause();
    let flushed: Vec<String> = paused_app
        .logs
        .iter()
        .filter(|l| !l.is_system)
        .map(|l| l.message.clone())
        .collect();

    let mut plain_app = small_app(4);
    for i in 0..6 {
        plain_app.add_log(record(&format!("r{}", i)), i);
    }
    let pushed: Vec<String> = plain_app
        .logs
        .iter()
        .filter(|l| !l.is_system)
        .map(|l| l.message.clone())
        .collect();

    // With capacity 4, one slot of the paused run is taken by the resume
    // notice, so compare the shared suffix of captured lines.
    assert!(pushed.ends_with(&flushed) || flushed.ends_with(&pushed));
    assert_eq!(plain_app.logs.len(), 4);
    assert_eq!(paused_app.logs.len(), 4);
}

#[test]
fn clear_logs_leaves_one_notice() {
    let mut app = small_app(100);
    app.add_log(record("a"), 1);
    app.add_log(record("b"), 2);
    app.scroll_up(1);
    app.clear_logs();
    assert_eq!(app.logs.len(), 1);
    assert!(app.logs[0].is_system);
    assert_eq!(app.logs[0].message, "Logs cleared");
    assert_eq!(app.scroll_offset, 0);
    assert_eq!(app.selected_line, None);
}

#[test]
fn scroll_offset_is_clamped() {
    let mut app = small_app(100);
    for i in 0..30 {
        app.add_log(record(&format!("l{}", i)), i);
    }
    app.set_visible_height(10);
    app.scroll_up(1000);
    assert_eq!(app.scroll_offset, 20);
    assert!(!app.auto_scroll);
    app.scroll_down(5);
    assert_eq!(app.scroll_offset, 15);
    app.scroll_down(1000);
    assert_eq!(app.scroll_offset, 0);
    assert!(app.auto_scroll);
    app.scroll_to_top();
    assert_eq!(app.scroll_offset, 20);
    app.scroll_to_bottom();
    assert_eq!(app.scroll_offset, 0);
    assert!(app.auto_scroll);
}

#[test]
fn scroll_clamp_shrinks_with_viewport() {
    let mut app = small_app(100);
    for i in 0..10 {
        app.add_log(record(&format!("l{}", i)), i);
    }
    app.set_visible_height(4);
    app.scroll_up(100);
    assert_eq!(app.scroll_offset, 6);
    app.set_visible_height(8);
    assert_eq!(app.scroll_offset, 2);
    app.set_visible_height(20);
    assert_eq!(app.scroll_offset, 0);
}

#[test]
fn auto_scroll_keeps_offset_at_bottom() {
    let mut app = small_app(100);
    app.set_visible_height(2);
    for i in 0..10 {
        app.add_log(record(&format!("l{}", i)), i);
        assert_eq!(app.scroll_offset, 0);
    }
    app.scroll_up(3);
    assert!(!app.auto_scroll);
    app.add_log(record("more"), 100);
    assert_eq!(app.scroll_offset, 3);
}

#[test]
fn select_line_at_maps_rows_to_indices() {
    let mut app = small_app(100);
    for i in 0..10 {
        app.add_log(record(&format!("l{}", i)), i);
    }
    app.set_visible_height(5);
    // The window shows indices 5..10; terminal row 1 is the first visible
    // line.
    app.select_line_at(1);
    assert_eq!(app.selected_line, Some(5));
    assert!(!app.auto_scroll);
    app.select_line_at(0);
    assert_eq!(app.selected_line, Some(5));
    // Rows past the end of the buffer are ignored.
    app.select_line_at(50);
    assert_eq!(app.selected_line, Some(5));
}

#[test]
fn mouse_wheel_scrolls_three_lines() {
    let mut app = small_app(100);
    for i in 0..20 {
        app.add_log(record(&format!("l{}", i)), i);
    }
    app.set_visible_height(5);
    app.handle_mouse(Mouse::ScrollUp);
    assert_eq!(app.scroll_offset, 3);
    assert!(!app.auto_scroll);
    app.handle_mouse(Mouse::ScrollDown);
    assert_eq!(app.scroll_offset, 0);
    assert!(app.auto_scroll);
    app.handle_mouse(Mouse::Press(2));
    assert_eq!(app.selected_line, Some(16));
}

#[test]
fn landing_exactly_on_bottom_reenables_auto_scroll() {
    let mut app = small_app(100);
    for i in 0..30 {
        app.add_log(record(&format!("l{}", i)), i);
    }
    app.set_visible_height(10);
    app.scroll_up(7);
    assert_eq!(app.scroll_offset, 7);
    assert!(!app.auto_scroll);
    // Scrolling down by exactly the current offset reaches the bottom and
    // must turn auto-follow back on.
    app.scroll_down(7);
    assert_eq!(app.scroll_offset, 0);
    assert!(app.auto_scroll);
    // Stopping above the bottom leaves auto-follow off.
    app.scroll_up(7);
    app.scroll_down(3);
    assert_eq!(app.scroll_offset, 4);
    assert!(!app.auto_scroll);
}

#[test]
fn selected_text_renders_the_selected_line() {
    let mut app = small_app(100);
    app.add_log(record("hello world"), 1);
    assert_eq!(app.selected_text(), None);
    app.set_visible_height(10);
    app.select_line_at(1);
    assert_eq!(app.selected_line, Some(0));
    let text = app.selected_text().unwrap();
    let expected = format!("[{}] Info hello world", app.logs[0].timestamp);
    assert_eq!(text, expected);
}

#[test]
fn visible_window_annotates_without_dropping() {
    let mut app = small_app(100);
    app.add_log(record("connecting"), 1);
    app.add_log(record("ERROR: timeout"), 2);
    app.add_log(record("retrying"), 3);
    app.set_visible_height(10);
    let window = app.filtered_visible_logs();
    assert_eq!(window.len(), 3);
    assert_eq!(window[0].0, 0);
    assert_eq!(window[0].1.message, "connecting");
    assert!(window.iter().all(|t| t.2));
}

#[test]
fn quit_key_works_in_every_mode() {
    let mut app = small_app(100);
    app.handle_key(Key::Char('/'));
    let act = app.handle_key(Key::Char('q'));
    assert!(app.should_quit);
    assert_eq!(act, log_agent::app::Action::Nothing);

    let mut app2 = small_app(100);
    app2.handle_key(Key::Char('?'));
    app2.handle_key(Key::Char('q'));
    assert!(app2.should_quit);
}
