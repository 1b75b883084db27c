use log_agent::capture::ProcessCapture;
use log_agent::config::{Color, ColorName, Config};
use log_agent::loader::{
    appended_gitignore, config_dir_under, config_file_in, get_local_config_path,
    gitignore_mentions, hex_rgb, parse_color, parse_value_for_field, ConfigValue,
};
use log_agent::schemes;
use log_agent::socket::SocketClient;
use log_agent::theme;
use log_agent::text::{str_contains, trim_line_end, u64_to_string};
use log_agent::types::record_from_line;
use log_agent::widgets::ShortcutList;
use log_agent::LogSource;

#[test]
fn decimal_rendering_is_exact() {
    assert_eq!(u64_to_string(0), "0");
    assert_eq!(u64_to_string(7), "7");
    assert_eq!(u64_to_string(42), "42");
    assert_eq!(u64_to_string(100), "100");
    assert_eq!(u64_to_string(65535), "65535");
    assert_eq!(u64_to_string(u64::MAX), "18446744073709551615");
}

#[test]
fn substring_search_finds_patterns() {
    assert!(str_contains("hello world", "lo wo"));
    assert!(str_contains("abc", ""));
    assert!(!str_contains("abc", "abcd"));
    assert!(!str_contains("short", "missing"));
}

#[test]
fn line_terminators_are_stripped() {
    assert_eq!(trim_line_end("hello\n"), "hello");
    assert_eq!(trim_line_end("hello\r\n"), "hello");
    assert_eq!(trim_line_end("hello"), "hello");
    assert_eq!(trim_line_end("\n"), "");
    assert_eq!(trim_line_end("  spaced  \n"), "  spaced  ");
}

#[test]
fn empty_lines_produce_no_record() {
    assert!(record_from_line("p", "\n", LogSource::Stdout, 1).is_none());
    assert!(record_from_line("p", "", LogSource::Stderr, 1).is_none());
    let r = record_from_line("p", "data\r\n", LogSource::Stdout, 1).unwrap();
    assert_eq!(r.data.message, "data");
}

#[test]
fn colors_parse_from_hex_rgb_and_names() {
    match parse_color("#FF5733") {
        Some(Color::Hex(h)) => assert_eq!(h, "#FF5733"),
        other => panic!("unexpected: {:?}", other),
    }
    match parse_color("FF5733") {
        Some(Color::Hex(h)) => assert_eq!(h, "#FF5733"),
        other => panic!("unexpected: {:?}", other),
    }
    assert_eq!(parse_color("255, 87, 51"), Some(Color::Rgb(255, 87, 51)));
    assert_eq!(parse_color("300,0,0"), None);
    assert_eq!(
        parse_color("Bright_Cyan"),
        Some(Color::Named(ColorName::BrightCyan))
    );
    assert_eq!(parse_color("red"), Some(Color::Named(ColorName::Red)));
    assert_eq!(parse_color("no such color"), None);
}

#[test]
fn config_values_parse_by_field() {
    match parse_value_for_field("agent", "verbose", "TRUE") {
        Ok(ConfigValue::Bool(b)) => assert!(b),
        other => panic!("unexpected: {:?}", other),
    }
    match parse_value_for_field("performance", "buffer_size", "2048") {
        Ok(ConfigValue::Int(n)) => assert_eq!(n, 2048),
        other => panic!("unexpected: {:?}", other),
    }
    assert!(parse_value_for_field("agent", "connection_timeout", "soon").is_err());
    match parse_value_for_field("output", "format", "JSON") {
        Ok(ConfigValue::Str(s)) => assert_eq!(s, "json"),
        other => panic!("unexpected: {:?}", other),
    }
    assert!(parse_value_for_field("output", "format", "fancy").is_err());
    match parse_value_for_field("filters", "min_level", "Warn") {
        Ok(ConfigValue::Str(s)) => assert_eq!(s, "warn"),
        other => panic!("unexpected: {:?}", other),
    }
    match parse_value_for_field("agent", "default_command", "[\"npm\", \"start\"]") {
        Ok(ConfigValue::StrList(v)) => assert_eq!(v, vec!["npm", "start"]),
        other => panic!("unexpected: {:?}", other),
    }
    assert!(parse_value_for_field("agent", "default_command", "[broken").is_err());
    match parse_value_for_field("filters", "ignore_patterns", "a, b ,c") {
        Ok(ConfigValue::StrList(v)) => assert_eq!(v, vec!["a", "b", "c"]),
        other => panic!("unexpected: {:?}", other),
    }
    match parse_value_for_field("agent", "socket_path", "/tmp/x.sock") {
        Ok(ConfigValue::Str(s)) => assert_eq!(s, "/tmp/x.sock"),
        other => panic!("unexpected: {:?}", other),
    }
}

#[test]
fn hex_triples_parse_exactly() {
    assert_eq!(hex_rgb("#FF5733"), Some((255, 87, 51)));
    assert_eq!(hex_rgb("FF5733"), Some((255, 87, 51)));
    assert_eq!(hex_rgb("#ffffff"), Some((255, 255, 255)));
    assert_eq!(hex_rgb("#000000"), Some((0, 0, 0)));
    assert_eq!(hex_rgb("#FF573"), None);
    assert_eq!(hex_rgb("GG5733"), None);
    assert_eq!(hex_rgb(""), None);
}

#[test]
fn config_path_joins_are_exact() {
    let dir = config_dir_under("/home/user/.config".to_string());
    assert_eq!(dir, "/home/user/.config/mcp-log-agent");
    assert_eq!(
        config_file_in(dir),
        "/home/user/.config/mcp-log-agent/config.toml"
    );
}

#[test]
fn rebranding_a_template_keeps_its_palettes() {
    let template = theme::create_dracula_theme();
    let rebranded = theme::rebrand_template(template, "mine", "dracula");
    assert_eq!(rebranded.name, "mine");
    assert_eq!(
        rebranded.description.as_deref(),
        Some("Custom theme based on dracula")
    );
    assert_eq!(rebranded.author, None);
    match &rebranded.colors.error.fg {
        Some(Color::Hex(h)) => assert_eq!(h, "FF5555"),
        other => panic!("unexpected: {:?}", other),
    }
}

#[test]
fn schemes_are_found_case_insensitively() {
    assert!(schemes::get_scheme("DEFAULT").is_some());
    assert!(schemes::get_scheme("Solarized-Dark").is_some());
    assert!(schemes::get_scheme("solarized_dark").is_some());
    assert!(schemes::get_scheme("high-contrast").is_some());
    assert!(schemes::get_scheme("monochrome").is_some());
    assert!(schemes::get_scheme("unknown").is_none());
    let listed = schemes::list_schemes();
    assert_eq!(listed.len(), 5);
    for (name, _description) in listed {
        assert!(schemes::get_scheme(name).is_some());
    }
}

#[test]
fn default_config_has_documented_fallbacks() {
    let config = Config::default();
    assert_eq!(config.performance.buffer_size, 1000);
    assert_eq!(config.performance.tui.max_logs, 5000);
    assert_eq!(config.performance.tui.tick_rate_ms, 250);
    assert_eq!(config.performance.tui.frame_rate_ms, 100);
    assert!(!config.agent.auto_quit);
    assert_eq!(config.agent.socket_path, "/tmp/log-agent.sock");
    assert_eq!(config.theme, "default");
}

#[test]
fn theme_manager_lays_out_paths() {
    let manager = theme::ThemeManager::new("/home/user/.config/mcp-log-agent".to_string());
    assert_eq!(manager.themes_dir(), "/home/user/.config/mcp-log-agent/themes");
    assert_eq!(
        manager.theme_path("dracula"),
        "/home/user/.config/mcp-log-agent/themes/dracula.toml"
    );
}

#[test]
fn built_in_themes_carry_their_names() {
    assert_eq!(theme::create_default_theme().name, "default");
    assert_eq!(theme::create_dracula_theme().name, "dracula");
    assert_eq!(theme::create_nord_theme().name, "nord");
    assert_eq!(theme::create_monokai_theme().name, "monokai");
    assert_eq!(theme::create_solarized_dark_theme().name, "solarized-dark");
    assert_eq!(theme::create_minimal_theme().name, "minimal");
    assert_eq!(theme::create_fallback_theme().name, "fallback");
    match &theme::create_dracula_theme().colors.error.fg {
        Some(Color::Hex(h)) => assert_eq!(h, "FF5555"),
        other => panic!("unexpected: {:?}", other),
    }
}

#[test]
fn exported_theme_keeps_the_palettes() {
    let manager = theme::ThemeManager::new("/tmp/conf".to_string());
    let config = Config::default();
    let exported = manager.export_from_config(
        "mine",
        &config.colors,
        &config.performance.tui.colors,
        Some("desc".to_string()),
        None,
    );
    assert_eq!(exported.name, "mine");
    assert_eq!(exported.description.as_deref(), Some("desc"));
    assert_eq!(exported.author, None);
    assert_eq!(
        exported.colors.error.fg,
        Some(Color::Named(ColorName::Red))
    );
}

#[test]
fn gitignore_text_handling() {
    assert!(gitignore_mentions(
        "target/\n.mcp-log-agent.toml\n",
        ".mcp-log-agent.toml"
    ));
    assert!(gitignore_mentions(
        "  /.mcp-log-agent.toml  \n",
        ".mcp-log-agent.toml"
    ));
    assert!(!gitignore_mentions("target/\n", ".mcp-log-agent.toml"));
    let appended = appended_gitignore("target/", ".mcp-log-agent.toml");
    assert_eq!(
        appended,
        "target/\n\n# mcp-log-agent local configuration\n.mcp-log-agent.toml\n"
    );
    assert!(gitignore_mentions(&appended, ".mcp-log-agent.toml"));
    let again = appended_gitignore(&appended, ".mcp-log-agent.toml");
    assert!(again.ends_with(".mcp-log-agent.toml\n"));
    assert_eq!(again.matches("# mcp-log-agent").count(), 1);
}

#[test]
fn local_config_path_is_fixed() {
    assert_eq!(get_local_config_path(), ".mcp-log-agent.toml");
}

#[test]
fn socket_client_defaults_its_path() {
    let c = SocketClient::new(None);
    assert_eq!(c.socket_path, "/tmp/log-agent.sock");
    let c = SocketClient::new(Some("/run/other.sock".to_string()));
    assert_eq!(c.socket_path, "/run/other.sock");
}

#[test]
fn capture_bundles_its_tags() {
    let capture = ProcessCapture::new(
        "proj".to_string(),
        vec!["cargo".to_string(), "run".to_string()],
    );
    assert_eq!(capture.project, "proj");
    assert_eq!(capture.command, vec!["cargo", "run"]);
}

#[test]
fn shortcut_lists_accumulate() {
    let list = ShortcutList::new().add("r", "restart").add("q", "quit");
    assert_eq!(list.0.len(), 2);
    assert_eq!(list.0[0].key, "r");
    assert_eq!(list.0[1].description, "quit");
}

#[test]
fn command_str_joins_with_spaces() {
    let app = log_agent::app::App::new(
        "p".to_string(),
        vec!["cargo".to_string(), "run".to_string(), "--quiet".to_string()],
        Config::default(),
        0,
    );
    assert_eq!(app.command_str(), "cargo run --quiet");
}
