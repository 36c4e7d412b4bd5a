use zeterm::app::runtime::RuntimeConfig;
use zeterm::app::terminal::terminal_state::{
    MouseModes, DEFAULT_COLS, DEFAULT_ROWS, DEFAULT_SCROLLBACK_LINES,
};
use zeterm::app::terminal::TerminalConfig;
use zeterm::entities::TerminalSize;
use zeterm::logging::{LogConfig, LogLevel};

#[test]
fn test_terminal_config_default() {
    let config = TerminalConfig::default();
    assert_eq!(config.cols, DEFAULT_COLS);
    assert_eq!(config.rows, DEFAULT_ROWS);
    assert_eq!(config.scrollback_lines, DEFAULT_SCROLLBACK_LINES);
}

#[test]
fn test_terminal_config_custom() {
    let config = TerminalConfig::new(120, 40).with_scrollback(5000);
    assert_eq!(config.cols, 120);
    assert_eq!(config.rows, 40);
    assert_eq!(config.scrollback_lines, 5000);
}

#[test]
fn terminal_config_defaults_are_eighty_by_twenty_four() {
    assert_eq!(DEFAULT_COLS, 80);
    assert_eq!(DEFAULT_ROWS, 24);
    assert_eq!(DEFAULT_SCROLLBACK_LINES, 10000);
}

#[test]
fn terminal_config_size_round_trip() {
    let size = TerminalSize::new(30, 100);
    let config = TerminalConfig::from_size(size);
    assert_eq!(config.cols, 100);
    assert_eq!(config.rows, 30);
    assert_eq!(config.scrollback_lines, DEFAULT_SCROLLBACK_LINES);
    let back = config.size();
    assert_eq!(back.rows, 30);
    assert_eq!(back.cols, 100);
}

#[test]
fn test_log_config_default() {
    let config = LogConfig::default();
    assert_eq!(config.level, LogLevel::Info);
    assert!(config.with_target);
    assert!(config.with_ansi);
}

#[test]
fn test_log_config_development() {
    let config = LogConfig::development();
    assert_eq!(config.level, LogLevel::Debug);
    assert!(config.with_file);
    assert!(config.with_thread_ids);
}

#[test]
fn test_log_config_production() {
    let config = LogConfig::production();
    assert_eq!(config.level, LogLevel::Info);
    assert!(!config.with_file);
    assert!(!config.with_ansi);
}

#[test]
fn log_level_names() {
    assert_eq!(LogLevel::Trace.as_str(), "TRACE");
    assert_eq!(LogLevel::Debug.as_str(), "DEBUG");
    assert_eq!(LogLevel::Info.as_str(), "INFO");
    assert_eq!(LogLevel::Warn.as_str(), "WARN");
    assert_eq!(LogLevel::Error.as_str(), "ERROR");
}

#[test]
fn log_default_filter_names_the_level() {
    let config = LogConfig::default();
    assert_eq!(
        config.default_filter(),
        "zeterm=INFO,zeterm_core=INFO,zeterm_mock=INFO,zeterm_ssh=INFO,zeterm_storage=INFO"
    );
    assert_eq!(
        LogConfig::development().default_filter(),
        "zeterm=DEBUG,zeterm_core=DEBUG,zeterm_mock=DEBUG,zeterm_ssh=DEBUG,zeterm_storage=DEBUG"
    );
}

#[test]
fn mouse_modes_default_off() {
    let modes = MouseModes {
        report_click: false,
        drag: false,
        motion: false,
        sgr: false,
    };
    assert!(!modes.is_any_mouse_mode_enabled());
    assert!(!modes.should_report_mouse_click());
    assert!(!modes.should_report_mouse_drag());
    assert!(!modes.should_report_mouse_motion());
}

#[test]
fn runtime_config_default() {
    let config = RuntimeConfig::default();
    assert_eq!(config.worker_threads, None);
    assert_eq!(config.thread_name, "zeterm-worker");
    assert!(config.enable_io);
    assert!(config.enable_time);
}
