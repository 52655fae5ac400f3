use bevy_log::{build_filter, default_filter_expr, FilterSource, Level, LogError};

#[test]
fn warn_severity_and_pattern_combine_exactly() {
    assert_eq!(
        default_filter_expr(Level::Warn, "mylib=error"),
        "WARN,mylib=error"
    );
}

#[test]
fn default_settings_expression() {
    assert_eq!(default_filter_expr(Level::Info, "wgpu=error"), "INFO,wgpu=error");
}

#[test]
fn every_severity_name() {
    assert_eq!(Level::Trace.name(), "TRACE");
    assert_eq!(Level::Debug.name(), "DEBUG");
    assert_eq!(Level::Info.name(), "INFO");
    assert_eq!(Level::Warn.name(), "WARN");
    assert_eq!(Level::Error.name(), "ERROR");
}

#[test]
fn severity_order() {
    assert!(Level::Trace.at_most(Level::Debug));
    assert!(Level::Debug.at_most(Level::Info));
    assert!(Level::Info.at_most(Level::Warn));
    assert!(Level::Warn.at_most(Level::Error));
    assert!(Level::Error.at_most(Level::Error));
    assert!(!Level::Error.at_most(Level::Warn));
}

#[test]
fn valid_default_builds_from_the_default() {
    let built = build_filter(None, "WARN,mylib=error").unwrap();
    assert_eq!(built.1, FilterSource::ComputedDefault);
}

#[test]
fn valid_override_takes_precedence() {
    let built = build_filter(Some("debug"), "WARN,mylib=error").unwrap();
    assert_eq!(built.1, FilterSource::Override);
}

#[test]
fn invalid_override_falls_back_to_the_default() {
    let built = build_filter(Some("not==a==directive"), "WARN,mylib=error").unwrap();
    assert_eq!(built.1, FilterSource::ComputedDefault);
}

#[test]
fn invalid_default_without_override_is_fatal() {
    let r = build_filter(None, "not==a==directive");
    assert_eq!(r.unwrap_err(), LogError::InvalidFilter);
}

#[test]
fn invalid_override_and_invalid_default_is_fatal() {
    let r = build_filter(Some("also==bad"), "not==a==directive");
    assert_eq!(r.unwrap_err(), LogError::InvalidFilter);
}

#[test]
fn error_messages_name_the_violated_precondition() {
    assert!(LogError::InvalidFilter.message().contains("filter"));
    assert!(LogError::AlreadyInstalled.message().contains("already"));
}

#[test]
fn non_ascii_override_falls_back_without_panicking() {
    // A directive the engine's own parser would slice out of bounds: a
    // no-break space before the target, and a trimmed multibyte letter.
    let built = build_filter(Some("\u{a0}x=info"), "WARN,mylib=error").unwrap();
    assert_eq!(built.1, FilterSource::ComputedDefault);
    let built = build_filter(Some(" \u{e9}=info"), "WARN,mylib=error").unwrap();
    assert_eq!(built.1, FilterSource::ComputedDefault);
}

#[test]
fn non_ascii_default_is_unusable() {
    let r = build_filter(None, "caf\u{e9}=info");
    assert_eq!(r.unwrap_err(), LogError::InvalidFilter);
}
