use bevy_log::{InstallGuard, Level, LogError, LogPlugin, LogSettings};

// The global subscriber is process-wide, one-shot state, so every step of
// the install state machine is exercised in this one test, in order.
#[test]
fn install_succeeds_once_then_fails_fatally() {
    let plugin = LogPlugin::default();
    let settings = LogSettings::default();

    // An unparsable computed default with no override never installs.
    let mut bad_guard = InstallGuard::new();
    let bad = LogSettings {
        filter: String::from("not==a==directive"),
        level: Level::Info,
        dynamic_prefix: settings.dynamic_prefix.clone(),
    };
    assert_eq!(
        plugin.build(&mut bad_guard, &bad, None),
        Err(LogError::InvalidFilter)
    );
    assert!(!bad_guard.installed());

    // The first well-formed install takes effect.
    let mut guard = InstallGuard::new();
    assert_eq!(plugin.build(&mut guard, &settings, None), Ok(()));
    assert!(guard.installed());

    // A second call through the same guard fails fatally.
    assert_eq!(
        plugin.build(&mut guard, &settings, None),
        Err(LogError::AlreadyInstalled)
    );
    assert!(guard.installed());

    // Even a fresh guard cannot replace the sink this process already has.
    let mut second_guard = InstallGuard::new();
    assert_eq!(
        plugin.build(&mut second_guard, &settings, Some("debug")),
        Err(LogError::AlreadyInstalled)
    );
    assert!(!second_guard.installed());
}
