use bevy_log::{LogSettings, PrefixCell};

#[test]
fn write_nonempty_then_read_appends_one_space() {
    let cell = PrefixCell::new();
    cell.set(String::from("REQ-42"));
    assert_eq!(cell.get(), "REQ-42 ");
}

#[test]
fn write_empty_then_read_is_empty() {
    let cell = PrefixCell::new();
    cell.set(String::from("REQ-42"));
    cell.set(String::new());
    assert_eq!(cell.get(), "");
}

#[test]
fn fresh_cell_reads_empty() {
    let cell = PrefixCell::new();
    assert_eq!(cell.get(), "");
}

#[test]
fn set_returns_exactly_what_was_stored() {
    let cell = PrefixCell::new();
    let stored = cell.set(String::from("shard-7"));
    assert_eq!(stored, "shard-7 ");
    assert_eq!(cell.get(), stored);
}

#[test]
fn repeated_write_reads_as_one_write() {
    let once = PrefixCell::new();
    once.set(String::from("node-3"));
    let twice = PrefixCell::new();
    twice.set(String::from("node-3"));
    twice.set(String::from("node-3"));
    assert_eq!(once.get(), twice.get());
}

#[test]
fn settings_write_reaches_the_shared_cell() {
    let settings = LogSettings::default();
    settings.set_dynamic_prefix(String::from("world-1"));
    assert_eq!(settings.dynamic_prefix.get(), "world-1 ");
    settings.set_dynamic_prefix(String::new());
    assert_eq!(settings.dynamic_prefix.get(), "");
}

#[test]
fn read_after_competing_writes_is_one_value_whole() {
    let cell = PrefixCell::new();
    cell.set(String::from("alpha"));
    cell.set(String::from("beta"));
    let r = cell.get();
    assert!(r == "alpha " || r == "beta ");
    assert_eq!(r, "beta ");
}

