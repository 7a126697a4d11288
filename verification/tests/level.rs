use settings_committer::level::{selected_level, LevelFilter};

#[test]
fn the_five_levels_are_selected_by_name() {
    assert_eq!(selected_level("trace"), Some(LevelFilter::Trace));
    assert_eq!(selected_level("debug"), Some(LevelFilter::Debug));
    assert_eq!(selected_level("info"), Some(LevelFilter::Info));
    assert_eq!(selected_level("warn"), Some(LevelFilter::Warn));
    assert_eq!(selected_level("error"), Some(LevelFilter::Error));
}

#[test]
fn names_are_read_in_any_letter_case() {
    assert_eq!(selected_level("INFO"), Some(LevelFilter::Info));
    assert_eq!(selected_level("Warn"), Some(LevelFilter::Warn));
    assert_eq!(selected_level("eRRoR"), Some(LevelFilter::Error));
}

#[test]
fn off_selects_nothing() {
    assert_eq!(selected_level("off"), None);
    assert_eq!(selected_level("OFF"), None);
    assert_eq!(selected_level("Off"), None);
}

#[test]
fn other_names_select_nothing() {
    for name in ["", "verbose", "warning", "inf", "info ", " info", "trace\n", "dëbug", "3"] {
        assert_eq!(selected_level(name), None, "name {:?}", name);
    }
}
