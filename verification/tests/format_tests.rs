use chalk_rs::Chalk;
use loggify::Level;
use loggify::Loggify;
use loggify::Timestamp;

fn ts() -> Timestamp {
    Timestamp { year: 2024, month: 3, day: 9, hour: 5, minute: 7, second: 2 }
}

fn logger(color: bool) -> Loggify {
    Loggify {
        exclude: Vec::new(),
        level: Level::Info,
        time_format: String::from("%d.%m.%Y %H:%M:%S"),
        log_target: false,
        color,
        aws: None,
    }
}

#[test]
fn default_pattern_renders_zero_padded_fields() {
    let line = logger(false).render(Level::Error, "My error message", &ts());
    assert_eq!(line, "[09.03.2024 05:07:02] > Error > My error message");
}

#[test]
fn labels_are_five_characters_for_column_alignment() {
    assert_eq!(Level::Error.label(), "Error");
    assert_eq!(Level::Warn.label(), "Warn ");
    assert_eq!(Level::Info.label(), "Info ");
    assert_eq!(Level::Debug.label(), "Debug");
    assert_eq!(Level::Trace.label(), "Trace");
}

#[test]
fn each_severity_gets_its_label() {
    let l = logger(false);
    assert_eq!(l.render(Level::Warn, "m", &ts()), "[09.03.2024 05:07:02] > Warn  > m");
    assert_eq!(l.render(Level::Info, "m", &ts()), "[09.03.2024 05:07:02] > Info  > m");
    assert_eq!(l.render(Level::Debug, "m", &ts()), "[09.03.2024 05:07:02] > Debug > m");
    assert_eq!(l.render(Level::Trace, "m", &ts()), "[09.03.2024 05:07:02] > Trace > m");
}

#[test]
fn time_only_pattern() {
    let mut l = logger(false);
    l.time_format = String::from("%H:%M:%S");
    assert_eq!(l.render(Level::Info, "hi", &ts()), "[05:07:02] > Info  > hi");
}

#[test]
fn percent_escape_and_unknown_directive_are_kept() {
    let mut l = logger(false);
    l.time_format = String::from("100%% %q");
    assert_eq!(l.render(Level::Info, "hi", &ts()), "[100% %q] > Info  > hi");
}

#[test]
fn trailing_percent_is_kept_literally() {
    let mut l = logger(false);
    l.time_format = String::from("%H%");
    assert_eq!(l.render(Level::Info, "hi", &ts()), "[05%] > Info  > hi");
}

#[test]
fn years_outside_four_digits() {
    let mut l = logger(false);
    l.time_format = String::from("%Y");
    let mut t = ts();
    t.year = 987;
    assert_eq!(l.render(Level::Info, "m", &t), "[0987] > Info  > m");
    t.year = 12345;
    assert_eq!(l.render(Level::Info, "m", &t), "[12345] > Info  > m");
    t.year = -44;
    assert_eq!(l.render(Level::Info, "m", &t), "[-44] > Info  > m");
}

#[test]
fn plain_output_has_no_escape_sequences() {
    for level in [Level::Error, Level::Warn, Level::Info, Level::Debug, Level::Trace] {
        let line = logger(false).render(level, "a plain message", &ts());
        assert!(!line.contains('\u{1b}'));
    }
}

#[test]
fn colored_output_contains_the_plain_message() {
    let line = logger(true).render(Level::Warn, "the message text", &ts());
    assert!(line.contains("the message text"));
    assert!(line.contains('\u{1b}'));
}

#[test]
fn colored_output_matches_the_terminal_color_crate() {
    // The colorized segments must be byte-for-byte what chalk_rs
    // renders: bold red/yellow/cyan/magenta/blue labels, a grey
    // timestamp, a bold white message.
    let pairs = [
        (Level::Error, Chalk::new().red().bold().string(&"Error")),
        (Level::Warn, Chalk::new().yellow().bold().string(&"Warn ")),
        (Level::Info, Chalk::new().cyan().bold().string(&"Info ")),
        (Level::Debug, Chalk::new().magenta().bold().string(&"Debug")),
        (Level::Trace, Chalk::new().blue().bold().string(&"Trace")),
    ];
    for (level, chalked_label) in pairs {
        let line = logger(true).render(level, "My message", &ts());
        let expected = format!(
            "[{}] > {} > {}",
            Chalk::new().grey().string(&"09.03.2024 05:07:02"),
            chalked_label,
            Chalk::new().white().bold().string(&"My message"),
        );
        assert_eq!(line, expected);
    }
}

#[test]
fn log_line_returns_none_for_suppressed_records() {
    let l = logger(false);
    assert!(l.log_line(Level::Debug, "app", "hidden").is_none());
}

#[test]
fn log_line_renders_enabled_records() {
    let l = logger(false);
    let line = l.log_line(Level::Error, "app", "shown").unwrap();
    assert!(line.starts_with('['));
    assert!(line.ends_with("] > Error > shown"));
    assert!(!line.contains('\u{1b}'));
}
