use loggify::Level;
use loggify::LogBuilder;
use loggify::Loggify;
use loggify::Registry;

fn plain_logger(level: Level, exclude: Vec<String>) -> Loggify {
    Loggify {
        exclude,
        level,
        time_format: String::from("%d.%m.%Y %H:%M:%S"),
        log_target: false,
        color: false,
        aws: None,
    }
}

#[test]
fn severity_order_against_info_threshold() {
    let logger = plain_logger(Level::Info, Vec::new());
    assert!(logger.enabled(Level::Error, "app"));
    assert!(logger.enabled(Level::Warn, "app"));
    assert!(logger.enabled(Level::Info, "app"));
    assert!(!logger.enabled(Level::Debug, "app"));
    assert!(!logger.enabled(Level::Trace, "app"));
}

#[test]
fn severity_order_against_error_threshold() {
    let logger = plain_logger(Level::Error, Vec::new());
    assert!(logger.enabled(Level::Error, "app"));
    assert!(!logger.enabled(Level::Warn, "app"));
    assert!(!logger.enabled(Level::Info, "app"));
}

#[test]
fn severity_order_against_trace_threshold() {
    let logger = plain_logger(Level::Trace, Vec::new());
    assert!(logger.enabled(Level::Error, "app"));
    assert!(logger.enabled(Level::Warn, "app"));
    assert!(logger.enabled(Level::Info, "app"));
    assert!(logger.enabled(Level::Debug, "app"));
    assert!(logger.enabled(Level::Trace, "app"));
}

#[test]
fn excluded_target_is_disabled_regardless_of_severity() {
    let logger = plain_logger(Level::Trace, vec![String::from("mod::sub")]);
    assert!(!logger.enabled(Level::Error, "mod::sub"));
    assert!(!logger.enabled(Level::Warn, "mod::sub::deeper"));
    assert!(!logger.enabled(Level::Trace, "outer::mod::sub"));
}

#[test]
fn exclusion_is_substring_containment() {
    let logger = plain_logger(Level::Info, vec![String::from("mod::sub")]);
    assert!(!logger.enabled(Level::Info, "mod::sub::inner"));
    assert!(logger.enabled(Level::Info, "mod::other"));
}

#[test]
fn empty_exclude_list_never_excludes() {
    let logger = plain_logger(Level::Info, Vec::new());
    assert!(logger.enabled(Level::Info, ""));
    assert!(logger.enabled(Level::Info, "anything::at::all"));
}

#[test]
fn empty_exclude_string_excludes_every_target() {
    // The empty string is a substring of every target.
    let logger = plain_logger(Level::Info, vec![String::new()]);
    assert!(!logger.enabled(Level::Error, ""));
    assert!(!logger.enabled(Level::Error, "any::target"));
}

#[test]
fn several_excludes_any_match_disables() {
    let logger = plain_logger(
        Level::Info,
        vec![String::from("alpha"), String::from("beta")],
    );
    assert!(!logger.enabled(Level::Info, "x::alpha::y"));
    assert!(!logger.enabled(Level::Info, "x::beta"));
    assert!(logger.enabled(Level::Info, "x::gamma"));
}

#[test]
fn default_threshold_is_info() {
    let mut registry = Registry::new();
    Loggify::init(&mut registry).unwrap();
    let logger = registry.active.as_ref().unwrap();
    assert!(matches!(logger.level, Level::Info));
    assert!(!logger.enabled(Level::Debug, "app"));
    assert!(logger.enabled(Level::Info, "app"));
}

#[test]
fn target_surfacing_never_influences_the_decision() {
    let mut surfaced = plain_logger(Level::Info, vec![String::from("noisy")]);
    surfaced.log_target = true;
    let silent = plain_logger(Level::Info, vec![String::from("noisy")]);
    for (level, target) in [
        (Level::Error, "app"),
        (Level::Debug, "app"),
        (Level::Info, "noisy::child"),
        (Level::Info, "other"),
    ] {
        assert_eq!(surfaced.enabled(level, target), silent.enabled(level, target));
    }
}

#[test]
fn builder_assembles_the_configuration() {
    let mut registry = Registry::new();
    LogBuilder::new()
        .set_level(Level::Trace)
        .add_exclude(String::from("example::excluded"))
        .set_time_format(String::from("%H:%M:%S"))
        .set_log_target(true)
        .build(&mut registry)
        .unwrap();
    let logger = registry.active.as_ref().unwrap();
    assert!(matches!(logger.level, Level::Trace));
    assert_eq!(logger.exclude, vec![String::from("example::excluded")]);
    assert_eq!(logger.time_format, "%H:%M:%S");
    assert!(logger.log_target);
    assert!(logger.color);
    assert!(logger.aws.is_none());
    assert!(!logger.enabled(Level::Trace, "example::excluded::call"));
    assert!(logger.enabled(Level::Trace, "example::included::call"));
}

#[test]
fn init_with_level_sets_the_threshold() {
    let mut registry = Registry::new();
    Loggify::init_with_level(Level::Debug, &mut registry).unwrap();
    assert!(matches!(registry.threshold, Some(Level::Debug)));
    let logger = registry.active.as_ref().unwrap();
    assert!(logger.enabled(Level::Debug, "app"));
    assert!(!logger.enabled(Level::Trace, "app"));
}
