use loggify::Level;
use loggify::LogBuilder;
use loggify::Loggify;
use loggify::RegistrationError;
use loggify::Registry;

#[test]
fn second_build_fails_and_first_stays_active() {
    let mut registry = Registry::new();
    let first = LogBuilder::new()
        .set_level(Level::Debug)
        .add_exclude(String::from("noisy"))
        .build(&mut registry);
    assert_eq!(first, Ok(()));

    let second = LogBuilder::new().set_level(Level::Trace).build(&mut registry);
    assert_eq!(second, Err(RegistrationError));

    // The first registration remains active and functional.
    assert!(matches!(registry.threshold, Some(Level::Debug)));
    let logger = registry.active.as_ref().unwrap();
    assert!(matches!(logger.level, Level::Debug));
    assert!(logger.enabled(Level::Debug, "app"));
    assert!(!logger.enabled(Level::Info, "noisy::child"));
    assert!(logger.log_line(Level::Error, "app", "still working").is_some());
}

#[test]
fn init_twice_fails_the_second_time() {
    let mut registry = Registry::new();
    assert_eq!(Loggify::init(&mut registry), Ok(()));
    assert_eq!(Loggify::init(&mut registry), Err(RegistrationError));
    assert!(registry.active.is_some());
}

#[test]
fn registration_sets_the_global_threshold() {
    let mut registry = Registry::new();
    assert!(registry.threshold.is_none());
    LogBuilder::new().set_level(Level::Warn).build(&mut registry).unwrap();
    assert!(matches!(registry.threshold, Some(Level::Warn)));
}

#[test]
fn disable_color_is_kept_in_the_configuration() {
    let mut registry = Registry::new();
    LogBuilder::new().disable_color().build(&mut registry).unwrap();
    let logger = registry.active.as_ref().unwrap();
    assert!(!logger.color);
    let line = logger
        .log_line(Level::Error, "app", "plain please")
        .unwrap();
    assert!(!line.contains('\u{1b}'));
}
