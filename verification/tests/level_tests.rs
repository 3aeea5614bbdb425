use vine::level::Level;

#[test]
fn test_level_enabled() {
    let l1 = Level::DebugLevel;
    let l2 = Level::InfoLevel;
    assert!(l1 < l2);
    println!("{}", l1.to_str());
}

#[test]
fn test_from() {
    let l1 = Level::from("debug").unwrap();
    assert_eq!(l1, Level::DebugLevel);

    let l2 = Level::from("fatal").unwrap();
    assert_eq!(l2, Level::FatalLevel);
}

#[test]
fn from_refuses_unknown_names() {
    let e = Level::from("loud").unwrap_err();
    assert_eq!(e.code(), vine::errors::Code::BadRequest);
}

#[test]
fn enabled_is_at_or_above() {
    assert!(Level::InfoLevel.enabled(&Level::InfoLevel));
    assert!(Level::InfoLevel.enabled(&Level::ErrorLevel));
    assert!(!Level::InfoLevel.enabled(&Level::DebugLevel));
}

#[test]
fn names_round_trip() {
    for l in [
        Level::TraceLevel,
        Level::DebugLevel,
        Level::InfoLevel,
        Level::WarnLevel,
        Level::ErrorLevel,
        Level::FatalLevel,
    ] {
        assert_eq!(Level::from(l.to_str()).unwrap(), l);
    }
}
