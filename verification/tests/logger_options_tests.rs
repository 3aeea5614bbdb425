use vine::level::Level;
use vine::logger::Options;

#[test]
fn options_test_new() {
    let opt: Options = Options::new();
    assert_eq!(opt.level(), Level::InfoLevel);
}

#[test]
fn test_build() {
    let m = vec![("k".to_string(), "v".to_string())];
    let mc = m.clone();
    let mut opt: Options = Options::new().with_level(Level::ErrorLevel);

    opt = opt.with_fields(m).insert_field("1".to_string(), "2".to_string());
    assert_eq!(opt.level(), Level::ErrorLevel);
    assert_ne!(opt.fields(), mc);
}

#[test]
fn insert_field_replaces_same_name() {
    let opt = Options::new()
        .insert_field("k".to_string(), "a".to_string())
        .insert_field("k".to_string(), "b".to_string());
    let fields = opt.fields();
    assert_eq!(fields.len(), 1);
    assert_eq!(fields[0], ("k".to_string(), "b".to_string()));
}

#[test]
fn skip_defaults_and_updates() {
    let opt = Options::new();
    assert_eq!(opt.skip(), 2);
    let opt = opt.with_skip(5);
    assert_eq!(opt.skip(), 5);
}
