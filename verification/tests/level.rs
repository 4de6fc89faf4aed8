use tunwatch::level::Level;

#[test]
fn known_tokens_name_their_level() {
    assert_eq!(Level::from_token("debug"), Level::Debug);
    assert_eq!(Level::from_token("info"), Level::Info);
    assert_eq!(Level::from_token("warning"), Level::Warning);
    assert_eq!(Level::from_token("error"), Level::Error);
}

#[test]
fn tokens_are_case_sensitive() {
    assert_eq!(Level::from_token("DEBUG"), Level::Info);
    assert_eq!(Level::from_token("Warning"), Level::Info);
    assert_eq!(Level::from_token("ERROR"), Level::Info);
}

#[test]
fn unknown_tokens_are_info() {
    assert_eq!(Level::from_token(""), Level::Info);
    assert_eq!(Level::from_token("warn"), Level::Info);
    assert_eq!(Level::from_token("errors"), Level::Info);
    assert_eq!(Level::from_token("debu"), Level::Info);
    assert_eq!(Level::from_token(" debug"), Level::Info);
    assert_eq!(Level::from_token("trace"), Level::Info);
}
