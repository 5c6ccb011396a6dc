use fontship::error::Error;

#[test]
fn error_carries_its_key() {
    let e = Error::new("setup-not-done");
    assert_eq!(e.details(), "setup-not-done");
}

#[test]
fn error_keeps_empty_key() {
    let e = Error::new("");
    assert_eq!(e.details(), "");
}
