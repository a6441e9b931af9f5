use systray::SystrayError;

#[test]
fn os_error_message_carries_the_description() {
    let e = SystrayError::OsError("Error setting tooltip: 5".to_string());
    assert_eq!(e.message(), "OsError: Error setting tooltip: 5");
}

#[test]
fn os_error_message_with_empty_description() {
    let e = SystrayError::OsError(String::new());
    assert_eq!(e.message(), "OsError: ");
}

#[test]
fn not_implemented_message() {
    assert_eq!(
        SystrayError::NotImplementedError.message(),
        "Functionality is not implemented yet"
    );
}

#[test]
fn unknown_error_message() {
    assert_eq!(SystrayError::UnknownError.message(), "Unknown error occurrred");
}

#[test]
fn errors_compare_by_variant_and_description() {
    assert_eq!(
        SystrayError::OsError("a".to_string()),
        SystrayError::OsError("a".to_string())
    );
    assert_ne!(
        SystrayError::OsError("a".to_string()),
        SystrayError::OsError("b".to_string())
    );
    assert_ne!(SystrayError::UnknownError, SystrayError::NotImplementedError);
    let e = SystrayError::OsError("kept".to_string());
    assert_eq!(e.clone(), e);
}
