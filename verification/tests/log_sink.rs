use roseline_launcher::log_sink::{LogOpenError, LogOpenOptions};

#[test]
fn log_is_created_written_and_truncated() {
    let options = LogOpenOptions::launcher();
    assert!(options.write);
    assert!(options.create);
    assert!(options.truncate);
    assert!(!options.read);
    assert!(!options.append);
}

#[test]
fn log_open_diagnostic_names_path_and_reason() {
    let error = LogOpenError::new("/opt/app/roseline.log", "Permission denied (os error 13)");
    assert_eq!(error.path, "/opt/app/roseline.log");
    assert_eq!(error.reason, "Permission denied (os error 13)");
    assert_eq!(
        error.diagnostic(),
        "/opt/app/roseline.log: Unable to open log file. Error: Permission denied (os error 13)"
    );
}

#[test]
fn log_open_diagnostic_of_empty_parts() {
    assert_eq!(LogOpenError::new("", "").diagnostic(), ": Unable to open log file. Error: ");
}
