use move_installer::diagnostics::{generate_report, DiagnosticReport};

#[test]
fn report_holds_what_it_was_given() {
    let report = generate_report(
        "SystemTime { tv_sec: 1, tv_nsec: 0 }".to_string(),
        "0.1.0".to_string(),
        Some("10.0.0.7".to_string()),
        vec!["first".to_string(), "second".to_string()],
    );
    assert_eq!(
        report,
        DiagnosticReport {
            timestamp: "SystemTime { tv_sec: 1, tv_nsec: 0 }".to_string(),
            app_version: "0.1.0".to_string(),
            device_ip: Some("10.0.0.7".to_string()),
            errors: vec!["first".to_string(), "second".to_string()],
        }
    );
}

#[test]
fn report_without_device_or_errors() {
    let report = generate_report(String::new(), "0.1.0".to_string(), None, Vec::new());
    assert_eq!(report.device_ip, None);
    assert!(report.errors.is_empty());
}
