use backend_supervisor::status::{BackendStatus, BACKEND_PORT};

#[test]
fn fixed_port_is_8080() {
    assert_eq!(BACKEND_PORT, 8080);
}

#[test]
fn started_status_reports_the_fixed_port() {
    let status = BackendStatus::started();
    assert!(status.running);
    assert_eq!(status.port, Some(8080));
    assert_eq!(status, BackendStatus { running: true, port: Some(8080) });
}

#[test]
fn stopped_status_reports_no_port() {
    let status = BackendStatus::stopped();
    assert!(!status.running);
    assert_eq!(status.port, None);
    assert_eq!(status, BackendStatus { running: false, port: None });
}

#[test]
fn started_and_stopped_differ() {
    assert_ne!(BackendStatus::started(), BackendStatus::stopped());
}

#[test]
fn well_formedness_ties_port_to_running() {
    assert!(BackendStatus::started().is_well_formed());
    assert!(BackendStatus::stopped().is_well_formed());
    assert!(BackendStatus { running: true, port: Some(8080) }.is_well_formed());
    assert!(BackendStatus { running: false, port: None }.is_well_formed());
}

#[test]
fn ill_formed_statuses_are_recognised() {
    assert!(!BackendStatus { running: true, port: None }.is_well_formed());
    assert!(!BackendStatus { running: false, port: Some(8080) }.is_well_formed());
    assert!(!BackendStatus { running: true, port: Some(8081) }.is_well_formed());
    assert!(!BackendStatus { running: true, port: Some(80) }.is_well_formed());
    assert!(!BackendStatus { running: false, port: Some(0) }.is_well_formed());
}

#[test]
fn status_is_a_plain_copyable_value() {
    let status = BackendStatus::started();
    let copy = status;
    let clone = status.clone();
    assert_eq!(status, copy);
    assert_eq!(status, clone);
    assert_eq!(format!("{:?}", status), "BackendStatus { running: true, port: Some(8080) }");
}
