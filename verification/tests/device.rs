use move_installer::device::{
    browse_ended, browse_poll, browse_service_type, device_not_found, discover_move,
    discover_via_mdns, name_query, probe_concluded, validate_device, validate_device_request,
    BrowseEnd, BrowseEvent, DeviceIdentity, Discovery, MoveDevice, NameLookup,
};
use move_installer::error::{ErrorKind, InstallerError};
use move_installer::http::{HttpOutcome, HttpReply, HttpStatus, Method};

const NOT_FOUND: &str = "Move device not found. Please ensure Move is on the same WiFi network.";

fn identity(name: &str, hint: &str) -> DeviceIdentity {
    DeviceIdentity { local_name: name.to_string(), service_hint: hint.to_string() }
}

fn answered(code: u16, text: &str) -> HttpOutcome {
    HttpOutcome::Answered(HttpReply {
        status: HttpStatus { code, text: text.to_string() },
        cookies: Vec::new(),
    })
}

fn resolved(hostname: &str, addresses: &[&str]) -> BrowseEvent {
    BrowseEvent::Resolved {
        hostname: hostname.to_string(),
        addresses: addresses.iter().map(|a| a.to_string()).collect(),
    }
}

#[test]
fn the_move_is_known_as_move_local() {
    let id = DeviceIdentity::move_device();
    assert_eq!(id.local_name, "move.local");
    assert_eq!(id.service_hint, "move");
    assert_eq!(name_query(&id), "move.local:80");
    assert_eq!(browse_service_type(), "_http._tcp.local.");
}

#[test]
fn probe_request_is_a_bare_get() {
    let request = validate_device_request("http://10.0.0.5");
    assert_eq!(request.method, Method::Get);
    assert_eq!(request.url, "http://10.0.0.5");
    assert_eq!(request.user_agent, None);
    assert_eq!(request.cookie, None);
    assert_eq!(request.json_body, None);
}

#[test]
fn any_answer_counts_as_reached() {
    assert_eq!(validate_device(&answered(200, "200 OK")), Ok(true));
    assert_eq!(validate_device(&answered(404, "404 Not Found")), Ok(true));
    assert_eq!(validate_device(&answered(500, "500 Internal Server Error")), Ok(true));
}

#[test]
fn failed_exchange_is_unreachable() {
    let outcome = HttpOutcome::Failed { reason: "connection refused".to_string() };
    assert_eq!(
        validate_device(&outcome),
        Err(InstallerError {
            kind: ErrorKind::Unreachable,
            message: "Cannot reach device: connection refused".to_string(),
        })
    );
}

#[test]
fn named_device_is_found_without_discovery() {
    let id = identity("device.local", "device");
    let lookup = NameLookup::Resolved {
        addresses: vec!["192.168.1.20".to_string(), "fe80::1".to_string()],
    };
    let next = discover_move(&id, &lookup);
    let (ip, request) = match next {
        Discovery::Probe { ip, request } => (ip, request),
        other => panic!("expected a probe, got {:?}", other),
    };
    assert_eq!(ip, "192.168.1.20");
    assert_eq!(request.url, "http://192.168.1.20");
    let probed = validate_device(&answered(200, "200 OK"));
    assert_eq!(
        probe_concluded(&id, &ip, &probed),
        Discovery::Found(MoveDevice {
            hostname: "device.local".to_string(),
            ip: "192.168.1.20".to_string(),
        })
    );
}

#[test]
fn the_move_is_found_under_its_own_name() {
    let id = DeviceIdentity::move_device();
    assert_eq!(
        probe_concluded(&id, "10.0.0.5", &Ok(true)),
        Discovery::Found(MoveDevice { hostname: "move.local".to_string(), ip: "10.0.0.5".to_string() })
    );
}

#[test]
fn unresolved_name_falls_back_to_discovery() {
    let id = DeviceIdentity::move_device();
    let lookup = NameLookup::Failed { reason: "no such host".to_string() };
    let reasons = match discover_move(&id, &lookup) {
        Discovery::Browse { reasons } => reasons,
        other => panic!("expected browsing, got {:?}", other),
    };
    assert_eq!(reasons, vec!["Hostname resolution failed: no such host".to_string()]);

    assert_eq!(browse_poll(0), Some(100));
    let reasons = match discover_via_mdns(&id, reasons, &BrowseEvent::Other) {
        Discovery::Browse { reasons } => reasons,
        other => panic!("expected browsing, got {:?}", other),
    };
    let reasons = match discover_via_mdns(&id, reasons, &resolved("printer.local.", &["10.0.0.9"])) {
        Discovery::Browse { reasons } => reasons,
        other => panic!("expected browsing, got {:?}", other),
    };
    assert_eq!(browse_poll(4200), Some(100));
    assert_eq!(
        discover_via_mdns(&id, reasons, &resolved("move-1a2b.local.", &["10.0.0.7", "10.0.0.8"])),
        Discovery::Found(MoveDevice { hostname: "move.local".to_string(), ip: "10.0.0.7".to_string() })
    );
}

#[test]
fn discovery_out_of_time_is_not_found() {
    let id = DeviceIdentity::move_device();
    let reasons = match discover_move(&id, &NameLookup::Failed { reason: "timeout".to_string() }) {
        Discovery::Browse { reasons } => reasons,
        other => panic!("expected browsing, got {:?}", other),
    };
    assert_eq!(browse_poll(5000), None);
    let error = browse_ended(reasons, &BrowseEnd::TimedOut);
    assert_eq!(error.kind, ErrorKind::NotFound);
    assert_eq!(
        error.message,
        format!(
            "{}\nHostname resolution failed: timeout\nMove device not found via mDNS",
            NOT_FOUND
        )
    );
}

#[test]
fn no_address_leads_to_browsing() {
    let id = DeviceIdentity::move_device();
    assert_eq!(
        discover_move(&id, &NameLookup::Resolved { addresses: Vec::new() }),
        Discovery::Browse { reasons: vec!["No addresses returned for move.local".to_string()] }
    );
}

#[test]
fn failed_probe_leads_to_browsing() {
    let id = DeviceIdentity::move_device();
    let probed = validate_device(&HttpOutcome::Failed { reason: "refused".to_string() });
    assert_eq!(
        probe_concluded(&id, "10.0.0.5", &probed),
        Discovery::Browse {
            reasons: vec!["Device validation failed: Cannot reach device: refused".to_string()],
        }
    );
}

#[test]
fn matching_service_without_address_ends_the_search() {
    let id = DeviceIdentity::move_device();
    let next = discover_via_mdns(&id, vec!["r1".to_string()], &resolved("move.local.", &[]));
    assert_eq!(
        next,
        Discovery::NotFound(InstallerError {
            kind: ErrorKind::NotFound,
            message: format!("{}\nr1\nNo IP address found", NOT_FOUND),
        })
    );
}

#[test]
fn browse_poll_never_waits_past_the_budget() {
    assert_eq!(browse_poll(0), Some(100));
    assert_eq!(browse_poll(4899), Some(100));
    assert_eq!(browse_poll(4900), Some(100));
    assert_eq!(browse_poll(4901), Some(99));
    assert_eq!(browse_poll(4999), Some(1));
    assert_eq!(browse_poll(5000), None);
    assert_eq!(browse_poll(5001), None);
    assert_eq!(browse_poll(u64::MAX), None);
}

#[test]
fn browse_start_failures_are_named() {
    let daemon = browse_ended(Vec::new(), &BrowseEnd::DaemonFailed { reason: "no socket".to_string() });
    assert_eq!(daemon.message, format!("{}\nFailed to start mDNS: no socket", NOT_FOUND));
    let browse = browse_ended(Vec::new(), &BrowseEnd::BrowseFailed { reason: "busy".to_string() });
    assert_eq!(browse.message, format!("{}\nFailed to browse: busy", NOT_FOUND));
    assert_eq!(browse.kind, ErrorKind::NotFound);
}

#[test]
fn not_found_without_reasons_is_the_plain_statement() {
    let error = device_not_found(&Vec::new());
    assert_eq!(error.kind, ErrorKind::NotFound);
    assert_eq!(error.message, NOT_FOUND);
}
