use rustlet::{
    connection_outcome, http_outcome, resolution_outcome, status_is_success, tcp_target,
    CheckError, FailureKind, HttpObservation,
};

fn failure(r: Result<(), CheckError>) -> (FailureKind, String) {
    match r {
        Ok(()) => panic!("expected a failure"),
        Err(e) => {
            let k = e.kind();
            let text = e.to_string();
            let msg = match e {
                CheckError::InvalidAddress(m) => m,
                CheckError::ConnectionFailed(m) => m,
                CheckError::RequestFailed(m) => m,
            };
            assert!(text.ends_with(&msg));
            (k, msg)
        }
    }
}

#[test]
fn target_strips_tcp_scheme() {
    assert_eq!(tcp_target("tcp://db:5432"), "db:5432");
    assert_eq!(tcp_target("db:5432"), "db:5432");
    assert_eq!(tcp_target("tcp://"), "");
    assert_eq!(tcp_target("tcp:/"), "tcp:/");
    assert_eq!(tcp_target("http://db:80"), "http://db:80");
    assert_eq!(tcp_target(""), "");
}

#[test]
fn resolution_error_is_invalid_address() {
    let r = resolution_outcome("nohost:1", Err("lookup failed".to_string()));
    assert_eq!(failure(r), (FailureKind::InvalidAddress, "nohost:1: lookup failed".to_string()));
}

#[test]
fn empty_resolution_is_invalid_address() {
    let r = resolution_outcome("tcp://x:1", Ok(0));
    assert_eq!(
        failure(r),
        (FailureKind::InvalidAddress, "No addresses resolved for: tcp://x:1".to_string())
    );
}

#[test]
fn resolved_address_goes_on_to_connect() {
    assert!(resolution_outcome("x:1", Ok(1)).is_ok());
    assert!(resolution_outcome("x:1", Ok(3)).is_ok());
}

#[test]
fn refused_connection_is_connection_failed() {
    let r = connection_outcome("127.0.0.1:1", Err("Connection refused".to_string()));
    assert_eq!(
        failure(r),
        (FailureKind::ConnectionFailed, "127.0.0.1:1: Connection refused".to_string())
    );
    assert!(connection_outcome("127.0.0.1:1", Ok(())).is_ok());
}

#[test]
fn success_status_class() {
    assert!(!status_is_success(199));
    assert!(status_is_success(200));
    assert!(status_is_success(204));
    assert!(status_is_success(299));
    assert!(!status_is_success(300));
    assert!(!status_is_success(0));
    assert!(!status_is_success(u16::MAX));
}

#[test]
fn http_success_statuses() {
    assert!(http_outcome("http://a/", HttpObservation::Status(200, Some("OK".to_string()))).is_ok());
    assert!(http_outcome("http://a/", HttpObservation::Status(299, None)).is_ok());
}

#[test]
fn http_non_success_status_is_request_failed() {
    let r = http_outcome("http://a/", HttpObservation::Status(404, Some("Not Found".to_string())));
    assert_eq!(
        failure(r),
        (FailureKind::RequestFailed, "http://a/: HTTP 404 Not Found".to_string())
    );
    let r = http_outcome("http://a/", HttpObservation::Status(302, Some("Found".to_string())));
    assert_eq!(failure(r), (FailureKind::RequestFailed, "http://a/: HTTP 302 Found".to_string()));
    let r = http_outcome(
        "http://a/",
        HttpObservation::Status(503, Some("Service Unavailable".to_string())),
    );
    assert_eq!(
        failure(r),
        (FailureKind::RequestFailed, "http://a/: HTTP 503 Service Unavailable".to_string())
    );
    let r = http_outcome("u", HttpObservation::Status(7, None));
    assert_eq!(
        failure(r),
        (FailureKind::RequestFailed, "u: HTTP 7 <unknown status code>".to_string())
    );
    let r = http_outcome("u", HttpObservation::Status(65535, None));
    assert_eq!(
        failure(r),
        (FailureKind::RequestFailed, "u: HTTP 65535 <unknown status code>".to_string())
    );
}

#[test]
fn http_transport_error_is_request_failed() {
    let r = http_outcome("http://example.invalid/", HttpObservation::TransportFailed("dns error".to_string()));
    assert_eq!(
        failure(r),
        (FailureKind::RequestFailed, "http://example.invalid/: dns error".to_string())
    );
}

#[test]
fn http_client_error_is_invalid_address() {
    let r = http_outcome("http://a/", HttpObservation::ClientFailed("no tls".to_string()));
    assert_eq!(
        failure(r),
        (FailureKind::InvalidAddress, "Client creation failed: no tls".to_string())
    );
}

#[test]
fn reachable_endpoint_probed_twice_succeeds_twice() {
    assert!(resolution_outcome("db:1", Ok(1)).is_ok());
    assert!(connection_outcome("db:1", Ok(())).is_ok());
    assert!(resolution_outcome("db:1", Ok(2)).is_ok());
    assert!(connection_outcome("db:1", Ok(())).is_ok());
    assert!(http_outcome("http://a/", HttpObservation::Status(200, Some("OK".to_string()))).is_ok());
    assert!(http_outcome("http://a/", HttpObservation::Status(200, Some("OK".to_string()))).is_ok());
}
