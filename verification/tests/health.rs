use backend_supervisor::health::{is_success_status, parse_status_code, probe_succeeded};

#[test]
fn parses_ordinary_status_lines() {
    assert_eq!(parse_status_code(b"HTTP/1.1 200 OK"), Some(200));
    assert_eq!(parse_status_code(b"HTTP/1.1 404 Not Found"), Some(404));
    assert_eq!(parse_status_code(b"HTTP/1.0 500 Internal Server Error"), Some(500));
    assert_eq!(parse_status_code(b"HTTP/2 204 No Content"), Some(204));
}

#[test]
fn parses_line_that_ends_at_the_code() {
    assert_eq!(parse_status_code(b"HTTP/1.1 204"), Some(204));
}

#[test]
fn rejects_lines_without_the_protocol_prefix() {
    assert_eq!(parse_status_code(b"SMTP/1.1 200 OK"), None);
    assert_eq!(parse_status_code(b"200 OK"), None);
    assert_eq!(parse_status_code(b""), None);
    assert_eq!(parse_status_code(b"HTT"), None);
}

#[test]
fn rejects_lines_without_a_readable_code() {
    assert_eq!(parse_status_code(b"HTTP/1.1"), None);
    assert_eq!(parse_status_code(b"HTTP/1.1 "), None);
    assert_eq!(parse_status_code(b"HTTP/1.1 20"), None);
    assert_eq!(parse_status_code(b"HTTP/1.1 2x0 OK"), None);
    assert_eq!(parse_status_code(b"HTTP/1.1 2000 OK"), None);
}

#[test]
fn success_means_the_2xx_range() {
    assert!(!is_success_status(199));
    assert!(is_success_status(200));
    assert!(is_success_status(204));
    assert!(is_success_status(299));
    assert!(!is_success_status(300));
    assert!(!is_success_status(404));
    assert!(!is_success_status(500));
}

#[test]
fn probe_outcome_follows_the_status_line() {
    assert!(probe_succeeded(b"HTTP/1.1 200 OK"));
    assert!(probe_succeeded(b"HTTP/1.1 299 Custom"));
    assert!(!probe_succeeded(b"HTTP/1.1 302 Found"));
    assert!(!probe_succeeded(b"HTTP/1.1 503 Service Unavailable"));
    assert!(!probe_succeeded(b"garbage"));
}
