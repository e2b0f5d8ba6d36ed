use oauth_loopback::commands::failure_message;
use oauth_loopback::commands::open_url_outcome;
use oauth_loopback::commands::start_server_outcome;

#[test]
fn open_success_passes_through() {
    assert_eq!(open_url_outcome(Ok(())), Ok(()));
}

#[test]
fn open_failure_forwards_error_text() {
    let r = open_url_outcome(Err(String::from("no handler registered")));
    assert_eq!(r, Err(String::from("no handler registered")));
}

#[test]
fn open_failure_payload_is_never_empty() {
    let r = open_url_outcome(Err(String::new()));
    match r {
        Err(m) => assert!(!m.is_empty()),
        Ok(()) => panic!("an open attempt that failed must be reported as a failure"),
    }
}

#[test]
fn start_valid_port_passes_through() {
    assert_eq!(start_server_outcome(Ok(49152)), Ok(49152));
}

#[test]
fn start_reports_ports_in_valid_range_only() {
    assert_eq!(start_server_outcome(Ok(1)), Ok(1));
    assert_eq!(start_server_outcome(Ok(65535)), Ok(65535));
    let r = start_server_outcome(Ok(0));
    match r {
        Err(m) => assert!(!m.is_empty()),
        Ok(p) => panic!("port {} should not have been accepted", p),
    }
}

#[test]
fn start_bind_failure_forwarded() {
    let r = start_server_outcome(Err(String::from("address in use")));
    assert_eq!(r, Err(String::from("address in use")));
}

#[test]
fn two_starts_in_succession_are_independent() {
    let first = start_server_outcome(Ok(50000));
    let second = start_server_outcome(Err(String::from("no sockets available")));
    assert_eq!(first, Ok(50000));
    assert_eq!(second, Err(String::from("no sockets available")));
    let third = start_server_outcome(Ok(50000));
    assert_eq!(third, first);
}

#[test]
fn failure_message_keeps_nonempty_text() {
    assert_eq!(
        failure_message(String::from("connection refused")),
        String::from("connection refused")
    );
}

#[test]
fn failure_message_replaces_empty_text() {
    let m = failure_message(String::new());
    assert!(!m.is_empty());
}
