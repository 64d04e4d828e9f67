use harness_desktop::probe::{
    is_harness_page, port_taken, probe_harness, probe_port, ConnectOutcome, ReadOutcome, Reply,
    CONNECT_TIMEOUT_MILLIS, HARNESS_REQUEST, READ_TIMEOUT_MILLIS,
};

fn reply_of(chunks: &[&[u8]]) -> Reply {
    let mut reply = Reply::new();
    for chunk in chunks {
        assert!(reply.absorb(ReadOutcome::Read(chunk)));
    }
    reply
}

#[test]
fn port_is_taken_if_it_can_be_connected_to() {
    assert!(port_taken(ConnectOutcome::Connected));
    assert!(!port_taken(ConnectOutcome::Failed));
    assert!(probe_port(ConnectOutcome::Connected));
    assert!(!probe_port(ConnectOutcome::Failed));
}

#[test]
fn request_and_limits() {
    assert_eq!(
        HARNESS_REQUEST.as_bytes(),
        b"GET / HTTP/1.1\r\nHost: 127.0.0.1\r\nConnection: close\r\n\r\n"
    );
    assert_eq!(CONNECT_TIMEOUT_MILLIS, 500);
    assert_eq!(READ_TIMEOUT_MILLIS, 800);
}

#[test]
fn reply_grows_until_a_read_brings_nothing() {
    let mut reply = reply_of(&[b"ab", b"c"]);
    assert_eq!(reply.as_slice(), b"abc");
    assert!(!reply.absorb(ReadOutcome::Read(b"")));
    assert!(!reply.absorb(ReadOutcome::Failed));
    assert_eq!(reply.as_slice(), b"abc");
}

#[test]
fn harness_page_has_a_mark() {
    assert!(is_harness_page("<title>DeepSeek Harness</title>"));
    assert!(is_harness_page("window.__DSH_BOOT__={}"));
    assert!(is_harness_page("DeepSeek Harness"));
    assert!(!is_harness_page("deepseek harness"));
    assert!(!is_harness_page("DeepSeek  Harness"));
    assert!(!is_harness_page(""));
}

#[test]
fn harness_is_recognised_in_the_reply() {
    assert!(!probe_harness(None));
    assert!(!probe_harness(Some(&Reply::new())));
    let page = reply_of(&[b"HTTP/1.1 200 OK\r\n\r\n<title>Deep", b"Seek Harness</title>"]);
    assert!(probe_harness(Some(&page)));
    assert!(!probe_harness(Some(&reply_of(&[b"HTTP/1.1 404 Not Found\r\n\r\n"]))));
}

#[test]
fn harness_is_recognised_among_invalid_bytes() {
    assert!(probe_harness(Some(&reply_of(&[b"\xff\xfe__DSH_BOOT__\xc3"]))));
    assert!(!probe_harness(Some(&reply_of(&[b"__DSH\xffBOOT__"]))));
}
