use tcpip_tester::devices::list_interfaces;
use tcpip_tester::http::{usable_headers, HttpMethod};
use tcpip_tester::record::Protocol;
use tcpip_tester::tcp::TcpTester;

#[test]
fn protocol_labels() {
    assert_eq!(Protocol::Ethernet.label(), "Ethernet");
    assert_eq!(Protocol::Ipv4.label(), "IPv4");
    assert_eq!(Protocol::Tcp.label(), "TCP");
    assert_eq!(Protocol::Udp.label(), "UDP");
    assert_eq!(Protocol::Unrecognized.label(), "Unrecognized");
}

#[test]
fn http_method_defaults_to_get() {
    assert_eq!(HttpMethod::default(), HttpMethod::GET);
}

#[test]
fn body_goes_only_with_non_get_methods() {
    assert!(!HttpMethod::GET.sends_body("payload"));
    assert!(!HttpMethod::POST.sends_body(""));
    assert!(HttpMethod::POST.sends_body("payload"));
    assert!(HttpMethod::PUT.sends_body("x"));
    assert!(HttpMethod::DELETE.sends_body("x"));
}

#[test]
fn usable_headers_drops_incomplete_pairs() {
    let headers = vec![
        (String::from("Accept"), String::from("*/*")),
        (String::from(""), String::from("orphan value")),
        (String::from("orphan key"), String::from("")),
        (String::from(""), String::from("")),
        (String::from("User-Agent"), String::from("probe")),
    ];
    let sent = usable_headers(&headers);
    assert_eq!(sent.len(), 2);
    assert_eq!(sent[0].0, "Accept");
    assert_eq!(sent[0].1, "*/*");
    assert_eq!(sent[1].0, "User-Agent");
}

#[test]
fn usable_headers_of_nothing_is_nothing() {
    let sent = usable_headers(&Vec::new());
    assert!(sent.is_empty());
}

#[test]
fn tcp_tester_endpoint_text() {
    let mut t = TcpTester::default();
    assert_eq!(t.endpoint_text(), ":");
    t.input_address = String::from("127.0.0.1");
    t.input_port = String::from("8080");
    assert_eq!(t.endpoint_text(), "127.0.0.1:8080");
    assert_eq!(t.status, "");
}

#[test]
fn interface_enumeration_is_safe_to_repeat() {
    let first = list_interfaces();
    let second = list_interfaces();
    // enumeration is idempotent and side-effect-free; on a quiet host the
    // snapshots agree
    assert_eq!(first.len(), second.len());
    for i in &first {
        assert!(!i.name.is_empty());
    }
}
