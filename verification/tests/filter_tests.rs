use tcpip_tester::filter::str_contains;
use tcpip_tester::record::{PacketInfo, Protocol};

fn sample_record() -> PacketInfo {
    PacketInfo {
        timestamp: 100,
        source: String::from("192.168.0.1"),
        destination: String::from("10.0.0.2"),
        protocol: Protocol::Tcp,
        length: 60,
        details: String::from("src port: 80, dst port: 443, flags: 24"),
    }
}

#[test]
fn empty_filter_matches_everything() {
    let r = sample_record();
    assert!(tcpip_tester::filter::matches(&r, ""));
    let short = PacketInfo {
        timestamp: 0,
        source: String::new(),
        destination: String::new(),
        protocol: Protocol::Unrecognized,
        length: 0,
        details: String::new(),
    };
    assert!(tcpip_tester::filter::matches(&short, ""));
}

#[test]
fn filter_matches_source_substring() {
    let r = sample_record();
    assert!(tcpip_tester::filter::matches(&r, "192.168"));
    assert!(tcpip_tester::filter::matches(&r, "8.0.1"));
}

#[test]
fn filter_matches_destination_substring() {
    let r = sample_record();
    assert!(tcpip_tester::filter::matches(&r, "10.0.0.2"));
}

#[test]
fn filter_matches_protocol_text() {
    let r = sample_record();
    assert!(tcpip_tester::filter::matches(&r, "TCP"));
    assert!(tcpip_tester::filter::matches(&r, "CP"));
}

#[test]
fn filter_is_case_sensitive_and_literal() {
    let r = sample_record();
    assert!(!tcpip_tester::filter::matches(&r, "tcp"));
    assert!(!tcpip_tester::filter::matches(&r, "UDP"));
    assert!(!tcpip_tester::filter::matches(&r, "193.168"));
    // details are not searched, only addresses and the protocol name
    assert!(!tcpip_tester::filter::matches(&r, "flags"));
}

#[test]
fn substring_search_basics() {
    assert!(str_contains("hello world", "hello"));
    assert!(str_contains("hello world", "o w"));
    assert!(str_contains("hello world", "world"));
    assert!(str_contains("hello world", ""));
    assert!(!str_contains("hello world", "worlds"));
    assert!(!str_contains("", "a"));
    assert!(str_contains("aaa", "aa"));
    assert!(!str_contains("abab", "aba a"));
}
