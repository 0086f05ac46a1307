use tcpip_tester::decode::decode;
use tcpip_tester::record::Protocol;

fn eth_header(dst: [u8; 6], src: [u8; 6], ethertype: u16) -> Vec<u8> {
    let mut f = Vec::new();
    f.extend_from_slice(&dst);
    f.extend_from_slice(&src);
    f.push((ethertype >> 8) as u8);
    f.push((ethertype & 0xff) as u8);
    f
}

fn ipv4_header(total_len: u16, proto: u8, src: [u8; 4], dst: [u8; 4]) -> Vec<u8> {
    let mut h = vec![
        0x45, 0x00,
        (total_len >> 8) as u8, (total_len & 0xff) as u8,
        0x00, 0x01, 0x00, 0x00,
        0x40, proto, 0x00, 0x00,
    ];
    h.extend_from_slice(&src);
    h.extend_from_slice(&dst);
    h
}

fn tcp_header(sp: u16, dp: u16, flags: u8) -> Vec<u8> {
    let h = vec![
        (sp >> 8) as u8, (sp & 0xff) as u8,
        (dp >> 8) as u8, (dp & 0xff) as u8,
        0, 0, 0, 1,
        0, 0, 0, 0,
        0x50, flags,
        0x20, 0x00,
        0x00, 0x00,
        0x00, 0x00,
    ];
    assert_eq!(h.len(), 20);
    h
}

fn udp_header(sp: u16, dp: u16) -> Vec<u8> {
    vec![
        (sp >> 8) as u8, (sp & 0xff) as u8,
        (dp >> 8) as u8, (dp & 0xff) as u8,
        0x00, 0x08, 0x00, 0x00,
    ]
}

#[test]
fn decode_tcp_frame() {
    let mut frame = eth_header(
        [0xde, 0xad, 0xbe, 0xef, 0x00, 0x01],
        [0x02, 0x42, 0xac, 0x11, 0x00, 0x02],
        0x0800,
    );
    frame.extend_from_slice(&ipv4_header(40, 6, [192, 168, 0, 1], [10, 0, 0, 2]));
    frame.extend_from_slice(&tcp_header(80, 443, 0x18));
    let r = decode(&frame, 1234);
    assert_eq!(r.protocol, Protocol::Tcp);
    assert_eq!(r.source, "192.168.0.1");
    assert_eq!(r.destination, "10.0.0.2");
    assert_eq!(r.details, "src port: 80, dst port: 443, flags: 24");
    assert_eq!(r.length, 54);
    assert_eq!(r.timestamp, 1234);
}

#[test]
fn decode_udp_frame() {
    let mut frame = eth_header(
        [0xde, 0xad, 0xbe, 0xef, 0x00, 0x01],
        [0x02, 0x42, 0xac, 0x11, 0x00, 0x02],
        0x0800,
    );
    frame.extend_from_slice(&ipv4_header(28, 17, [172, 16, 254, 9], [8, 8, 8, 8]));
    frame.extend_from_slice(&udp_header(53, 5353));
    let r = decode(&frame, 7);
    assert_eq!(r.protocol, Protocol::Udp);
    assert_eq!(r.source, "172.16.254.9");
    assert_eq!(r.destination, "8.8.8.8");
    assert_eq!(r.details, "src port: 53, dst port: 5353");
    assert_eq!(r.length, 42);
}

#[test]
fn decode_unknown_ethertype() {
    let frame = eth_header(
        [0xde, 0xf0, 0x12, 0x34, 0x45, 0x67],
        [0x12, 0x34, 0x56, 0x78, 0x9a, 0xbc],
        0x86dd,
    );
    let r = decode(&frame, 0);
    assert_eq!(r.protocol, Protocol::Ethernet);
    assert_eq!(r.source, "12:34:56:78:9a:bc");
    assert_eq!(r.destination, "de:f0:12:34:45:67");
    assert_eq!(r.details, "");
    assert_eq!(r.length, 14);
}

#[test]
fn decode_short_input() {
    let r = decode(&[], 5);
    assert_eq!(r.protocol, Protocol::Unrecognized);
    assert_eq!(r.source, "");
    assert_eq!(r.destination, "");
    assert_eq!(r.details, "");
    assert_eq!(r.length, 0);
    assert_eq!(r.timestamp, 5);

    let r = decode(&[0xff; 13], 6);
    assert_eq!(r.protocol, Protocol::Unrecognized);
    assert_eq!(r.length, 13);
}

#[test]
fn decode_ipv4_other_protocol() {
    let mut frame = eth_header(
        [0xde, 0xad, 0xbe, 0xef, 0x00, 0x01],
        [0x02, 0x42, 0xac, 0x11, 0x00, 0x02],
        0x0800,
    );
    frame.extend_from_slice(&ipv4_header(24, 1, [1, 2, 3, 4], [255, 254, 253, 252]));
    frame.extend_from_slice(&[0x08, 0x00, 0x00, 0x00]);
    let r = decode(&frame, 9);
    assert_eq!(r.protocol, Protocol::Ipv4);
    assert_eq!(r.source, "1.2.3.4");
    assert_eq!(r.destination, "255.254.253.252");
    assert_eq!(r.details, "");
}

#[test]
fn decode_truncated_ipv4_falls_back_to_ethernet() {
    let mut frame = eth_header(
        [0xde, 0xad, 0xbe, 0xef, 0x00, 0x01],
        [0x02, 0x42, 0xac, 0x11, 0x00, 0x02],
        0x0800,
    );
    frame.extend_from_slice(&[0x45, 0x00, 0x00]);
    let r = decode(&frame, 0);
    assert_eq!(r.protocol, Protocol::Ethernet);
    assert_eq!(r.source, "02:42:ac:11:00:02");
    assert_eq!(r.destination, "de:ad:be:ef:00:01");
}

#[test]
fn decode_truncated_tcp_falls_back_to_ipv4() {
    let mut frame = eth_header(
        [0xde, 0xad, 0xbe, 0xef, 0x00, 0x01],
        [0x02, 0x42, 0xac, 0x11, 0x00, 0x02],
        0x0800,
    );
    frame.extend_from_slice(&ipv4_header(30, 6, [192, 168, 1, 1], [192, 168, 1, 2]));
    frame.extend_from_slice(&[0x00, 0x50, 0x01, 0xbb, 0x00, 0x00, 0x00, 0x00, 0x00, 0x00]);
    let r = decode(&frame, 0);
    assert_eq!(r.protocol, Protocol::Ipv4);
    assert_eq!(r.source, "192.168.1.1");
    assert_eq!(r.destination, "192.168.1.2");
    assert_eq!(r.details, "");
}

#[test]
fn decode_ipv4_with_options() {
    let mut frame = eth_header(
        [0xde, 0xad, 0xbe, 0xef, 0x00, 0x01],
        [0x02, 0x42, 0xac, 0x11, 0x00, 0x02],
        0x0800,
    );
    // header length 6 words: 24 header bytes, 4 of them options
    let mut ip = ipv4_header(44, 6, [10, 1, 1, 1], [10, 1, 1, 2]);
    ip[0] = 0x46;
    ip.extend_from_slice(&[0x01, 0x01, 0x01, 0x01]);
    frame.extend_from_slice(&ip);
    frame.extend_from_slice(&tcp_header(22, 50000, 0x02));
    let r = decode(&frame, 0);
    assert_eq!(r.protocol, Protocol::Tcp);
    assert_eq!(r.source, "10.1.1.1");
    assert_eq!(r.destination, "10.1.1.2");
    assert_eq!(r.details, "src port: 22, dst port: 50000, flags: 2");
}

#[test]
fn decode_is_length_preserving() {
    for len in 0..80usize {
        let frame = vec![0u8; len];
        let r = decode(&frame, 0);
        assert_eq!(r.length, len);
    }
}
