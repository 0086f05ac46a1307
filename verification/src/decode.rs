use vstd::prelude::*;
use crate::record::{PacketInfo, PacketView, Protocol};

verus! {

// ---------------------------------------------------------------------------
// The frame grammar, layer by layer.
//
// A frame is decoded best-effort: link layer (Ethernet), then network layer
// (IPv4) when the ether-type announces it, then transport (TCP or UDP) when
// the next-header field announces it. A layer that does not parse stops the
// descent; it never fails the decoder.
// ---------------------------------------------------------------------------

/// Big-endian 16-bit field at byte offset `i`.
pub open spec fn be16(b: Seq<u8>, i: int) -> int {
    b[i] * 256 + b[i + 1]
}

/// The link layer parses iff the frame holds a full Ethernet header.
pub open spec fn eth_parses(raw: Seq<u8>) -> bool {
    raw.len() >= 14
}

/// Ether-type field of the Ethernet header.
pub open spec fn eth_type(raw: Seq<u8>) -> int {
    be16(raw, 12)
}

/// Sender MAC address bytes.
pub open spec fn eth_source(raw: Seq<u8>) -> Seq<u8> {
    raw.subrange(6, 12)
}

/// Receiver MAC address bytes.
pub open spec fn eth_dest(raw: Seq<u8>) -> Seq<u8> {
    raw.subrange(0, 6)
}

/// Everything after the Ethernet header.
pub open spec fn eth_payload(raw: Seq<u8>) -> Seq<u8> {
    raw.subrange(14, raw.len() as int)
}

/// The network layer parses iff the buffer holds a minimal IPv4 header.
pub open spec fn ipv4_parses(ip: Seq<u8>) -> bool {
    ip.len() >= 20
}

/// Header length in bytes: the low nibble of the first byte, in 32-bit words.
pub open spec fn ip_header_len(ip: Seq<u8>) -> int {
    4 * (ip[0] & 0x0f)
}

/// Declared total datagram length.
pub open spec fn ip_total_len(ip: Seq<u8>) -> int {
    be16(ip, 2)
}

/// Next-header protocol field.
pub open spec fn ip_proto(ip: Seq<u8>) -> int {
    ip[9] as int
}

/// Source address bytes.
pub open spec fn ip_source(ip: Seq<u8>) -> Seq<u8> {
    ip.subrange(12, 16)
}

/// Destination address bytes.
pub open spec fn ip_dest(ip: Seq<u8>) -> Seq<u8> {
    ip.subrange(16, 20)
}

/// The transport bytes carried by an IPv4 datagram: they start after the
/// header (fixed part plus options) and run for the declared payload length,
/// clipped to the buffer; a start beyond the buffer leaves them empty.
pub open spec fn ip_payload(ip: Seq<u8>) -> Seq<u8> {
    let hl = ip_header_len(ip);
    let start = if hl > 20 { hl } else { 20 };
    let plen = if ip_total_len(ip) > hl { ip_total_len(ip) - hl } else { 0 };
    let end = if start + plen < ip.len() { start + plen } else { ip.len() as int };
    if ip.len() <= start {
        Seq::<u8>::empty()
    } else {
        ip.subrange(start, end)
    }
}

/// The transport layer parses as TCP iff a full fixed TCP header is present.
pub open spec fn tcp_parses(t: Seq<u8>) -> bool {
    t.len() >= 20
}

/// The transport layer parses as UDP iff a full UDP header is present.
pub open spec fn udp_parses(t: Seq<u8>) -> bool {
    t.len() >= 8
}

/// TCP control-flag byte.
pub open spec fn tcp_flags(t: Seq<u8>) -> int {
    t[13] as int
}

// ---------------------------------------------------------------------------
// Textual forms: addresses, ports and summaries as character sequences.
// ---------------------------------------------------------------------------

/// The sixteen digit characters, lowercase.
pub open spec fn digit_char(d: int) -> char {
    if d == 0 { '0' } else if d == 1 { '1' } else if d == 2 { '2' } else if d == 3 { '3' }
    else if d == 4 { '4' } else if d == 5 { '5' } else if d == 6 { '6' } else if d == 7 { '7' }
    else if d == 8 { '8' } else if d == 9 { '9' } else if d == 10 { 'a' } else if d == 11 { 'b' }
    else if d == 12 { 'c' } else if d == 13 { 'd' } else if d == 14 { 'e' } else { 'f' }
}

/// Decimal text of a non-negative number, most significant digit first,
/// without leading zeros.
pub open spec fn dec_text(n: int) -> Seq<char>
    recommends n >= 0,
    decreases n,
{
    if n < 10 {
        seq![digit_char(n)]
    } else {
        dec_text(n / 10).push(digit_char(n % 10))
    }
}

/// Two lowercase hex digits of one byte.
pub open spec fn hex2(b: int) -> Seq<char> {
    seq![digit_char(b / 16), digit_char(b % 16)]
}

/// A MAC address as six colon-separated hex byte pairs.
pub open spec fn mac_text(b: Seq<u8>) -> Seq<char>
    recommends b.len() == 6,
{
    hex2(b[0] as int) + ":"@ + hex2(b[1] as int) + ":"@ + hex2(b[2] as int) + ":"@
        + hex2(b[3] as int) + ":"@ + hex2(b[4] as int) + ":"@ + hex2(b[5] as int)
}

/// An IPv4 address in dotted decimal.
pub open spec fn ipv4_text(b: Seq<u8>) -> Seq<char>
    recommends b.len() == 4,
{
    dec_text(b[0] as int) + "."@ + dec_text(b[1] as int) + "."@ + dec_text(b[2] as int)
        + "."@ + dec_text(b[3] as int)
}

/// Summary line of a TCP header: both ports and the flag byte, verbatim.
pub open spec fn tcp_details(t: Seq<u8>) -> Seq<char> {
    "src port: "@ + dec_text(be16(t, 0)) + ", dst port: "@ + dec_text(be16(t, 2))
        + ", flags: "@ + dec_text(tcp_flags(t))
}

/// Summary line of a UDP header: both ports, verbatim.
pub open spec fn udp_details(t: Seq<u8>) -> Seq<char> {
    "src port: "@ + dec_text(be16(t, 0)) + ", dst port: "@ + dec_text(be16(t, 2))
}

// ---------------------------------------------------------------------------
// What the decoder returns, for every input.
// ---------------------------------------------------------------------------

/// The record decoded from a raw frame: the deepest layer that parses wins,
/// and each layer that parses overwrites the addressing with its own.
pub open spec fn decode_spec(raw: Seq<u8>, ts: u64) -> PacketView {
    if !eth_parses(raw) {
        PacketView {
            timestamp: ts,
            source: Seq::<char>::empty(),
            destination: Seq::<char>::empty(),
            protocol: Protocol::Unrecognized,
            length: raw.len() as int,
            details: Seq::<char>::empty(),
        }
    } else {
        let ip = eth_payload(raw);
        if eth_type(raw) == 0x0800 && ipv4_parses(ip) {
            let t = ip_payload(ip);
            if ip_proto(ip) == 6 && tcp_parses(t) {
                PacketView {
                    timestamp: ts,
                    source: ipv4_text(ip_source(ip)),
                    destination: ipv4_text(ip_dest(ip)),
                    protocol: Protocol::Tcp,
                    length: raw.len() as int,
                    details: tcp_details(t),
                }
            } else if ip_proto(ip) == 17 && udp_parses(t) {
                PacketView {
                    timestamp: ts,
                    source: ipv4_text(ip_source(ip)),
                    destination: ipv4_text(ip_dest(ip)),
                    protocol: Protocol::Udp,
                    length: raw.len() as int,
                    details: udp_details(t),
                }
            } else {
                PacketView {
                    timestamp: ts,
                    source: ipv4_text(ip_source(ip)),
                    destination: ipv4_text(ip_dest(ip)),
                    protocol: Protocol::Ipv4,
                    length: raw.len() as int,
                    details: Seq::<char>::empty(),
                }
            }
        } else {
            PacketView {
                timestamp: ts,
                source: mac_text(eth_source(raw)),
                destination: mac_text(eth_dest(raw)),
                protocol: Protocol::Ethernet,
                length: raw.len() as int,
                details: Seq::<char>::empty(),
            }
        }
    }
}

// ---------------------------------------------------------------------------
// Laws of the decoder.
// ---------------------------------------------------------------------------

/// A frame whose layers parse as Ethernet, IPv4 and TCP decodes to a TCP
/// record whose addresses are the network-layer addresses and whose details
/// line carries exactly the source port, destination port and flag byte of
/// the TCP header.
pub proof fn lemma_decode_tcp(raw: Seq<u8>, ts: u64)
    requires
        eth_parses(raw),
        eth_type(raw) == 0x0800,
        ipv4_parses(eth_payload(raw)),
        ip_proto(eth_payload(raw)) == 6,
        tcp_parses(ip_payload(eth_payload(raw))),
    ensures
        decode_spec(raw, ts).protocol == Protocol::Tcp,
        decode_spec(raw, ts).source == ipv4_text(ip_source(eth_payload(raw))),
        decode_spec(raw, ts).destination == ipv4_text(ip_dest(eth_payload(raw))),
        decode_spec(raw, ts).details == tcp_details(ip_payload(eth_payload(raw))),
        decode_spec(raw, ts).length == raw.len(),
        decode_spec(raw, ts).timestamp == ts,
{
}

/// A frame whose layers parse as Ethernet, IPv4 and UDP decodes to a UDP
/// record whose details line carries exactly both ports of the UDP header.
pub proof fn lemma_decode_udp(raw: Seq<u8>, ts: u64)
    requires
        eth_parses(raw),
        eth_type(raw) == 0x0800,
        ipv4_parses(eth_payload(raw)),
        ip_proto(eth_payload(raw)) == 17,
        udp_parses(ip_payload(eth_payload(raw))),
    ensures
        decode_spec(raw, ts).protocol == Protocol::Udp,
        decode_spec(raw, ts).source == ipv4_text(ip_source(eth_payload(raw))),
        decode_spec(raw, ts).destination == ipv4_text(ip_dest(eth_payload(raw))),
        decode_spec(raw, ts).details == udp_details(ip_payload(eth_payload(raw))),
        decode_spec(raw, ts).length == raw.len(),
        decode_spec(raw, ts).timestamp == ts,
{
}

/// An Ethernet frame whose ether-type is not IPv4 decodes to an Ethernet
/// record: the frame's own MAC addresses, and no details.
pub proof fn lemma_decode_ethernet(raw: Seq<u8>, ts: u64)
    requires
        eth_parses(raw),
        eth_type(raw) != 0x0800,
    ensures
        decode_spec(raw, ts).protocol == Protocol::Ethernet,
        decode_spec(raw, ts).source == mac_text(eth_source(raw)),
        decode_spec(raw, ts).destination == mac_text(eth_dest(raw)),
        decode_spec(raw, ts).details == Seq::<char>::empty(),
        decode_spec(raw, ts).length == raw.len(),
        decode_spec(raw, ts).timestamp == ts,
{
}

/// An input shorter than the minimum Ethernet header decodes to a
/// well-formed record tagged Unrecognized, with empty addressing and the
/// input's length; the decoder itself is total and never faults.
pub proof fn lemma_decode_short(raw: Seq<u8>, ts: u64)
    requires
        raw.len() < 14,
    ensures
        decode_spec(raw, ts).protocol == Protocol::Unrecognized,
        decode_spec(raw, ts).source == Seq::<char>::empty(),
        decode_spec(raw, ts).destination == Seq::<char>::empty(),
        decode_spec(raw, ts).details == Seq::<char>::empty(),
        decode_spec(raw, ts).length == raw.len(),
        decode_spec(raw, ts).timestamp == ts,
{
}

/// The addressing of a decoded record is never mixed between layers: a
/// transport or network tag always comes with the network-layer addresses,
/// and a link tag with the link-layer addresses.
pub proof fn lemma_addressing_consistent(raw: Seq<u8>, ts: u64)
    ensures
        decode_spec(raw, ts).protocol == Protocol::Tcp
            || decode_spec(raw, ts).protocol == Protocol::Udp
            || decode_spec(raw, ts).protocol == Protocol::Ipv4
            ==> decode_spec(raw, ts).source == ipv4_text(ip_source(eth_payload(raw)))
                && decode_spec(raw, ts).destination == ipv4_text(ip_dest(eth_payload(raw))),
        decode_spec(raw, ts).protocol == Protocol::Ethernet
            ==> decode_spec(raw, ts).source == mac_text(eth_source(raw))
                && decode_spec(raw, ts).destination == mac_text(eth_dest(raw)),
{
}

// ---------------------------------------------------------------------------
// Executable text building.
// ---------------------------------------------------------------------------

/// One digit as a string slice.
fn digit_str(d: u8) -> (r: &'static str)
    requires
        d < 16,
    ensures
        r@ == seq![digit_char(d as int)],
{
    proof {
        reveal_strlit("0"); reveal_strlit("1"); reveal_strlit("2"); reveal_strlit("3");
        reveal_strlit("4"); reveal_strlit("5"); reveal_strlit("6"); reveal_strlit("7");
        reveal_strlit("8"); reveal_strlit("9"); reveal_strlit("a"); reveal_strlit("b");
        reveal_strlit("c"); reveal_strlit("d"); reveal_strlit("e"); reveal_strlit("f");
    }
    let r = match d {
        0 => "0", 1 => "1", 2 => "2", 3 => "3", 4 => "4", 5 => "5", 6 => "6", 7 => "7",
        8 => "8", 9 => "9", 10 => "a", 11 => "b", 12 => "c", 13 => "d", 14 => "e", _ => "f",
    };
    proof {
        assert(r@ =~= seq![digit_char(d as int)]);
    }
    r
}

/// Appends the decimal text of `n`.
fn push_dec(s: &mut String, n: u16)
    ensures
        final(s)@ == old(s)@ + dec_text(n as int),
    decreases n,
{
    if n >= 10 {
        push_dec(s, n / 10);
        s.append(digit_str((n % 10) as u8));
        proof {
            assert(final(s)@ =~= old(s)@ + dec_text(n as int));
        }
    } else {
        s.append(digit_str(n as u8));
        proof {
            assert(final(s)@ =~= old(s)@ + dec_text(n as int));
        }
    }
}

/// Appends one byte as two hex digits.
fn push_hex2(s: &mut String, b: u8)
    ensures
        final(s)@ == old(s)@ + hex2(b as int),
{
    s.append(digit_str(b / 16));
    s.append(digit_str(b % 16));
    proof {
        assert(final(s)@ =~= old(s)@ + hex2(b as int));
    }
}

/// Big-endian 16-bit read.
fn read_be16(raw: &[u8], i: usize) -> (r: u16)
    requires
        i + 2 <= raw@.len(),
    ensures
        r as int == be16(raw@, i as int),
{
    (raw[i] as u16) * 256 + (raw[i + 1] as u16)
}

/// MAC address text of the six bytes at `off`.
fn mac_string(raw: &[u8], off: usize) -> (r: String)
    requires
        off + 6 <= raw@.len(),
    ensures
        r@ == mac_text(raw@.subrange(off as int, off + 6)),
{
    let mut s = String::new();
    push_hex2(&mut s, raw[off]);
    s.append(":");
    push_hex2(&mut s, raw[off + 1]);
    s.append(":");
    push_hex2(&mut s, raw[off + 2]);
    s.append(":");
    push_hex2(&mut s, raw[off + 3]);
    s.append(":");
    push_hex2(&mut s, raw[off + 4]);
    s.append(":");
    push_hex2(&mut s, raw[off + 5]);
    proof {
        let b = raw@.subrange(off as int, off + 6);
        assert(b[0] == raw@[off as int]);
        assert(b[1] == raw@[off + 1]);
        assert(b[2] == raw@[off + 2]);
        assert(b[3] == raw@[off + 3]);
        assert(b[4] == raw@[off + 4]);
        assert(b[5] == raw@[off + 5]);
        assert(s@ =~= mac_text(b));
    }
    s
}

/// Dotted-decimal text of the four bytes at `off`.
fn ipv4_string(raw: &[u8], off: usize) -> (r: String)
    requires
        off + 4 <= raw@.len(),
    ensures
        r@ == ipv4_text(raw@.subrange(off as int, off + 4)),
{
    let mut s = String::new();
    push_dec(&mut s, raw[off] as u16);
    s.append(".");
    push_dec(&mut s, raw[off + 1] as u16);
    s.append(".");
    push_dec(&mut s, raw[off + 2] as u16);
    s.append(".");
    push_dec(&mut s, raw[off + 3] as u16);
    proof {
        let b = raw@.subrange(off as int, off + 4);
        assert(b[0] == raw@[off as int]);
        assert(b[1] == raw@[off + 1]);
        assert(b[2] == raw@[off + 2]);
        assert(b[3] == raw@[off + 3]);
        assert(s@ =~= ipv4_text(b));
    }
    s
}

// ---------------------------------------------------------------------------
// The decoder.
// ---------------------------------------------------------------------------

/// Decodes one raw frame into a record. Total: every byte sequence, however
/// short or malformed, yields a well-formed record; a layer that does not
/// parse merely stops the descent.
pub fn decode(raw: &[u8], timestamp: u64) -> (r: PacketInfo)
    ensures
        r@ == decode_spec(raw@, timestamp),
{
    let n = raw.len();
    if n < 14 {
        return PacketInfo {
            timestamp,
            source: String::new(),
            destination: String::new(),
            protocol: Protocol::Unrecognized,
            length: n,
            details: String::new(),
        };
    }
    let ethertype = read_be16(raw, 12);
    let ip_len = n - 14;
    if ethertype == 0x0800 && ip_len >= 20 {
        let ghost ip = eth_payload(raw@);
        proof {
            assert(ip.len() == ip_len);
            assert(ip[0] == raw@[14]);
            assert(ip[2] == raw@[16]);
            assert(ip[3] == raw@[17]);
            assert(ip[9] == raw@[23]);
        }
        let hl: usize = ((raw[14] & 0x0f) as usize) * 4;
        let total = read_be16(raw, 16) as usize;
        let proto = raw[23];
        let start: usize = if hl > 20 { hl } else { 20 };
        let plen: usize = if total > hl { total - hl } else { 0 };
        let end: usize = if start + plen < ip_len { start + plen } else { ip_len };
        let empty_payload = ip_len <= start;
        let t_off: usize = if empty_payload { 0 } else { 14 + start };
        let t_len: usize = if empty_payload { 0 } else { end - start };
        let ghost t = ip_payload(ip);
        proof {
            assert(ip_header_len(ip) == hl);
            assert(ip_total_len(ip) == total);
            assert(ip_proto(ip) == proto as int);
            if empty_payload {
                assert(t.len() == 0);
            } else {
                assert(t =~= raw@.subrange(t_off as int, t_off + t_len));
                assert(t.len() == t_len);
            }
        }
        let source = ipv4_string(raw, 14 + 12);
        let destination = ipv4_string(raw, 14 + 16);
        proof {
            assert(raw@.subrange(26int, 30int) =~= ip_source(ip));
            assert(raw@.subrange(30int, 34int) =~= ip_dest(ip));
        }
        if proto == 6 && t_len >= 20 {
            let sp = read_be16(raw, t_off);
            let dp = read_be16(raw, t_off + 2);
            let fl = raw[t_off + 13];
            proof {
                assert(t[0] == raw@[t_off as int]);
                assert(t[1] == raw@[t_off + 1]);
                assert(t[2] == raw@[t_off + 2]);
                assert(t[3] == raw@[t_off + 3]);
                assert(t[13] == raw@[t_off + 13]);
                assert(be16(t, 0) == sp as int);
                assert(be16(t, 2) == dp as int);
                assert(tcp_flags(t) == fl as int);
            }
            let mut details = String::from_str("src port: ");
            push_dec(&mut details, sp);
            details.append(", dst port: ");
            push_dec(&mut details, dp);
            details.append(", flags: ");
            push_dec(&mut details, fl as u16);
            proof {
                assert(details@ =~= tcp_details(t));
            }
            let r = PacketInfo {
                timestamp, source, destination, protocol: Protocol::Tcp, length: n, details,
            };
            return r;
        }
        if proto == 17 && t_len >= 8 {
            let sp = read_be16(raw, t_off);
            let dp = read_be16(raw, t_off + 2);
            proof {
                assert(t[0] == raw@[t_off as int]);
                assert(t[1] == raw@[t_off + 1]);
                assert(t[2] == raw@[t_off + 2]);
                assert(t[3] == raw@[t_off + 3]);
                assert(be16(t, 0) == sp as int);
                assert(be16(t, 2) == dp as int);
            }
            let mut details = String::from_str("src port: ");
            push_dec(&mut details, sp);
            details.append(", dst port: ");
            push_dec(&mut details, dp);
            proof {
                assert(details@ =~= udp_details(t));
            }
            let r = PacketInfo {
                timestamp, source, destination, protocol: Protocol::Udp, length: n, details,
            };
            return r;
        }
        return PacketInfo {
            timestamp, source, destination, protocol: Protocol::Ipv4, length: n,
            details: String::new(),
        };
    }
    let source = mac_string(raw, 6);
    let destination = mac_string(raw, 0);
    proof {
        assert(raw@.subrange(6, 12) =~= eth_source(raw@));
        assert(raw@.subrange(0, 6) =~= eth_dest(raw@));
    }
    PacketInfo {
        timestamp, source, destination, protocol: Protocol::Ethernet, length: n,
        details: String::new(),
    }
}

} // verus!
