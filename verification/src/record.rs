use vstd::prelude::*;

verus! {

/// Tag of the deepest protocol layer that decoded successfully.
#[derive(Clone, Copy, Debug, PartialEq, Eq, Structural)]
pub enum Protocol {
    Ethernet,
    Ipv4,
    Tcp,
    Udp,
    Unrecognized,
}

/// The textual form of a protocol tag, as shown to the user and as searched
/// by the display filter.
pub open spec fn protocol_text(p: Protocol) -> Seq<char> {
    match p {
        Protocol::Ethernet => "Ethernet"@,
        Protocol::Ipv4 => "IPv4"@,
        Protocol::Tcp => "TCP"@,
        Protocol::Udp => "UDP"@,
        Protocol::Unrecognized => "Unrecognized"@,
    }
}

impl Protocol {
    /// Display name of the tag.
    pub fn label(&self) -> (r: &'static str)
        ensures
            r@ == protocol_text(*self),
    {
        match self {
            Protocol::Ethernet => "Ethernet",
            Protocol::Ipv4 => "IPv4",
            Protocol::Tcp => "TCP",
            Protocol::Udp => "UDP",
            Protocol::Unrecognized => "Unrecognized",
        }
    }
}

/// One observed frame: an immutable snapshot produced by the decoder.
#[derive(Clone, Debug)]
pub struct PacketInfo {
    /// Capture instant, in whole seconds since the Unix epoch.
    pub timestamp: u64,
    /// Address of the sender at the deepest decoded layer.
    pub source: String,
    /// Address of the receiver at the deepest decoded layer.
    pub destination: String,
    /// Deepest layer that decoded successfully.
    pub protocol: Protocol,
    /// Total byte length of the raw frame.
    pub length: usize,
    /// Protocol-specific summary; empty when nothing beyond addressing was decoded.
    pub details: String,
}

/// Mathematical image of a `PacketInfo`: the strings as character sequences.
pub struct PacketView {
    pub timestamp: u64,
    pub source: Seq<char>,
    pub destination: Seq<char>,
    pub protocol: Protocol,
    pub length: int,
    pub details: Seq<char>,
}

impl View for PacketInfo {
    type V = PacketView;

    open spec fn view(&self) -> PacketView {
        PacketView {
            timestamp: self.timestamp,
            source: self.source@,
            destination: self.destination@,
            protocol: self.protocol,
            length: self.length as int,
            details: self.details@,
        }
    }
}

} // verus!
