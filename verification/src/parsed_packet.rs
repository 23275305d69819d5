use vstd::prelude::*;

verus! {

/// Mathematical image of one decoded record: every field reduced to a
/// sequence of characters, a mathematical integer, or an option thereof.
pub ghost struct PacketView {
    pub timestamp: Seq<char>,
    pub source_ip: Seq<char>,
    pub destination_ip: Seq<char>,
    pub source_port: Option<int>,
    pub destination_port: Option<int>,
    pub protocol: Seq<char>,
    pub size: int,
}

/// One frame decoded into a flow-tagged record: capture time, the two
/// endpoint addresses, the optional ports, the transport label and the
/// frame's size on the wire.  Ports are absent for port-less transports
/// (the ICMP family).
#[derive(Debug)]
pub struct ParsedPacket {
    pub timestamp: String,
    pub source_ip: String,
    pub destination_ip: String,
    pub source_port: Option<usize>,
    pub destination_port: Option<usize>,
    pub protocol: String,
    pub size: usize,
}

pub open spec fn port_view(p: Option<usize>) -> Option<int> {
    match p {
        Some(x) => Some(x as int),
        None => None,
    }
}

impl View for ParsedPacket {
    type V = PacketView;

    open spec fn view(&self) -> PacketView {
        PacketView {
            timestamp: self.timestamp@,
            source_ip: self.source_ip@,
            destination_ip: self.destination_ip@,
            source_port: port_view(self.source_port),
            destination_port: port_view(self.destination_port),
            protocol: self.protocol@,
            size: self.size as int,
        }
    }
}

impl ParsedPacket {
    /// Packs the given fields into a record, changing nothing.
    pub fn new(
        timestamp: String,
        source_ip: String,
        destination_ip: String,
        source_port: Option<usize>,
        destination_port: Option<usize>,
        protocol: String,
        size: usize,
    ) -> (r: ParsedPacket)
        ensures
            r@ == (PacketView {
                timestamp: timestamp@,
                source_ip: source_ip@,
                destination_ip: destination_ip@,
                source_port: port_view(source_port),
                destination_port: port_view(destination_port),
                protocol: protocol@,
                size: size as int,
            }),
    {
        ParsedPacket { timestamp, source_ip, destination_ip, source_port, destination_port, protocol, size }
    }
}

} // verus!
