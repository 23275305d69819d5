use vstd::prelude::*;
use crate::parsed_packet::{PacketView, port_view};

verus! {

/// Mathematical image of a connection key.
pub ghost struct ConnectionView {
    pub source_ip: Seq<char>,
    pub destination_ip: Seq<char>,
    pub source_port: Option<int>,
    pub destination_port: Option<int>,
    pub protocol: Seq<char>,
}

/// The connection key a record is folded under.
pub open spec fn key_of(p: PacketView) -> ConnectionView {
    ConnectionView {
        source_ip: p.source_ip,
        destination_ip: p.destination_ip,
        source_port: p.source_port,
        destination_port: p.destination_port,
        protocol: p.protocol,
    }
}

/// A directional connection between two hosts: the key of the flow table.
/// Source and destination are kept apart, so traffic A to B and traffic
/// B to A form two distinct keys.  Ports are absent for port-less
/// transports; the protocol label tells those apart.
#[derive(Debug, Hash)]
pub struct Connection {
    pub source_ip: String,
    pub destination_ip: String,
    pub source_port: Option<usize>,
    pub destination_port: Option<usize>,
    pub protocol: String,
}

impl View for Connection {
    type V = ConnectionView;

    open spec fn view(&self) -> ConnectionView {
        ConnectionView {
            source_ip: self.source_ip@,
            destination_ip: self.destination_ip@,
            source_port: port_view(self.source_port),
            destination_port: port_view(self.destination_port),
            protocol: self.protocol@,
        }
    }
}

impl Connection {
    /// Packs the given fields into a key, changing nothing.
    pub fn new(
        source_ip: String,
        destination_ip: String,
        source_port: Option<usize>,
        destination_port: Option<usize>,
        protocol: String,
    ) -> (r: Connection)
        ensures
            r@ == (ConnectionView {
                source_ip: source_ip@,
                destination_ip: destination_ip@,
                source_port: port_view(source_port),
                destination_port: port_view(destination_port),
                protocol: protocol@,
            }),
    {
        Connection { source_ip, destination_ip, source_port, destination_port, protocol }
    }
}

impl Clone for Connection {
    fn clone(&self) -> (r: Connection)
        ensures
            r@ == self@,
    {
        Connection {
            source_ip: self.source_ip.clone(),
            destination_ip: self.destination_ip.clone(),
            source_port: self.source_port,
            destination_port: self.destination_port,
            protocol: self.protocol.clone(),
        }
    }
}

impl PartialEq for Connection {
    fn eq(&self, other: &Connection) -> (r: bool) {
        self.source_ip == other.source_ip && self.destination_ip == other.destination_ip
            && self.source_port == other.source_port
            && self.destination_port == other.destination_port && self.protocol == other.protocol
    }
}

impl vstd::std_specs::cmp::PartialEqSpecImpl for Connection {
    open spec fn obeys_eq_spec() -> bool {
        true
    }

    open spec fn eq_spec(&self, other: &Connection) -> bool {
        self@ == other@
    }
}

/// Mathematical image of the statistics kept for one key.
pub ghost struct MetadataView {
    pub size: int,
    pub first_timestamp: Seq<char>,
    pub last_timestamp: Seq<char>,
}

/// The statistics kept for one connection: the bytes folded in so far and
/// the capture timestamps of the first and of the most recently folded
/// record.
#[derive(Debug)]
pub struct ConnectionMetadata {
    pub size: usize,
    pub first_timestamp: String,
    pub last_timestamp: String,
}

impl View for ConnectionMetadata {
    type V = MetadataView;

    open spec fn view(&self) -> MetadataView {
        MetadataView {
            size: self.size as int,
            first_timestamp: self.first_timestamp@,
            last_timestamp: self.last_timestamp@,
        }
    }
}

impl ConnectionMetadata {
    /// Packs the given fields into a statistics record, changing nothing.
    pub fn new(size: usize, first_timestamp: String, last_timestamp: String) -> (r:
        ConnectionMetadata)
        ensures
            r@ == (MetadataView {
                size: size as int,
                first_timestamp: first_timestamp@,
                last_timestamp: last_timestamp@,
            }),
    {
        ConnectionMetadata { size, first_timestamp, last_timestamp }
    }
}

impl Clone for ConnectionMetadata {
    fn clone(&self) -> (r: ConnectionMetadata)
        ensures
            r@ == self@,
    {
        ConnectionMetadata {
            size: self.size,
            first_timestamp: self.first_timestamp.clone(),
            last_timestamp: self.last_timestamp.clone(),
        }
    }
}

} // verus!
