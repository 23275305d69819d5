use vstd::prelude::*;
use crate::parsed_packet::{PacketView, ParsedPacket, port_view};
use crate::text::{dotted, dotted_text};
use crate::timefmt::{fmt_utc_seconds, timestamp_text, ts_renderable};

verus! {

pub const ETHERTYPE_IPV4: u16 = 0x0800;

pub const ETHERTYPE_IPV6: u16 = 0x86DD;

pub const ETHERTYPE_VLAN: u16 = 0x8100;

pub const ETHERTYPE_PROVIDER: u16 = 0x88A8;

pub const IP_PROTO_ICMPV4: u8 = 1;

pub const IP_PROTO_TCP: u8 = 6;

pub const IP_PROTO_UDP: u8 = 17;

pub const IP_PROTO_ICMPV6: u8 = 58;

/// The big-endian number of two adjacent bytes.
pub open spec fn be16(f: Seq<u8>, i: int) -> int {
    f[i] * 256 + f[i + 1]
}

fn read_be16(f: &[u8], i: usize) -> (r: u16)
    requires
        i + 2 <= f@.len(),
    ensures
        r == be16(f@, i as int),
{
    (f[i] as u16) * 256 + (f[i + 1] as u16)
}

pub open spec fn is_vlan_tag(t: int) -> bool {
    t == ETHERTYPE_VLAN || t == ETHERTYPE_PROVIDER
}

/// The Ethernet II header, with up to two VLAN tags: which protocol the
/// payload carries, and where the payload starts.
pub open spec fn link_split(f: Seq<u8>) -> Option<(int, int)> {
    if f.len() < 14 {
        None
    } else {
        let t = be16(f, 12);
        if is_vlan_tag(t) {
            if f.len() < 18 {
                None
            } else {
                let t2 = be16(f, 16);
                if is_vlan_tag(t2) {
                    if f.len() < 22 {
                        None
                    } else {
                        Some((be16(f, 20), 22))
                    }
                } else {
                    Some((t2, 18))
                }
            }
        } else {
            Some((t, 14))
        }
    }
}

fn link_split_x(f: &[u8]) -> (r: Option<(u16, usize)>)
    ensures
        match r {
            Some(t) => link_split(f@) == Some((t.0 as int, t.1 as int)) && t.1 <= f@.len(),
            None => link_split(f@) is None,
        },
{
    let n = f.len();
    if n < 14 {
        return None;
    }
    let t = read_be16(f, 12);
    if t == ETHERTYPE_VLAN || t == ETHERTYPE_PROVIDER {
        if n < 18 {
            return None;
        }
        let t2 = read_be16(f, 16);
        if t2 == ETHERTYPE_VLAN || t2 == ETHERTYPE_PROVIDER {
            if n < 22 {
                return None;
            }
            Some((read_be16(f, 20), 22))
        } else {
            Some((t2, 18))
        }
    } else {
        Some((t, 14))
    }
}

/// What the network layer yields: the two addresses as raw bytes, the
/// transport protocol number, where the transport header starts, and
/// whether the payload is a fragment (a fragment carries no complete
/// transport header).
pub ghost struct NetView {
    pub source: Seq<u8>,
    pub destination: Seq<u8>,
    pub protocol: int,
    pub transport_off: int,
    pub fragmented: bool,
}

/// The IPv4 header at offset `o`: version 4, a header of at least five
/// 32-bit words, all of it present in the frame.
pub open spec fn ipv4_parse(f: Seq<u8>, o: int) -> Option<NetView> {
    if f.len() < o + 20 {
        None
    } else if f[o] / 16 != 4 {
        None
    } else {
        let ihl = f[o] % 16;
        if ihl < 5 {
            None
        } else if f.len() < o + ihl * 4 {
            None
        } else {
            Some(
                NetView {
                    source: f.subrange(o + 12, o + 16),
                    destination: f.subrange(o + 16, o + 20),
                    protocol: f[o + 9] as int,
                    transport_off: o + ihl * 4,
                    fragmented: (f[o + 6] / 32) % 2 == 1 || f[o + 6] % 32 != 0 || f[o + 7] != 0,
                },
            )
        }
    }
}

struct NetParsed {
    source: String,
    destination: String,
    protocol: u8,
    transport_off: usize,
    fragmented: bool,
}

impl NetParsed {
    spec fn reflects(&self, v: NetView, f: Seq<u8>) -> bool {
        &&& self.source@ == dotted(v.source)
        &&& self.destination@ == dotted(v.destination)
        &&& self.protocol == v.protocol
        &&& self.transport_off == v.transport_off
        &&& self.fragmented == v.fragmented
        &&& self.transport_off <= f.len()
    }
}

fn ipv4_parse_x(f: &[u8], o: usize) -> (r: Option<NetParsed>)
    requires
        o <= f@.len(),
    ensures
        match r {
            Some(n) => ipv4_parse(f@, o as int) matches Some(v) && n.reflects(v, f@),
            None => ipv4_parse(f@, o as int) is None,
        },
{
    let n = f.len();
    if n - o < 20 {
        return None;
    }
    let ver_ihl = f[o];
    if ver_ihl / 16 != 4 {
        return None;
    }
    let ihl = ver_ihl % 16;
    if ihl < 5 {
        return None;
    }
    let hdr_len = (ihl as usize) * 4;
    if n - o < hdr_len {
        return None;
    }
    let source = dotted_text(&f[o + 12..o + 16]);
    let destination = dotted_text(&f[o + 16..o + 20]);
    let fragmented = (f[o + 6] / 32) % 2 == 1 || f[o + 6] % 32 != 0 || f[o + 7] != 0;
    Some(
        NetParsed {
            source,
            destination,
            protocol: f[o + 9],
            transport_off: o + hdr_len,
            fragmented,
        },
    )
}

pub const IPV6_EXT_HOP_BY_HOP: u8 = 0;

pub const IPV6_EXT_ROUTING: u8 = 43;

pub const IPV6_EXT_FRAGMENT: u8 = 44;

pub const IPV6_EXT_AUTH: u8 = 51;

pub const IPV6_EXT_DEST_OPTS: u8 = 60;

/// Walks the chain of IPv6 extension headers from offset `off`, whose
/// first member `next` names, and yields the transport protocol number,
/// the transport offset, and whether a fragment header made the payload
/// a fragment.
pub open spec fn ipv6_exts(f: Seq<u8>, off: int, next: int, fragged: bool) -> Option<
    (int, int, bool),
>
    decreases f.len() - off,
{
    if next == IPV6_EXT_HOP_BY_HOP || next == IPV6_EXT_ROUTING || next == IPV6_EXT_DEST_OPTS {
        if f.len() < off + 8 {
            None
        } else {
            let ext_len = 8 + f[off + 1] * 8;
            if f.len() < off + ext_len {
                None
            } else {
                ipv6_exts(f, off + ext_len, f[off] as int, fragged)
            }
        }
    } else if next == IPV6_EXT_AUTH {
        if f.len() < off + 8 {
            None
        } else if f[off + 1] < 1 {
            None
        } else {
            let ext_len = (f[off + 1] + 2) * 4;
            if f.len() < off + ext_len {
                None
            } else {
                ipv6_exts(f, off + ext_len, f[off] as int, fragged)
            }
        }
    } else if next == IPV6_EXT_FRAGMENT {
        if f.len() < off + 8 {
            None
        } else {
            let hit = f[off + 2] != 0 || f[off + 3] / 8 != 0 || f[off + 3] % 2 == 1;
            ipv6_exts(f, off + 8, f[off] as int, fragged || hit)
        }
    } else {
        Some((next, off, fragged))
    }
}

fn ipv6_exts_x(f: &[u8], off: usize, next: u8, fragged: bool) -> (r: Option<(u8, usize, bool)>)
    requires
        off <= f@.len(),
    ensures
        match r {
            Some(t) => ipv6_exts(f@, off as int, next as int, fragged) == Some(
                (t.0 as int, t.1 as int, t.2),
            ) && t.1 <= f@.len(),
            None => ipv6_exts(f@, off as int, next as int, fragged) is None,
        },
    decreases f@.len() - off,
{
    let n = f.len();
    if next == IPV6_EXT_HOP_BY_HOP || next == IPV6_EXT_ROUTING || next == IPV6_EXT_DEST_OPTS {
        if n - off < 8 {
            return None;
        }
        let ext_len = 8 + (f[off + 1] as usize) * 8;
        if n - off < ext_len {
            return None;
        }
        ipv6_exts_x(f, off + ext_len, f[off], fragged)
    } else if next == IPV6_EXT_AUTH {
        if n - off < 8 {
            return None;
        }
        if f[off + 1] < 1 {
            return None;
        }
        let ext_len = (f[off + 1] as usize + 2) * 4;
        if n - off < ext_len {
            return None;
        }
        ipv6_exts_x(f, off + ext_len, f[off], fragged)
    } else if next == IPV6_EXT_FRAGMENT {
        if n - off < 8 {
            return None;
        }
        let hit = f[off + 2] != 0 || f[off + 3] / 8 != 0 || f[off + 3] % 2 == 1;
        ipv6_exts_x(f, off + 8, f[off], fragged || hit)
    } else {
        Some((next, off, fragged))
    }
}

/// The IPv6 header at offset `o`: version 6, the fixed 40 bytes present,
/// and a readable extension chain.
pub open spec fn ipv6_parse(f: Seq<u8>, o: int) -> Option<NetView> {
    if f.len() < o + 40 {
        None
    } else if f[o] / 16 != 6 {
        None
    } else {
        match ipv6_exts(f, o + 40, f[o + 6] as int, false) {
            None => None,
            Some((proto, t_off, fragged)) => Some(
                NetView {
                    source: f.subrange(o + 8, o + 24),
                    destination: f.subrange(o + 24, o + 40),
                    protocol: proto,
                    transport_off: t_off,
                    fragmented: fragged,
                },
            ),
        }
    }
}

fn ipv6_parse_x(f: &[u8], o: usize) -> (r: Option<NetParsed>)
    requires
        o <= f@.len(),
    ensures
        match r {
            Some(n) => ipv6_parse(f@, o as int) matches Some(v) && n.reflects(v, f@),
            None => ipv6_parse(f@, o as int) is None,
        },
{
    let n = f.len();
    if n - o < 40 {
        return None;
    }
    if f[o] / 16 != 6 {
        return None;
    }
    match ipv6_exts_x(f, o + 40, f[o + 6], false) {
        None => None,
        Some((proto, t_off, fragged)) => {
            let source = dotted_text(&f[o + 8..o + 24]);
            let destination = dotted_text(&f[o + 24..o + 40]);
            Some(
                NetParsed {
                    source,
                    destination,
                    protocol: proto,
                    transport_off: t_off,
                    fragmented: fragged,
                },
            )
        },
    }
}

/// The label of an ICMPv4 message, from its type byte.
pub open spec fn icmp4_label(t: int) -> Seq<char> {
    if t == 0 {
        "ICMPv4: Echo Reply"@
    } else if t == 3 {
        "ICMPv4: Destination Unreachable"@
    } else if t == 5 {
        "ICMPv4: Redirect"@
    } else if t == 8 {
        "ICMPv4: Echo Request"@
    } else if t == 11 {
        "ICMPv4: Time Exceeded"@
    } else if t == 12 {
        "ICMPv4: Parameter Problem"@
    } else if t == 13 {
        "ICMPv4: Timestamp Request"@
    } else if t == 14 {
        "ICMPv4: Timestamp Reply"@
    } else {
        "ICMPv4: Type Unknown"@
    }
}

fn icmp4_label_text(t: u8) -> (s: String)
    ensures
        s@ == icmp4_label(t as int),
{
    if t == 0 {
        String::from_str("ICMPv4: Echo Reply")
    } else if t == 3 {
        String::from_str("ICMPv4: Destination Unreachable")
    } else if t == 5 {
        String::from_str("ICMPv4: Redirect")
    } else if t == 8 {
        String::from_str("ICMPv4: Echo Request")
    } else if t == 11 {
        String::from_str("ICMPv4: Time Exceeded")
    } else if t == 12 {
        String::from_str("ICMPv4: Parameter Problem")
    } else if t == 13 {
        String::from_str("ICMPv4: Timestamp Request")
    } else if t == 14 {
        String::from_str("ICMPv4: Timestamp Reply")
    } else {
        String::from_str("ICMPv4: Type Unknown")
    }
}

/// The label of an ICMPv6 message, from its type byte.
pub open spec fn icmp6_label(t: int) -> Seq<char> {
    if t == 1 {
        "ICMPv6: Destination Unreachable"@
    } else if t == 2 {
        "ICMPv6: Packet Too Big"@
    } else if t == 3 {
        "ICMPv6: Time Exceeded"@
    } else if t == 4 {
        "ICMPv6: Parameter Problem"@
    } else if t == 128 {
        "ICMPv6: Echo Request"@
    } else if t == 129 {
        "ICMPv6: Echo Reply"@
    } else {
        "ICMPv6: Type Unknown"@
    }
}

fn icmp6_label_text(t: u8) -> (s: String)
    ensures
        s@ == icmp6_label(t as int),
{
    if t == 1 {
        String::from_str("ICMPv6: Destination Unreachable")
    } else if t == 2 {
        String::from_str("ICMPv6: Packet Too Big")
    } else if t == 3 {
        String::from_str("ICMPv6: Time Exceeded")
    } else if t == 4 {
        String::from_str("ICMPv6: Parameter Problem")
    } else if t == 128 {
        String::from_str("ICMPv6: Echo Request")
    } else if t == 129 {
        String::from_str("ICMPv6: Echo Reply")
    } else {
        String::from_str("ICMPv6: Type Unknown")
    }
}

/// What the transport layer yields: the label and, for TCP and UDP, the
/// two ports.
pub ghost struct TransportView {
    pub label: Seq<char>,
    pub source_port: Option<int>,
    pub destination_port: Option<int>,
}

/// The transport header at offset `o`, told apart by the protocol
/// number: TCP and UDP yield their ports, the ICMP families a label from
/// their type byte, and every other protocol is unrecognized.
pub open spec fn transport_parse(f: Seq<u8>, o: int, protocol: int) -> Option<TransportView> {
    if protocol == IP_PROTO_TCP {
        if f.len() < o + 20 {
            None
        } else {
            let doff = f[o + 12] / 16;
            if doff < 5 {
                None
            } else if f.len() < o + doff * 4 {
                None
            } else {
                Some(
                    TransportView {
                        label: "TCP"@,
                        source_port: Some(be16(f, o)),
                        destination_port: Some(be16(f, o + 2)),
                    },
                )
            }
        }
    } else if protocol == IP_PROTO_UDP {
        if f.len() < o + 8 {
            None
        } else {
            Some(
                TransportView {
                    label: "UDP"@,
                    source_port: Some(be16(f, o)),
                    destination_port: Some(be16(f, o + 2)),
                },
            )
        }
    } else if protocol == IP_PROTO_ICMPV4 {
        if f.len() < o + 8 {
            None
        } else {
            Some(
                TransportView {
                    label: icmp4_label(f[o] as int),
                    source_port: None,
                    destination_port: None,
                },
            )
        }
    } else if protocol == IP_PROTO_ICMPV6 {
        if f.len() < o + 8 {
            None
        } else {
            Some(
                TransportView {
                    label: icmp6_label(f[o] as int),
                    source_port: None,
                    destination_port: None,
                },
            )
        }
    } else {
        None
    }
}

struct TransportParsed {
    label: String,
    source_port: Option<usize>,
    destination_port: Option<usize>,
}

fn transport_parse_x(f: &[u8], o: usize, protocol: u8) -> (r: Option<TransportParsed>)
    requires
        o <= f@.len(),
    ensures
        match r {
            Some(t) => transport_parse(f@, o as int, protocol as int) matches Some(v)
                && t.label@ == v.label && port_view(t.source_port) == v.source_port && port_view(
                t.destination_port,
            ) == v.destination_port,
            None => transport_parse(f@, o as int, protocol as int) is None,
        },
{
    let n = f.len();
    if protocol == IP_PROTO_TCP {
        if n - o < 20 {
            return None;
        }
        let doff = f[o + 12] / 16;
        if doff < 5 {
            return None;
        }
        if n - o < (doff as usize) * 4 {
            return None;
        }
        let sp = read_be16(f, o) as usize;
        let dp = read_be16(f, o + 2) as usize;
        Some(
            TransportParsed {
                label: String::from_str("TCP"),
                source_port: Some(sp),
                destination_port: Some(dp),
            },
        )
    } else if protocol == IP_PROTO_UDP {
        if n - o < 8 {
            return None;
        }
        let sp = read_be16(f, o) as usize;
        let dp = read_be16(f, o + 2) as usize;
        Some(
            TransportParsed {
                label: String::from_str("UDP"),
                source_port: Some(sp),
                destination_port: Some(dp),
            },
        )
    } else if protocol == IP_PROTO_ICMPV4 {
        if n - o < 8 {
            return None;
        }
        Some(
            TransportParsed {
                label: icmp4_label_text(f[o]),
                source_port: None,
                destination_port: None,
            },
        )
    } else if protocol == IP_PROTO_ICMPV6 {
        if n - o < 8 {
            return None;
        }
        Some(
            TransportParsed {
                label: icmp6_label_text(f[o]),
                source_port: None,
                destination_port: None,
            },
        )
    } else {
        None
    }
}

/// The whole network stage: the Ethernet header split, then IPv4 or
/// IPv6 by the ethertype.
pub open spec fn net_parse(f: Seq<u8>) -> Option<NetView> {
    match link_split(f) {
        None => None,
        Some((ether, o)) => {
            if ether == ETHERTYPE_IPV4 {
                ipv4_parse(f, o)
            } else if ether == ETHERTYPE_IPV6 {
                ipv6_parse(f, o)
            } else {
                None
            }
        },
    }
}

/// What one raw frame decodes to, if anything: the frame must carry an
/// Ethernet header (with up to two VLAN tags), then an unfragmented IPv4
/// or IPv6 header, then a recognized transport header, and its capture
/// time must be renderable; anything else is rejected.
pub open spec fn decode_spec(f: Seq<u8>, ts: int, wire_len: int) -> Option<PacketView> {
    match net_parse(f) {
        None => None,
        Some(v) => {
            if v.fragmented {
                None
            } else {
                match transport_parse(f, v.transport_off, v.protocol) {
                    None => None,
                    Some(t) => {
                        if ts_renderable(ts) {
                            Some(
                                PacketView {
                                    timestamp: timestamp_text(ts),
                                    source_ip: dotted(v.source),
                                    destination_ip: dotted(v.destination),
                                    source_port: t.source_port,
                                    destination_port: t.destination_port,
                                    protocol: t.label,
                                    size: wire_len,
                                },
                            )
                        } else {
                            None
                        }
                    },
                }
            }
        },
    }
}

/// Decode rejection: a frame whose network header is recognized but
/// whose transport header is not — an unsupported protocol number, or
/// one whose header is truncated — yields no record at all.  (That such
/// a frame does not stop the frames after it is
/// `crate::worker::lemma_resume_continues_stream`: a rejected outcome is
/// dropped and the stream goes on.)
pub proof fn lemma_decode_rejection(f: Seq<u8>, ts: int, wire_len: int)
    requires
        net_parse(f) matches Some(v) && transport_parse(f, v.transport_off, v.protocol) is None,
    ensures
        decode_spec(f, ts, wire_len) is None,
{
}

/// Decodes one raw frame into a record, or rejects it.  `ts_sec` is the
/// capture time in seconds since the Unix epoch, `wire_len` the frame's
/// length on the wire; both come from the capture header.  Total: no
/// input makes it panic.
pub fn decode_frame(frame: &[u8], ts_sec: i64, wire_len: u32) -> (r: Option<ParsedPacket>)
    ensures
        match r {
            Some(p) => decode_spec(frame@, ts_sec as int, wire_len as int) == Some(p@),
            None => decode_spec(frame@, ts_sec as int, wire_len as int) is None,
        },
{
    let (ether, off) = match link_split_x(frame) {
        Some(t) => t,
        None => {
            return None;
        },
    };
    let net = if ether == ETHERTYPE_IPV4 {
        ipv4_parse_x(frame, off)
    } else if ether == ETHERTYPE_IPV6 {
        ipv6_parse_x(frame, off)
    } else {
        return None;
    };
    let net = match net {
        Some(v) => v,
        None => {
            return None;
        },
    };
    if net.fragmented {
        return None;
    }
    let tr = match transport_parse_x(frame, net.transport_off, net.protocol) {
        Some(t) => t,
        None => {
            return None;
        },
    };
    if !(-7_000_000_000_000i64 <= ts_sec && ts_sec <= 7_000_000_000_000i64) {
        return None;
    }
    let ts = match fmt_utc_seconds(ts_sec) {
        Some(s) => s,
        None => {
            return None;
        },
    };
    Some(
        ParsedPacket::new(
            ts,
            net.source,
            net.destination,
            tr.source_port,
            tr.destination_port,
            tr.label,
            wire_len as usize,
        ),
    )
}

} // verus!
