use network_analyzer::decode::decode_frame;

fn eth_header(ethertype: u16) -> Vec<u8> {
    let mut f = vec![0u8; 12];
    f.push((ethertype >> 8) as u8);
    f.push((ethertype & 0xFF) as u8);
    f
}

fn ipv4_header(protocol: u8, src: [u8; 4], dst: [u8; 4], flags_frag: [u8; 2]) -> Vec<u8> {
    let mut h = vec![0x45u8, 0, 0, 40, 0, 0, flags_frag[0], flags_frag[1], 64, protocol, 0, 0];
    h.extend_from_slice(&src);
    h.extend_from_slice(&dst);
    h
}

fn tcp_header(sport: u16, dport: u16) -> Vec<u8> {
    let mut h = Vec::new();
    h.push((sport >> 8) as u8);
    h.push((sport & 0xFF) as u8);
    h.push((dport >> 8) as u8);
    h.push((dport & 0xFF) as u8);
    h.extend_from_slice(&[0, 0, 0, 0, 0, 0, 0, 0]); // seq, ack
    h.push(0x50); // data offset 5 words
    h.push(0); // flags
    h.extend_from_slice(&[0, 0, 0, 0, 0, 0]); // window, checksum, urgent
    h
}

fn udp_header(sport: u16, dport: u16) -> Vec<u8> {
    vec![
        (sport >> 8) as u8,
        (sport & 0xFF) as u8,
        (dport >> 8) as u8,
        (dport & 0xFF) as u8,
        0,
        8,
        0,
        0,
    ]
}

#[test]
fn decode_ipv4_tcp_frame() {
    let mut frame = eth_header(0x0800);
    frame.extend(ipv4_header(6, [127, 0, 0, 1], [128, 0, 0, 2], [0, 0]));
    frame.extend(tcp_header(62911, 80));
    let p = decode_frame(&frame, 1667775485, 64).expect("a well-formed TCP frame decodes");
    assert_eq!(p.source_ip, "127.0.0.1");
    assert_eq!(p.destination_ip, "128.0.0.2");
    assert_eq!(p.source_port, Some(62911));
    assert_eq!(p.destination_port, Some(80));
    assert_eq!(p.protocol, "TCP");
    assert_eq!(p.size, 64);
    assert_eq!(p.timestamp, "2022-11-06 22:58:05");
}

#[test]
fn decode_ipv4_udp_frame() {
    let mut frame = eth_header(0x0800);
    frame.extend(ipv4_header(17, [10, 1, 2, 3], [10, 4, 5, 6], [0, 0]));
    frame.extend(udp_header(5353, 53));
    let p = decode_frame(&frame, 0, 120).expect("a well-formed UDP frame decodes");
    assert_eq!(p.source_ip, "10.1.2.3");
    assert_eq!(p.destination_ip, "10.4.5.6");
    assert_eq!(p.source_port, Some(5353));
    assert_eq!(p.destination_port, Some(53));
    assert_eq!(p.protocol, "UDP");
    assert_eq!(p.size, 120);
    assert_eq!(p.timestamp, "1970-01-01 00:00:00");
}

#[test]
fn decode_icmpv4_echo_request() {
    let mut frame = eth_header(0x0800);
    frame.extend(ipv4_header(1, [192, 168, 0, 1], [192, 168, 0, 2], [0, 0]));
    frame.extend_from_slice(&[8, 0, 0, 0, 0, 0, 0, 0]); // type 8, code 0
    let p = decode_frame(&frame, 1431648000, 98).expect("an ICMP echo request decodes");
    assert_eq!(p.protocol, "ICMPv4: Echo Request");
    assert_eq!(p.source_port, None);
    assert_eq!(p.destination_port, None);
    assert_eq!(p.timestamp, "2015-05-15 00:00:00");
}

#[test]
fn decode_ipv6_udp_frame() {
    let mut frame = eth_header(0x86DD);
    let mut v6 = vec![0x60u8, 0, 0, 0, 0, 8, 17, 64];
    let mut src = [0u8; 16];
    src[15] = 1;
    let mut dst = [0u8; 16];
    dst[15] = 2;
    v6.extend_from_slice(&src);
    v6.extend_from_slice(&dst);
    frame.extend(v6);
    frame.extend(udp_header(1024, 443));
    let p = decode_frame(&frame, 0, 70).expect("a well-formed IPv6 UDP frame decodes");
    assert_eq!(p.source_ip, "0.0.0.0.0.0.0.0.0.0.0.0.0.0.0.1");
    assert_eq!(p.destination_ip, "0.0.0.0.0.0.0.0.0.0.0.0.0.0.0.2");
    assert_eq!(p.protocol, "UDP");
    assert_eq!(p.source_port, Some(1024));
    assert_eq!(p.destination_port, Some(443));
}

#[test]
fn decode_vlan_tagged_frame() {
    let mut frame = eth_header(0x8100);
    frame.extend_from_slice(&[0x00, 0x05]); // VLAN tag control
    frame.extend_from_slice(&[0x08, 0x00]); // inner ethertype: IPv4
    frame.extend(ipv4_header(6, [1, 2, 3, 4], [5, 6, 7, 8], [0, 0]));
    frame.extend(tcp_header(1000, 2000));
    let p = decode_frame(&frame, 0, 60).expect("a VLAN-tagged TCP frame decodes");
    assert_eq!(p.source_ip, "1.2.3.4");
    assert_eq!(p.protocol, "TCP");
}

#[test]
fn reject_unrecognized_transport() {
    // a recognized network header with an unsupported protocol number
    let mut frame = eth_header(0x0800);
    frame.extend(ipv4_header(99, [127, 0, 0, 1], [128, 0, 0, 2], [0, 0]));
    frame.extend(tcp_header(62911, 80));
    assert!(decode_frame(&frame, 1667775485, 64).is_none());
    // and the rejection does not stop the next frame from decoding
    let mut good = eth_header(0x0800);
    good.extend(ipv4_header(6, [127, 0, 0, 1], [128, 0, 0, 2], [0, 0]));
    good.extend(tcp_header(62911, 80));
    assert!(decode_frame(&good, 1667775485, 64).is_some());
}

#[test]
fn reject_non_ip_frame() {
    let mut frame = eth_header(0x0806); // ARP
    frame.extend_from_slice(&[0u8; 28]);
    assert!(decode_frame(&frame, 0, 42).is_none());
}

#[test]
fn reject_truncated_headers() {
    assert!(decode_frame(&[], 0, 0).is_none());
    assert!(decode_frame(&[0u8; 13], 0, 13).is_none());
    let mut frame = eth_header(0x0800);
    frame.extend_from_slice(&[0x45, 0, 0, 40]); // IPv4 cut short
    assert!(decode_frame(&frame, 0, 18).is_none());
    // a TCP header cut short
    let mut frame = eth_header(0x0800);
    frame.extend(ipv4_header(6, [1, 1, 1, 1], [2, 2, 2, 2], [0, 0]));
    frame.extend_from_slice(&[0xF5, 0xBF, 0x00]);
    assert!(decode_frame(&frame, 0, 37).is_none());
}

#[test]
fn reject_fragmented_ipv4() {
    let mut frame = eth_header(0x0800);
    frame.extend(ipv4_header(6, [1, 2, 3, 4], [5, 6, 7, 8], [0x20, 0x00])); // more fragments
    frame.extend(tcp_header(1000, 2000));
    assert!(decode_frame(&frame, 0, 60).is_none());
    let mut frame = eth_header(0x0800);
    frame.extend(ipv4_header(6, [1, 2, 3, 4], [5, 6, 7, 8], [0x00, 0x08])); // nonzero offset
    frame.extend(tcp_header(1000, 2000));
    assert!(decode_frame(&frame, 0, 60).is_none());
}

#[test]
fn reject_unrenderable_capture_time() {
    let mut frame = eth_header(0x0800);
    frame.extend(ipv4_header(6, [1, 2, 3, 4], [5, 6, 7, 8], [0, 0]));
    frame.extend(tcp_header(1000, 2000));
    assert!(decode_frame(&frame, i64::MAX, 60).is_none());
    assert!(decode_frame(&frame, i64::MIN, 60).is_none());
    assert!(decode_frame(&frame, 0, 60).is_some());
}

#[test]
fn decode_ipv6_with_extension_chain() {
    let mut frame = eth_header(0x86DD);
    let mut v6 = vec![0x60u8, 0, 0, 0, 0, 16, 0, 64]; // next header: hop-by-hop
    v6.extend_from_slice(&[0u8; 32]); // addresses
    frame.extend(v6);
    // hop-by-hop extension: next header 17 (UDP), length 0 (8 bytes)
    frame.extend_from_slice(&[17, 0, 0, 0, 0, 0, 0, 0]);
    frame.extend(udp_header(7, 9));
    let p = decode_frame(&frame, 0, 74).expect("an IPv6 frame with one extension decodes");
    assert_eq!(p.protocol, "UDP");
    assert_eq!(p.source_port, Some(7));
    assert_eq!(p.destination_port, Some(9));
}

#[test]
fn reject_fragmented_ipv6() {
    let mut frame = eth_header(0x86DD);
    let mut v6 = vec![0x60u8, 0, 0, 0, 0, 16, 44, 64]; // next header: fragment
    v6.extend_from_slice(&[0u8; 32]);
    frame.extend(v6);
    // fragment header: next 17, reserved, offset 1, no more-fragments
    frame.extend_from_slice(&[17, 0, 0, 8, 0, 0, 0, 0]);
    frame.extend(udp_header(7, 9));
    assert!(decode_frame(&frame, 0, 74).is_none());
}

#[test]
fn numerals_render_in_decimal() {
    assert_eq!(network_analyzer::text::usize_text(0), "0");
    assert_eq!(network_analyzer::text::usize_text(7), "7");
    assert_eq!(network_analyzer::text::usize_text(255), "255");
    assert_eq!(network_analyzer::text::usize_text(1000000), "1000000");
    assert_eq!(network_analyzer::text::dotted_text(&[127, 0, 0, 1]), "127.0.0.1");
    assert_eq!(network_analyzer::text::dotted_text(&[]), "");
    assert_eq!(network_analyzer::text::dotted_text(&[255]), "255");
}
