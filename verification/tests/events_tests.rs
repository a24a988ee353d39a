use virtualos::events::{
    native_byte_order, parse_event, parse_event_in, parse_socket_event, parse_socket_event_in,
    read_u16, read_u16_in, read_u32, read_u32_in, read_u64, read_u64_in, AddressFamily, BpfEvent,
    ByteOrder, SocketEventKind, TransportProtocol,
};

fn sample_payload() -> Vec<u8> {
    let mut d = vec![0u8; 88];
    d[0..8].copy_from_slice(&1_000u64.to_le_bytes());
    d[8..12].copy_from_slice(&11u32.to_le_bytes());
    d[12..16].copy_from_slice(&12u32.to_le_bytes());
    d[16..20].copy_from_slice(&13u32.to_le_bytes());
    d[20..24].copy_from_slice(&14u32.to_le_bytes());
    d[24..32].copy_from_slice(&0xabcdu64.to_le_bytes());
    d[32] = 4;
    d[33] = 17;
    d[34] = 12;
    d[35] = 1;
    d[36] = 2;
    // the probe's two pad bytes after new_state, and one alignment byte
    d[37] = 0xee;
    d[38] = 0xee;
    d[39] = 0xee;
    d[40..42].copy_from_slice(&53u16.to_le_bytes());
    d[42..44].copy_from_slice(&8080u16.to_le_bytes());
    for i in 0..16 {
        d[44 + i] = i as u8;
        d[60 + i] = 100 + i as u8;
    }
    d[80..88].copy_from_slice(&4096u64.to_le_bytes());
    d
}

#[test]
fn reads_in_both_orders() {
    let d = [1u8, 2, 3, 4, 5, 6, 7, 8, 9];
    assert_eq!(read_u16_in(&d, 0, ByteOrder::Little), Some(0x0201));
    assert_eq!(read_u16_in(&d, 0, ByteOrder::Big), Some(0x0102));
    assert_eq!(read_u32_in(&d, 1, ByteOrder::Little), Some(0x0504_0302));
    assert_eq!(read_u32_in(&d, 1, ByteOrder::Big), Some(0x0203_0405));
    assert_eq!(read_u64_in(&d, 1, ByteOrder::Little), Some(0x0908_0706_0504_0302));
    assert_eq!(read_u64_in(&d, 1, ByteOrder::Big), Some(0x0203_0405_0607_0809));
    assert_eq!(read_u64_in(&d, 2, ByteOrder::Big), None);
    assert_eq!(read_u16_in(&d, 8, ByteOrder::Big), None);
}

#[test]
fn native_reads_match_std() {
    let d = [1u8, 2, 3, 4, 5, 6, 7, 8];
    assert_eq!(read_u16(&d, 0), Some(u16::from_ne_bytes([1, 2])));
    assert_eq!(read_u32(&d, 4), Some(u32::from_ne_bytes([5, 6, 7, 8])));
    assert_eq!(read_u64(&d, 0), Some(u64::from_ne_bytes(d)));
    assert_eq!(read_u32(&d, 5), None);
    let expected = if (u16::from_ne_bytes([1, 0]) == 1) { ByteOrder::Little } else { ByteOrder::Big };
    assert!(native_byte_order() == expected);
}

#[test]
fn raw_codes() {
    assert_eq!(AddressFamily::from_raw(4), AddressFamily::IPv4);
    assert_eq!(AddressFamily::from_raw(6), AddressFamily::IPv6);
    assert_eq!(AddressFamily::from_raw(2), AddressFamily::Unknown);
    assert_eq!(TransportProtocol::from_raw(6), TransportProtocol::Tcp);
    assert_eq!(TransportProtocol::from_raw(17), TransportProtocol::Udp);
    assert_eq!(TransportProtocol::from_raw(0), TransportProtocol::Unknown);
    assert_eq!(SocketEventKind::from_raw(5), SocketEventKind::TcpClose);
    assert_eq!(SocketEventKind::from_raw(11), SocketEventKind::UdpReceive);
    assert_eq!(SocketEventKind::from_raw(6), SocketEventKind::Unknown);
}

#[test]
fn socket_event_layout() {
    let d = sample_payload();
    let e = parse_socket_event_in(&d, 80, ByteOrder::Little).unwrap();
    assert_eq!(e.timestamp_ns, 1_000);
    assert_eq!((e.pid, e.tgid, e.uid, e.gid), (11, 12, 13, 14));
    assert_eq!(e.socket_cookie, 0xabcd);
    assert_eq!(e.family, AddressFamily::IPv4);
    assert_eq!(e.protocol, TransportProtocol::Udp);
    assert_eq!(e.kind, SocketEventKind::UdpBind);
    assert_eq!((e.old_state, e.new_state), (1, 2));
    assert_eq!((e.local_port, e.remote_port), (53, 8080));
    assert_eq!(e.local_addr[15], 15);
    assert_eq!(e.remote_addr[0], 100);
    assert_eq!(e.bytes, 4096);
}

#[test]
fn socket_event_needs_full_record() {
    let d = sample_payload();
    assert!(parse_socket_event_in(&d, 79, ByteOrder::Little).is_none());
    assert!(parse_socket_event_in(&d[..87], 80, ByteOrder::Little).is_none());
    assert!(parse_socket_event_in(&d, 200, ByteOrder::Big).is_some());
    if (u16::from_ne_bytes([1, 0]) == 1) {
        assert_eq!(parse_socket_event(&d, 80).unwrap().pid, 11);
    }
}

#[test]
fn record_header_dispatch() {
    let payload = sample_payload();
    let mut rec = Vec::new();
    rec.extend_from_slice(&1u16.to_le_bytes());
    rec.extend_from_slice(&80u16.to_le_bytes());
    rec.extend_from_slice(&payload);
    match parse_event_in(&rec, ByteOrder::Little) {
        Some(BpfEvent::Socket(e)) => assert_eq!(e.bytes, 4096),
        other => panic!("unexpected {:?}", other),
    }
    // announced size larger than the payload
    let mut too_big = rec.clone();
    too_big[2..4].copy_from_slice(&200u16.to_le_bytes());
    assert!(parse_event_in(&too_big, ByteOrder::Little).is_none());
    // short header
    assert!(parse_event_in(&[1, 0, 0], ByteOrder::Little).is_none());
    // socket kind with a short announced size
    let mut short = rec.clone();
    short[2..4].copy_from_slice(&10u16.to_le_bytes());
    assert!(parse_event_in(&short, ByteOrder::Little).is_none());
}

#[test]
fn unknown_records_keep_payload() {
    let rec = vec![9u8, 0, 2, 0, 0xaa, 0xbb, 0xcc];
    match parse_event_in(&rec, ByteOrder::Little) {
        Some(BpfEvent::Unknown { event_type, data }) => {
            assert_eq!(event_type, 9);
            assert_eq!(data, vec![0xaa, 0xbb, 0xcc]);
        }
        other => panic!("unexpected {:?}", other),
    }
    // read big-endian, the announced size is 0x0200 and exceeds the payload
    assert!(parse_event_in(&rec, ByteOrder::Big).is_none());
    let be = vec![0u8, 9, 0, 3, 0xaa, 0xbb, 0xcc];
    match parse_event_in(&be, ByteOrder::Big) {
        Some(BpfEvent::Unknown { event_type, data }) => {
            assert_eq!(event_type, 9);
            assert_eq!(data.len(), 3);
        }
        other => panic!("unexpected {:?}", other),
    }
    if (u16::from_ne_bytes([1, 0]) == 1) {
        assert!(matches!(parse_event(&rec), Some(BpfEvent::Unknown { event_type: 9, .. })));
    }
}

#[test]
fn ports_follow_the_probe_padding() {
    let mut d = vec![0u8; 88];
    d[40] = 1;
    d[41] = 1;
    let e = parse_socket_event_in(&d, 88, ByteOrder::Little).unwrap();
    assert_eq!(e.local_port, 0x0101);
    assert_eq!(e.remote_port, 0);
    assert_eq!(e.local_addr, [0u8; 16]);
}
