use virtualos::probe::{rename_offsets, rename_paths_present, rename_reads_flags, RenameCall, RenameOffsets};
use virtualos::probe::{
    classify_sock_op, comm_or_zeroed, exec_event, extract_address, extract_ipv4, extract_ipv6,
    fill_fs_rename_event, fill_fs_unlink_event, fill_udp_event, fork_event, fs_close_event,
    fs_open_event, is_forwarded_tcp_kind, net_bind_event, probe_socket_metadata, slice_to_fixed_array,
    socket_event, socket_metadata, split_id_pair, tcp_state_name, udp_probe_status, AddressFamily,
    EventType, ExitEvent, FsRenameEvent, FsUnlinkEvent, IPv4Address, IPv6Address, SockOpsValues,
    SocketAddress, SocketEvent, SocketEventKind, SocketMetadata, TransportProtocol, EVENT_EXEC,
    EVENT_FS_RENAME, EVENT_FS_UNLINK, EVENT_NET_BIND,
};

#[test]
fn family_from_raw_numbers() {
    assert!(AddressFamily::from_u32(2) == AddressFamily::IPv4);
    assert!(AddressFamily::from_u32(10) == AddressFamily::IPv6);
    assert!(AddressFamily::from_u32(0x1_0002) == AddressFamily::IPv4);
    assert!(AddressFamily::from_u32(3) == AddressFamily::Unknown);
    assert_eq!(AddressFamily::IPv6.raw(), 6);
    assert_eq!(TransportProtocol::Udp.raw(), 17);
    assert_eq!(SocketEventKind::UdpConnect.raw(), 13);
    assert_eq!(EventType::Socket.raw(), 1);
}

#[test]
fn ipv4_octets_are_network_order() {
    let a = IPv4Address::new(0x0a00_0002);
    assert_eq!(a.addr, 0x0a00_0002);
    assert_eq!(a.octets(), [10, 0, 0, 2]);
}

#[test]
fn ipv6_octets_are_network_order() {
    let a = IPv6Address::new([0x2001_0db8, 0, 0, 1]);
    assert_eq!(a.octets(), [0x20, 0x01, 0x0d, 0xb8, 0, 0, 0, 0, 0, 0, 0, 0, 0, 0, 0, 1]);
}

#[test]
fn socket_addresses() {
    let e = SocketAddress::empty();
    assert!(e.family == AddressFamily::Unknown);
    assert_eq!(e.address, [0u8; 16]);
    let v4 = SocketAddress::ipv4(0xc0a8_0101);
    assert!(v4.family == AddressFamily::IPv4);
    assert_eq!(v4.address, [192, 168, 1, 1, 0, 0, 0, 0, 0, 0, 0, 0, 0, 0, 0, 0]);
    let v6 = SocketAddress::ipv6([1, 2, 3, 4]);
    assert!(v6.family == AddressFamily::IPv6);
    assert_eq!(v6.address, [0, 0, 0, 1, 0, 0, 0, 2, 0, 0, 0, 3, 0, 0, 0, 4]);
}

#[test]
fn extract_address_by_family() {
    let a = extract_address(2, 0x7f00_0001, [9, 9, 9, 9]);
    assert!(a.family == AddressFamily::IPv4);
    assert_eq!(&a.address[..4], &[127, 0, 0, 1]);
    let b = extract_address(10, 0x7f00_0001, [0, 0, 0, 1]);
    assert!(b.family == AddressFamily::IPv6);
    assert_eq!(b.address[15], 1);
    let c = extract_address(1, 0x7f00_0001, [1, 1, 1, 1]);
    assert!(c.family == AddressFamily::Unknown);
    assert_eq!(c.address, [0u8; 16]);
    assert!(extract_ipv4(2, 1).is_some());
    assert!(extract_ipv4(10, 1).is_none());
    assert!(extract_ipv6(10, [0; 4]).is_some());
    assert!(extract_ipv6(2, [0; 4]).is_none());
}

#[test]
fn fixed_array_copies_prefix() {
    let a: [u8; 4] = slice_to_fixed_array(&[1, 2, 3, 4, 5, 6]);
    assert_eq!(a, [1, 2, 3, 4]);
    let b: [u8; 6] = slice_to_fixed_array(&[7, 8]);
    assert_eq!(b, [7, 8, 0, 0, 0, 0]);
}

#[test]
fn zeroed_records() {
    let e = SocketEvent::empty();
    assert_eq!(e.timestamp_ns, 0);
    assert!(e.kind == SocketEventKind::Unknown);
    let z = SocketEvent::zeroed();
    assert_eq!(z.bytes, 0);
    let m = SocketMetadata::zeroed();
    assert_eq!(m.local_addr, [0u8; 16]);
    assert!(m.family == AddressFamily::Unknown);
}

#[test]
fn sock_op_classification() {
    assert!(classify_sock_op(3) == SocketEventKind::TcpConnect);
    assert!(classify_sock_op(11) == SocketEventKind::TcpListen);
    assert!(classify_sock_op(5) == SocketEventKind::TcpPassiveEstablished);
    assert!(classify_sock_op(10) == SocketEventKind::TcpStateChange);
    assert!(classify_sock_op(4) == SocketEventKind::Unknown);
    assert!(is_forwarded_tcp_kind(SocketEventKind::TcpListen));
    assert!(!is_forwarded_tcp_kind(SocketEventKind::TcpClose));
    assert!(!is_forwarded_tcp_kind(SocketEventKind::UdpSend));
}

#[test]
fn tcp_state_names() {
    assert_eq!(tcp_state_name(1), "ESTABLISHED");
    assert_eq!(tcp_state_name(10), "LISTEN");
    assert_eq!(tcp_state_name(11), "CLOSING");
    assert_eq!(tcp_state_name(12), "UNKNOWN");
}

#[test]
fn id_pairs_split_low_then_high() {
    assert_eq!(split_id_pair(0x0000_0007_0000_0009), (9, 7));
    assert_eq!(split_id_pair(u64::MAX), (u32::MAX, u32::MAX));
    let p = 0x1234_5678_9abc_def0u64;
    let (lo, hi) = split_id_pair(p);
    assert_eq!((hi as u64) << 32 | lo as u64, p);
}

#[test]
fn exec_event_copies_comm_into_filename() {
    let comm = *b"bash\0\0\0\0\0\0\0\0\0\0\0\0";
    let e = exec_event((42u64 << 32) | 41, (1000u64 << 32) | 1001, 77, comm);
    assert_eq!(e.event_type, EVENT_EXEC);
    assert_eq!((e.pid, e.tgid, e.uid, e.gid), (41, 42, 1001, 1000));
    assert_eq!(e.cgroup_id, 77);
    assert_eq!(&e.filename[..16], &comm[..]);
    assert!(e.filename[16..].iter().all(|b| *b == 0));
}

#[test]
fn process_and_close_events() {
    let comm = [1u8; 16];
    let x: ExitEvent = virtualos::probe::exit_event(5, 6, 7, comm);
    assert_eq!((x.pid, x.tgid, x.uid, x.gid, x.exit_code), (5, 0, 6, 0, 0));
    let f = fork_event(3 << 32 | 2, 0, 1, comm);
    assert_eq!((f.parent_pid, f.parent_tgid, f.child_pid, f.child_tgid), (2, 3, 0, 0));
    let c = fs_close_event(-1, 8, 9, 10, comm);
    assert_eq!(c.fd, -1);
    let o = fs_open_event(0o644, [2u8; 256], 12, 1, 1, 1, comm);
    assert_eq!(o.path_len, 12);
    assert_eq!(o.flags, 0o644);
    let b = net_bind_event(4, 1, 1, 1, comm);
    assert_eq!(b.event_type, EVENT_NET_BIND);
    assert_eq!((b.fd, b.family, b.socket_type, b.protocol), (4, 0, 0, 0));
}

#[test]
fn comm_falls_back_to_zeros() {
    assert_eq!(comm_or_zeroed(None), [0u8; 16]);
    assert_eq!(comm_or_zeroed(Some([3u8; 16])), [3u8; 16]);
}

#[test]
fn unlink_keeps_length_when_read_fails() {
    let mut ev = FsUnlinkEvent {
        event_type: 0,
        pid: 0,
        tgid: 0,
        uid: 0,
        gid: 0,
        cgroup_id: 0,
        flags: 9,
        comm: [0; 16],
        path: [5; 256],
        path_len: 33,
    };
    fill_fs_unlink_event(&mut ev, 1, 2, 3, [1; 16], None);
    assert_eq!(ev.event_type, EVENT_FS_UNLINK);
    assert_eq!(ev.path_len, 33);
    assert_eq!(ev.flags, 0);
    assert_eq!(ev.path, [5; 256]);
    fill_fs_unlink_event(&mut ev, 1, 2, 3, [1; 16], Some(7));
    assert_eq!(ev.path_len, 7);
}

#[test]
fn rename_resets_lengths() {
    let mut ev = FsRenameEvent {
        event_type: 0,
        pid: 0,
        tgid: 0,
        uid: 0,
        gid: 0,
        cgroup_id: 0,
        flags: 0,
        comm: [0; 16],
        old_path: [0; 256],
        old_path_len: 99,
        new_path: [0; 256],
        new_path_len: 99,
    };
    fill_fs_rename_event(&mut ev, 2, 1, 1, 1, [0; 16], Some(4), None);
    assert_eq!(ev.event_type, EVENT_FS_RENAME);
    assert_eq!((ev.old_path_len, ev.new_path_len, ev.flags), (4, 0, 2));
}

fn values(op: u32) -> SockOpsValues {
    SockOpsValues {
        family: 2,
        local_ip4: 0x0a00_0002,
        local_ip6: [0; 4],
        remote_ip4: 0x0a00_0001,
        remote_ip6: [0; 4],
        local_port: 0x1_0050,
        remote_port: 443,
        op,
        arg0: 0x101,
        arg1: 7,
        pid: 11,
        tgid: 12,
        uid: 13,
        gid: 14,
    }
}

#[test]
fn socket_event_from_sock_ops() {
    let e = socket_event(values(3), 999);
    assert_eq!(e.timestamp_ns, 999);
    assert!(e.family == AddressFamily::IPv4);
    assert!(e.protocol == TransportProtocol::Tcp);
    assert!(e.kind == SocketEventKind::TcpConnect);
    assert_eq!(&e.local_addr[..4], &[10, 0, 0, 2]);
    assert_eq!(&e.remote_addr[..4], &[10, 0, 0, 1]);
    assert_eq!((e.local_port, e.remote_port), (0x50, 443));
    assert_eq!((e.old_state, e.new_state), (1, 7));
    assert_eq!((e.pid, e.tgid, e.uid, e.gid), (11, 12, 13, 14));
}

#[test]
fn socket_metadata_from_sock_ops() {
    let m = socket_metadata(values(3));
    assert!(m.family == AddressFamily::IPv4);
    assert_eq!(m.local_port, 0x50);
    assert_eq!(m.pid, 0);
    let p = probe_socket_metadata(values(3), (5u64 << 32) | 6);
    assert_eq!((p.pid, p.tgid), (6, 5));
}

#[test]
fn udp_event_keeps_other_fields() {
    let mut e = SocketEvent::empty();
    e.bytes = 55;
    e.local_port = 53;
    e.family = AddressFamily::IPv6;
    fill_udp_event(&mut e, 1, 2, 3, 4, 5, SocketEventKind::UdpSend);
    assert_eq!(e.bytes, 55);
    assert_eq!(e.local_port, 53);
    assert!(e.family == AddressFamily::Unknown);
    assert!(e.protocol == TransportProtocol::Udp);
    assert!(e.kind == SocketEventKind::UdpSend);
    assert_eq!((e.timestamp_ns, e.pid, e.tgid, e.uid, e.gid), (1, 2, 3, 4, 5));
    assert_eq!(udp_probe_status(true), 0);
    assert_eq!(udp_probe_status(false), 1);
}

#[test]
fn rename_tracepoint_arguments() {
    assert_eq!(rename_offsets(RenameCall::Rename), RenameOffsets { old_path: 24, new_path: 32, flags: 0 });
    assert_eq!(rename_offsets(RenameCall::RenameAt), RenameOffsets { old_path: 32, new_path: 40, flags: 0 });
    let at2 = rename_offsets(RenameCall::RenameAt2);
    assert_eq!(at2, RenameOffsets { old_path: 32, new_path: 40, flags: 48 });
    assert!(rename_reads_flags(at2));
    assert!(!rename_reads_flags(rename_offsets(RenameCall::Rename)));
    assert!(rename_paths_present(0x1000, 0x2000));
    assert!(!rename_paths_present(0, 0x2000));
    assert!(!rename_paths_present(0x1000, 0));
}
