//! Kernel-side event records of the tracing probes and the pure logic that
//! fills them: address extraction, identifier splitting, socket-operation
//! classification and the construction of each event from the values that
//! the BPF helpers return.
use vstd::prelude::*;

verus! {

pub const EVENT_EXEC: u32 = 1;
pub const EVENT_FORK: u32 = 2;
pub const EVENT_EXIT: u32 = 3;

pub const EVENT_FS_OPEN: u32 = 10;
pub const EVENT_FS_CLOSE: u32 = 11;
pub const EVENT_FS_UNLINK: u32 = 12;
pub const EVENT_FS_RENAME: u32 = 13;

pub const EVENT_NET_CONNECT: u32 = 20;
pub const EVENT_NET_ACCEPT: u32 = 21;
pub const EVENT_NET_BIND: u32 = 22;
pub const EVENT_NET_CLOSE: u32 = 23;

pub const TASK_COMM_LEN: usize = 16;
pub const FILENAME_LEN: usize = 256;
pub const FS_PATH_LEN: usize = 256;
pub const NET_COMM_LEN: usize = 16;

pub const AF_INET: u16 = 2;
pub const AF_INET6: u16 = 10;

pub const IPPROTO_TCP: u8 = 6;
pub const IPPROTO_UDP: u8 = 17;

pub const SOCK_STREAM: u32 = 1;
pub const SOCK_DGRAM: u32 = 2;

/// Socket-operation callback codes of the kernel's `bpf_sock_ops` interface.
pub const BPF_SOCK_OPS_TCP_CONNECT_CB: u32 = 3;
pub const BPF_SOCK_OPS_PASSIVE_ESTABLISHED_CB: u32 = 5;
pub const BPF_SOCK_OPS_STATE_CB: u32 = 10;
pub const BPF_SOCK_OPS_TCP_LISTEN_CB: u32 = 11;

/// TCP states as the kernel's BPF interface numbers them.
pub const BPF_TCP_ESTABLISHED: u32 = 1;
pub const BPF_TCP_SYN_SENT: u32 = 2;
pub const BPF_TCP_SYN_RECV: u32 = 3;
pub const BPF_TCP_FIN_WAIT1: u32 = 4;
pub const BPF_TCP_FIN_WAIT2: u32 = 5;
pub const BPF_TCP_TIME_WAIT: u32 = 6;
pub const BPF_TCP_CLOSE: u32 = 7;
pub const BPF_TCP_CLOSE_WAIT: u32 = 8;
pub const BPF_TCP_LAST_ACK: u32 = 9;
pub const BPF_TCP_LISTEN: u32 = 10;
pub const BPF_TCP_CLOSING: u32 = 11;

#[derive(Clone, Copy)]
pub struct ExecEvent {
    pub event_type: u32,
    pub pid: u32,
    pub tgid: u32,
    pub uid: u32,
    pub gid: u32,
    pub cgroup_id: u64,
    pub comm: [u8; TASK_COMM_LEN],
    pub filename: [u8; FILENAME_LEN],
}

#[derive(Clone, Copy)]
pub struct ForkEvent {
    pub event_type: u32,
    pub parent_pid: u32,
    pub parent_tgid: u32,
    pub child_pid: u32,
    pub child_tgid: u32,
    pub uid: u32,
    pub gid: u32,
    pub cgroup_id: u64,
    pub comm: [u8; TASK_COMM_LEN],
}

#[derive(Clone, Copy)]
pub struct ExitEvent {
    pub event_type: u32,
    pub pid: u32,
    pub tgid: u32,
    pub exit_code: i32,
    pub uid: u32,
    pub gid: u32,
    pub cgroup_id: u64,
    pub comm: [u8; TASK_COMM_LEN],
}

#[derive(Clone, Copy)]
pub struct FsOpenEvent {
    pub event_type: u32,
    pub pid: u32,
    pub tgid: u32,
    pub uid: u32,
    pub gid: u32,
    pub cgroup_id: u64,
    pub flags: u64,
    pub comm: [u8; TASK_COMM_LEN],
    pub path: [u8; FS_PATH_LEN],
    pub path_len: u32,
}

#[derive(Clone, Copy)]
pub struct FsCloseEvent {
    pub event_type: u32,
    pub pid: u32,
    pub tgid: u32,
    pub uid: u32,
    pub gid: u32,
    pub cgroup_id: u64,
    pub fd: i64,
    pub comm: [u8; TASK_COMM_LEN],
}

#[derive(Clone, Copy)]
pub struct FsUnlinkEvent {
    pub event_type: u32,
    pub pid: u32,
    pub tgid: u32,
    pub uid: u32,
    pub gid: u32,
    pub cgroup_id: u64,
    pub flags: u64,
    pub comm: [u8; TASK_COMM_LEN],
    pub path: [u8; FS_PATH_LEN],
    pub path_len: u32,
}

#[derive(Clone, Copy)]
pub struct FsRenameEvent {
    pub event_type: u32,
    pub pid: u32,
    pub tgid: u32,
    pub uid: u32,
    pub gid: u32,
    pub cgroup_id: u64,
    pub flags: u64,
    pub comm: [u8; TASK_COMM_LEN],
    pub old_path: [u8; FS_PATH_LEN],
    pub old_path_len: u32,
    pub new_path: [u8; FS_PATH_LEN],
    pub new_path_len: u32,
}

#[derive(Clone, Copy)]
pub struct NetSocketEvent {
    pub event_type: u32,
    pub pid: u32,
    pub tgid: u32,
    pub uid: u32,
    pub gid: u32,
    pub cgroup_id: u64,
    pub fd: i32,
    pub family: u16,
    pub socket_type: u16,
    pub protocol: u16,
    pub _pad: u16,
    pub comm: [u8; NET_COMM_LEN],
}

/// Kind of a record in the shared ring buffer (wire values: `Unknown` 0, `Socket` 1).
#[derive(Clone, Copy, PartialEq, Eq, Structural)]
pub enum EventType {
    Unknown,
    Socket,
}

impl EventType {
    /// The 16-bit wire value of the kind.
    pub fn raw(self) -> (r: u16)
        ensures
            r == (match self {
                EventType::Unknown => 0u16,
                EventType::Socket => 1u16,
            }),
    {
        match self {
            EventType::Unknown => 0,
            EventType::Socket => 1,
        }
    }
}

#[derive(Clone, Copy)]
pub struct EventHeader {
    pub event_type: EventType,
    pub size: u16,
}

/// Address family of a socket as the probes record it (wire values: `Unknown` 0,
/// `IPv4` 4, `IPv6` 6).
#[derive(Clone, Copy, PartialEq, Eq, Structural)]
pub enum AddressFamily {
    Unknown,
    IPv4,
    IPv6,
}

/// The family that a raw kernel address-family number stands for: only the
/// low 16 bits are looked at, `AF_INET` is IPv4 and `AF_INET6` is IPv6.
pub open spec fn family_of(family: u32) -> AddressFamily {
    if family % 0x10000 == AF_INET as int {
        AddressFamily::IPv4
    } else if family % 0x10000 == AF_INET6 as int {
        AddressFamily::IPv6
    } else {
        AddressFamily::Unknown
    }
}

impl AddressFamily {
    pub fn from_u32(family: u32) -> (r: Self)
        ensures
            r == family_of(family),
    {
        assert(family as u16 == family % 0x10000) by (bit_vector);
        let low = family as u16;
        if low == AF_INET {
            AddressFamily::IPv4
        } else if low == AF_INET6 {
            AddressFamily::IPv6
        } else {
            AddressFamily::Unknown
        }
    }

    /// The 8-bit wire value of the family.
    pub fn raw(self) -> (r: u8)
        ensures
            r == family_code(self),
    {
        match self {
            AddressFamily::Unknown => 0,
            AddressFamily::IPv4 => 4,
            AddressFamily::IPv6 => 6,
        }
    }
}

/// The wire value of a family: `Unknown` 0, `IPv4` 4, `IPv6` 6.
pub open spec fn family_code(f: AddressFamily) -> u8 {
    match f {
        AddressFamily::Unknown => 0u8,
        AddressFamily::IPv4 => 4u8,
        AddressFamily::IPv6 => 6u8,
    }
}

/// The four bytes of `v`, most significant first (network byte order).
pub open spec fn be_bytes(v: u32) -> Seq<u8> {
    seq![
        (v / 0x1000000) as u8,
        ((v / 0x10000) % 256) as u8,
        ((v / 0x100) % 256) as u8,
        (v % 256) as u8,
    ]
}

/// The sixteen bytes of an IPv6 address given as four 32-bit words, each word
/// in network byte order.
pub open spec fn ipv6_bytes(a: Seq<u32>) -> Seq<u8> {
    be_bytes(a[0]) + be_bytes(a[1]) + be_bytes(a[2]) + be_bytes(a[3])
}

fn u32_be_bytes(a: u32) -> (r: [u8; 4])
    ensures
        r@ == be_bytes(a),
{
    assert((a >> 24) as u8 == (a / 0x1000000) as u8) by (bit_vector);
    assert((a >> 16) as u8 == ((a / 0x10000) % 256) as u8) by (bit_vector);
    assert((a >> 8) as u8 == ((a / 0x100) % 256) as u8) by (bit_vector);
    assert(a as u8 == (a % 256) as u8) by (bit_vector);
    let r = [(a >> 24) as u8, (a >> 16) as u8, (a >> 8) as u8, a as u8];
    assert(r@ =~= be_bytes(a));
    r
}

#[derive(Clone, Copy)]
pub struct IPv4Address {
    pub addr: u32,
}

impl IPv4Address {
    pub fn new(addr: u32) -> (r: Self)
        ensures
            r.addr == addr,
    {
        Self { addr }
    }

    /// The address bytes in network byte order.
    pub fn octets(self) -> (r: [u8; 4])
        ensures
            r@ == be_bytes(self.addr),
    {
        u32_be_bytes(self.addr)
    }
}

#[derive(Clone, Copy)]
pub struct IPv6Address {
    pub addr: [u32; 4],
}

/// Writes `word` in network byte order at `out[at..at + 4]`.
fn put_be_word(out: &mut [u8; 16], at: usize, word: u32)
    requires
        at + 4 <= 16,
    ensures
        forall|i: int| 0 <= i < 16 ==> final(out)@[i] == (if at <= i < at + 4 {
            be_bytes(word)[i - at]
        } else {
            old(out)@[i]
        }),
{
    let b = u32_be_bytes(word);
    out[at] = b[0];
    out[at + 1] = b[1];
    out[at + 2] = b[2];
    out[at + 3] = b[3];
}

fn ipv6_octets(addr: [u32; 4]) -> (r: [u8; 16])
    ensures
        r@ == ipv6_bytes(addr@),
{
    let mut out = [0u8; 16];
    put_be_word(&mut out, 0, addr[0]);
    put_be_word(&mut out, 4, addr[1]);
    put_be_word(&mut out, 8, addr[2]);
    put_be_word(&mut out, 12, addr[3]);
    assert(out@ =~= ipv6_bytes(addr@));
    out
}

impl IPv6Address {
    pub fn new(addr: [u32; 4]) -> (r: Self)
        ensures
            r.addr == addr,
    {
        Self { addr }
    }

    /// The sixteen address bytes, each word in network byte order.
    pub fn octets(self) -> (r: [u8; 16])
        ensures
            r@ == ipv6_bytes(self.addr@),
    {
        ipv6_octets(self.addr)
    }
}

/// A socket address in a fixed 16-byte slot: IPv4 addresses take the first
/// four bytes and leave the rest zero.
#[derive(Clone, Copy)]
pub struct SocketAddress {
    pub family: AddressFamily,
    pub _pad: [u8; 3],
    pub address: [u8; 16],
}

impl SocketAddress {
    pub fn empty() -> (r: Self)
        ensures
            r.family == AddressFamily::Unknown,
            r._pad@ == seq![0u8; 3],
            r.address@ == seq![0u8; 16],
    {
        let r = Self { family: AddressFamily::Unknown, _pad: [0; 3], address: [0; 16] };
        assert(r._pad@ =~= seq![0u8; 3]);
        assert(r.address@ =~= seq![0u8; 16]);
        r
    }

    pub fn ipv4(addr: u32) -> (r: Self)
        ensures
            r.family == AddressFamily::IPv4,
            r._pad@ == seq![0u8; 3],
            r.address@ == be_bytes(addr) + seq![0u8; 12],
    {
        let mut address = [0u8; 16];
        put_be_word(&mut address, 0, addr);
        let r = Self { family: AddressFamily::IPv4, _pad: [0; 3], address };
        assert(r._pad@ =~= seq![0u8; 3]);
        assert(r.address@ =~= be_bytes(addr) + seq![0u8; 12]);
        r
    }

    pub fn ipv6(addr: [u32; 4]) -> (r: Self)
        ensures
            r.family == AddressFamily::IPv6,
            r._pad@ == seq![0u8; 3],
            r.address@ == ipv6_bytes(addr@),
    {
        let r = Self { family: AddressFamily::IPv6, _pad: [0; 3], address: ipv6_octets(addr) };
        assert(r._pad@ =~= seq![0u8; 3]);
        r
    }
}

/// The address slot that `extract_address` fills for a family number.
pub open spec fn address_slot(family: u32, ipv4: u32, ipv6: Seq<u32>) -> (AddressFamily, Seq<u8>) {
    match family_of(family) {
        AddressFamily::IPv4 => (AddressFamily::IPv4, be_bytes(ipv4) + seq![0u8; 12]),
        AddressFamily::IPv6 => (AddressFamily::IPv6, ipv6_bytes(ipv6)),
        AddressFamily::Unknown => (AddressFamily::Unknown, seq![0u8; 16]),
    }
}

/// Picks the IPv4 or IPv6 form of an address by the family number; an
/// unknown family gives the empty address.
pub fn extract_address(family: u32, ipv4: u32, ipv6: [u32; 4]) -> (r: SocketAddress)
    ensures
        (r.family, r.address@) == address_slot(family, ipv4, ipv6@),
        r._pad@ == seq![0u8; 3],
{
    match AddressFamily::from_u32(family) {
        AddressFamily::IPv4 => SocketAddress::ipv4(ipv4),
        AddressFamily::IPv6 => SocketAddress::ipv6(ipv6),
        AddressFamily::Unknown => SocketAddress::empty(),
    }
}

/// The IPv4 address when the family number is `AF_INET`, else nothing.
pub fn extract_ipv4(family: u32, address: u32) -> (r: Option<SocketAddress>)
    ensures
        r is Some <==> family_of(family) == AddressFamily::IPv4,
        r matches Some(a) ==> a.family == AddressFamily::IPv4 && a.address@ == be_bytes(address)
            + seq![0u8; 12] && a._pad@ == seq![0u8; 3],
{
    match AddressFamily::from_u32(family) {
        AddressFamily::IPv4 => Some(SocketAddress::ipv4(address)),
        _ => None,
    }
}

/// The IPv6 address when the family number is `AF_INET6`, else nothing.
pub fn extract_ipv6(family: u32, address: [u32; 4]) -> (r: Option<SocketAddress>)
    ensures
        r is Some <==> family_of(family) == AddressFamily::IPv6,
        r matches Some(a) ==> a.family == AddressFamily::IPv6 && a.address@ == ipv6_bytes(
            address@,
        ) && a._pad@ == seq![0u8; 3],
{
    match AddressFamily::from_u32(family) {
        AddressFamily::IPv6 => Some(SocketAddress::ipv6(address)),
        _ => None,
    }
}

/// Copies the first `min(slice.len(), N)` bytes of `slice` into a zeroed array.
pub fn slice_to_fixed_array<const N: usize>(slice: &[u8]) -> (arr: [u8; N])
    ensures
        forall|i: int| 0 <= i < N ==> arr@[i] == (if i < slice@.len() { slice@[i] } else { 0u8 }),
{
    let mut arr = [0u8; N];
    let len = if slice.len() < N { slice.len() } else { N };
    let mut i: usize = 0;
    while i < len
        invariant
            len <= N,
            len <= slice@.len(),
            i <= len,
            len == N || len == slice@.len(),
            forall|j: int| 0 <= j < i ==> arr@[j] == slice@[j],
            forall|j: int| i <= j < N ==> arr@[j] == 0u8,
        decreases len - i,
    {
        arr[i] = slice[i];
        i += 1;
    }
    arr
}

#[derive(Clone, Copy)]
pub struct SocketMetadata {
    pub pid: u32,
    pub tgid: u32,
    pub uid: u32,
    pub gid: u32,
    pub family: AddressFamily,
    pub protocol: u8,
    pub _pad: [u8; 2],
    pub local_port: u16,
    pub remote_port: u16,
    pub local_addr: [u8; 16],
    pub remote_addr: [u8; 16],
    pub socket_cookie: u64,
}

/// The all-zero metadata record (the family's zero value is `Unknown`).
pub open spec fn zero_metadata(m: SocketMetadata) -> bool {
    &&& m.pid == 0 && m.tgid == 0 && m.uid == 0 && m.gid == 0
    &&& m.family == AddressFamily::Unknown
    &&& m.protocol == 0
    &&& m._pad@ == seq![0u8; 2]
    &&& m.local_port == 0 && m.remote_port == 0
    &&& m.local_addr@ == seq![0u8; 16] && m.remote_addr@ == seq![0u8; 16]
    &&& m.socket_cookie == 0
}

impl SocketMetadata {
    pub fn zeroed() -> (r: Self)
        ensures
            zero_metadata(r),
    {
        let r = SocketMetadata {
            pid: 0,
            tgid: 0,
            uid: 0,
            gid: 0,
            family: AddressFamily::Unknown,
            protocol: 0,
            _pad: [0; 2],
            local_port: 0,
            remote_port: 0,
            local_addr: [0; 16],
            remote_addr: [0; 16],
            socket_cookie: 0,
        };
        assert(r._pad@ =~= seq![0u8; 2]);
        assert(r.local_addr@ =~= seq![0u8; 16]);
        r
    }
}

/// Transport protocol of a socket event (wire values: `Unknown` 0, `Tcp` 6, `Udp` 17).
#[derive(Clone, Copy, PartialEq, Eq, Structural)]
pub enum TransportProtocol {
    Unknown,
    Tcp,
    Udp,
}

impl TransportProtocol {
    /// The 8-bit wire value of the protocol.
    pub fn raw(self) -> (r: u8)
        ensures
            r == protocol_code(self),
    {
        match self {
            TransportProtocol::Unknown => 0,
            TransportProtocol::Tcp => 6,
            TransportProtocol::Udp => 17,
        }
    }
}

/// The wire value of a protocol: `Unknown` 0, `Tcp` 6, `Udp` 17.
pub open spec fn protocol_code(p: TransportProtocol) -> u8 {
    match p {
        TransportProtocol::Unknown => 0u8,
        TransportProtocol::Tcp => 6u8,
        TransportProtocol::Udp => 17u8,
    }
}

/// What happened on a socket (wire values: `Unknown` 0, TCP kinds 1 to 5,
/// UDP kinds 10 to 13).
#[derive(Clone, Copy, PartialEq, Eq, Structural)]
pub enum SocketEventKind {
    Unknown,
    TcpConnect,
    TcpPassiveEstablished,
    TcpListen,
    TcpStateChange,
    TcpClose,
    UdpSend,
    UdpReceive,
    UdpBind,
    UdpConnect,
}

impl SocketEventKind {
    /// The 8-bit wire value of the kind.
    pub fn raw(self) -> (r: u8)
        ensures
            r == kind_code(self),
    {
        match self {
            SocketEventKind::Unknown => 0,
            SocketEventKind::TcpConnect => 1,
            SocketEventKind::TcpPassiveEstablished => 2,
            SocketEventKind::TcpListen => 3,
            SocketEventKind::TcpStateChange => 4,
            SocketEventKind::TcpClose => 5,
            SocketEventKind::UdpSend => 10,
            SocketEventKind::UdpReceive => 11,
            SocketEventKind::UdpBind => 12,
            SocketEventKind::UdpConnect => 13,
        }
    }
}

/// The wire value of a kind: `Unknown` 0, the TCP kinds 1 to 5, the UDP kinds 10 to 13.
pub open spec fn kind_code(k: SocketEventKind) -> u8 {
    match k {
        SocketEventKind::Unknown => 0u8,
        SocketEventKind::TcpConnect => 1u8,
        SocketEventKind::TcpPassiveEstablished => 2u8,
        SocketEventKind::TcpListen => 3u8,
        SocketEventKind::TcpStateChange => 4u8,
        SocketEventKind::TcpClose => 5u8,
        SocketEventKind::UdpSend => 10u8,
        SocketEventKind::UdpReceive => 11u8,
        SocketEventKind::UdpBind => 12u8,
        SocketEventKind::UdpConnect => 13u8,
    }
}

#[derive(Clone, Copy)]
pub struct SocketEvent {
    pub timestamp_ns: u64,
    pub pid: u32,
    pub tgid: u32,
    pub uid: u32,
    pub gid: u32,
    pub socket_cookie: u64,
    pub family: AddressFamily,
    pub protocol: TransportProtocol,
    pub kind: SocketEventKind,
    pub old_state: u8,
    pub new_state: u8,
    pub _pad: [u8; 2],
    pub local_port: u16,
    pub remote_port: u16,
    pub local_addr: [u8; 16],
    pub remote_addr: [u8; 16],
    pub bytes: u64,
}

/// The all-zero socket event (every enumeration at its zero value `Unknown`).
pub open spec fn zero_socket_event(e: SocketEvent) -> bool {
    &&& e.timestamp_ns == 0 && e.pid == 0 && e.tgid == 0 && e.uid == 0 && e.gid == 0
    &&& e.socket_cookie == 0
    &&& e.family == AddressFamily::Unknown
    &&& e.protocol == TransportProtocol::Unknown
    &&& e.kind == SocketEventKind::Unknown
    &&& e.old_state == 0 && e.new_state == 0
    &&& e._pad@ == seq![0u8; 2]
    &&& e.local_port == 0 && e.remote_port == 0
    &&& e.local_addr@ == seq![0u8; 16] && e.remote_addr@ == seq![0u8; 16]
    &&& e.bytes == 0
}

impl SocketEvent {
    pub fn zeroed() -> (r: Self)
        ensures
            zero_socket_event(r),
    {
        Self::empty()
    }

    pub fn empty() -> (r: Self)
        ensures
            zero_socket_event(r),
    {
        let r = SocketEvent {
            timestamp_ns: 0,
            pid: 0,
            tgid: 0,
            uid: 0,
            gid: 0,
            socket_cookie: 0,
            family: AddressFamily::Unknown,
            protocol: TransportProtocol::Unknown,
            kind: SocketEventKind::Unknown,
            old_state: 0,
            new_state: 0,
            _pad: [0u8; 2],
            local_addr: [0u8; 16],
            local_port: 0,
            remote_addr: [0u8; 16],
            remote_port: 0,
            bytes: 0,
        };
        assert(r._pad@ =~= seq![0u8; 2]);
        assert(r.local_addr@ =~= seq![0u8; 16]);
        r
    }
}

/// The socket event kind that a socket-operation callback code reports.
pub open spec fn sock_op_kind(op: u32) -> SocketEventKind {
    if op == BPF_SOCK_OPS_TCP_CONNECT_CB {
        SocketEventKind::TcpConnect
    } else if op == BPF_SOCK_OPS_TCP_LISTEN_CB {
        SocketEventKind::TcpListen
    } else if op == BPF_SOCK_OPS_PASSIVE_ESTABLISHED_CB {
        SocketEventKind::TcpPassiveEstablished
    } else if op == BPF_SOCK_OPS_STATE_CB {
        SocketEventKind::TcpStateChange
    } else {
        SocketEventKind::Unknown
    }
}

pub fn classify_sock_op(op: u32) -> (r: SocketEventKind)
    ensures
        r == sock_op_kind(op),
{
    if op == BPF_SOCK_OPS_TCP_CONNECT_CB {
        SocketEventKind::TcpConnect
    } else if op == BPF_SOCK_OPS_TCP_LISTEN_CB {
        SocketEventKind::TcpListen
    } else if op == BPF_SOCK_OPS_PASSIVE_ESTABLISHED_CB {
        SocketEventKind::TcpPassiveEstablished
    } else if op == BPF_SOCK_OPS_STATE_CB {
        SocketEventKind::TcpStateChange
    } else {
        SocketEventKind::Unknown
    }
}

/// Whether a TCP socket-operation event is one that the lifecycle probe forwards.
pub open spec fn forwarded_tcp_kind(kind: SocketEventKind) -> bool {
    kind == SocketEventKind::TcpConnect || kind == SocketEventKind::TcpPassiveEstablished
        || kind == SocketEventKind::TcpListen || kind == SocketEventKind::TcpStateChange
}

/// The lifecycle probe forwards connect, passive-establish, listen and
/// state-change events and drops every other kind.
pub fn is_forwarded_tcp_kind(kind: SocketEventKind) -> (r: bool)
    ensures
        r == forwarded_tcp_kind(kind),
{
    match kind {
        SocketEventKind::TcpConnect
        | SocketEventKind::TcpPassiveEstablished
        | SocketEventKind::TcpListen
        | SocketEventKind::TcpStateChange => true,
        _ => false,
    }
}

/// Printable name of a TCP state number.
pub open spec fn tcp_state_text(state: u32) -> &'static str {
    if state == BPF_TCP_ESTABLISHED {
        "ESTABLISHED"
    } else if state == BPF_TCP_SYN_SENT {
        "SYN_SENT"
    } else if state == BPF_TCP_SYN_RECV {
        "SYN_RECV"
    } else if state == BPF_TCP_FIN_WAIT1 {
        "FIN_WAIT1"
    } else if state == BPF_TCP_FIN_WAIT2 {
        "FIN_WAIT2"
    } else if state == BPF_TCP_TIME_WAIT {
        "TIME_WAIT"
    } else if state == BPF_TCP_CLOSE {
        "CLOSE"
    } else if state == BPF_TCP_CLOSE_WAIT {
        "CLOSE_WAIT"
    } else if state == BPF_TCP_LAST_ACK {
        "LAST_ACK"
    } else if state == BPF_TCP_LISTEN {
        "LISTEN"
    } else if state == BPF_TCP_CLOSING {
        "CLOSING"
    } else {
        "UNKNOWN"
    }
}

pub fn tcp_state_name(state: u32) -> (r: &'static str)
    ensures
        r == tcp_state_text(state),
{
    if state == BPF_TCP_ESTABLISHED {
        "ESTABLISHED"
    } else if state == BPF_TCP_SYN_SENT {
        "SYN_SENT"
    } else if state == BPF_TCP_SYN_RECV {
        "SYN_RECV"
    } else if state == BPF_TCP_FIN_WAIT1 {
        "FIN_WAIT1"
    } else if state == BPF_TCP_FIN_WAIT2 {
        "FIN_WAIT2"
    } else if state == BPF_TCP_TIME_WAIT {
        "TIME_WAIT"
    } else if state == BPF_TCP_CLOSE {
        "CLOSE"
    } else if state == BPF_TCP_CLOSE_WAIT {
        "CLOSE_WAIT"
    } else if state == BPF_TCP_LAST_ACK {
        "LAST_ACK"
    } else if state == BPF_TCP_LISTEN {
        "LISTEN"
    } else if state == BPF_TCP_CLOSING {
        "CLOSING"
    } else {
        "UNKNOWN"
    }
}

/// Splits a packed 64-bit identifier pair: the low half comes first, the high
/// half second (`pid_tgid` gives pid then tgid, `uid_gid` gives uid then gid).
pub fn split_id_pair(packed: u64) -> (r: (u32, u32))
    ensures
        r.0 == packed % 0x1_0000_0000,
        r.1 == packed / 0x1_0000_0000,
{
    assert(packed as u32 == packed % 0x1_0000_0000) by (bit_vector);
    assert((packed >> 32) as u32 == packed / 0x1_0000_0000) by (bit_vector);
    (packed as u32, (packed >> 32) as u32)
}

/// The task name a helper returned, or all zeros when the helper failed.
pub fn comm_or_zeroed(comm: Option<[u8; TASK_COMM_LEN]>) -> (r: [u8; TASK_COMM_LEN])
    ensures
        r@ == (match comm {
            Some(c) => c@,
            None => seq![0u8; 16],
        }),
{
    match comm {
        Some(c) => c,
        None => {
            let z = [0u8; TASK_COMM_LEN];
            assert(z@ =~= seq![0u8; 16]);
            z
        },
    }
}

/// The identity fields shared by the process and file-system events, taken
/// from the packed helper values.
pub open spec fn ids_match(pid: u32, tgid: u32, uid: u32, gid: u32, pid_tgid: u64, uid_gid: u64) -> bool {
    &&& pid == pid_tgid % 0x1_0000_0000
    &&& tgid == pid_tgid / 0x1_0000_0000
    &&& uid == uid_gid % 0x1_0000_0000
    &&& gid == uid_gid / 0x1_0000_0000
}

/// The exec record: the executable is identified by the task name, copied
/// into the start of the zeroed file-name buffer.
pub fn exec_event(pid_tgid: u64, uid_gid: u64, cgroup_id: u64, comm: [u8; TASK_COMM_LEN]) -> (e: ExecEvent)
    ensures
        e.event_type == EVENT_EXEC,
        ids_match(e.pid, e.tgid, e.uid, e.gid, pid_tgid, uid_gid),
        e.cgroup_id == cgroup_id,
        e.comm == comm,
        e.filename@ == comm@ + seq![0u8; 240],
{
    let (pid, tgid) = split_id_pair(pid_tgid);
    let (uid, gid) = split_id_pair(uid_gid);
    let mut filename = [0u8; FILENAME_LEN];
    let mut i: usize = 0;
    while i < TASK_COMM_LEN
        invariant
            i <= 16,
            forall|j: int| 0 <= j < i ==> filename@[j] == comm@[j],
            forall|j: int| i <= j < 256 ==> filename@[j] == 0u8,
        decreases 16 - i,
    {
        filename[i] = comm[i];
        i += 1;
    }
    assert(filename@ =~= comm@ + seq![0u8; 240]);
    ExecEvent { event_type: EVENT_EXEC, pid, tgid, uid, gid, cgroup_id, comm, filename }
}

/// The exit record; the exit code is not read from the task and stays zero.
pub fn exit_event(pid_tgid: u64, uid_gid: u64, cgroup_id: u64, comm: [u8; TASK_COMM_LEN]) -> (e: ExitEvent)
    ensures
        e.event_type == EVENT_EXIT,
        ids_match(e.pid, e.tgid, e.uid, e.gid, pid_tgid, uid_gid),
        e.exit_code == 0,
        e.cgroup_id == cgroup_id,
        e.comm == comm,
{
    let (pid, tgid) = split_id_pair(pid_tgid);
    let (uid, gid) = split_id_pair(uid_gid);
    ExitEvent { event_type: EVENT_EXIT, pid, tgid, exit_code: 0, uid, gid, cgroup_id, comm }
}

/// The fork record: the current task is the parent; the child identifiers are
/// not read and stay zero.
pub fn fork_event(pid_tgid: u64, uid_gid: u64, cgroup_id: u64, comm: [u8; TASK_COMM_LEN]) -> (e: ForkEvent)
    ensures
        e.event_type == EVENT_FORK,
        ids_match(e.parent_pid, e.parent_tgid, e.uid, e.gid, pid_tgid, uid_gid),
        e.child_pid == 0 && e.child_tgid == 0,
        e.cgroup_id == cgroup_id,
        e.comm == comm,
{
    let (parent_pid, parent_tgid) = split_id_pair(pid_tgid);
    let (uid, gid) = split_id_pair(uid_gid);
    ForkEvent {
        event_type: EVENT_FORK,
        parent_pid,
        parent_tgid,
        child_pid: 0,
        child_tgid: 0,
        uid,
        gid,
        cgroup_id,
        comm,
    }
}

/// The close record for file descriptor `fd`.
pub fn fs_close_event(fd: i64, pid_tgid: u64, uid_gid: u64, cgroup_id: u64, comm: [u8; TASK_COMM_LEN]) -> (e: FsCloseEvent)
    ensures
        e.event_type == EVENT_FS_CLOSE,
        ids_match(e.pid, e.tgid, e.uid, e.gid, pid_tgid, uid_gid),
        e.fd == fd,
        e.cgroup_id == cgroup_id,
        e.comm == comm,
{
    let (pid, tgid) = split_id_pair(pid_tgid);
    let (uid, gid) = split_id_pair(uid_gid);
    FsCloseEvent { event_type: EVENT_FS_CLOSE, pid, tgid, uid, gid, cgroup_id, fd, comm }
}

/// The open record: the path buffer and the number of bytes read into it.
pub fn fs_open_event(
    flags: u64,
    path: [u8; FS_PATH_LEN],
    path_len: usize,
    pid_tgid: u64,
    uid_gid: u64,
    cgroup_id: u64,
    comm: [u8; TASK_COMM_LEN],
) -> (e: FsOpenEvent)
    ensures
        e.event_type == EVENT_FS_OPEN,
        ids_match(e.pid, e.tgid, e.uid, e.gid, pid_tgid, uid_gid),
        e.cgroup_id == cgroup_id,
        e.flags == flags,
        e.comm == comm,
        e.path == path,
        e.path_len == path_len as u32,
{
    let (pid, tgid) = split_id_pair(pid_tgid);
    let (uid, gid) = split_id_pair(uid_gid);
    FsOpenEvent {
        event_type: EVENT_FS_OPEN,
        pid,
        tgid,
        uid,
        gid,
        cgroup_id,
        flags,
        comm,
        path,
        path_len: path_len as u32,
    }
}

/// Fills the unlink scratch record in place. The path buffer is written by
/// the kernel's string reader and left as it is here; the path length is
/// updated only when that read succeeded (`read_len` is the number of bytes).
pub fn fill_fs_unlink_event(
    event: &mut FsUnlinkEvent,
    pid_tgid: u64,
    uid_gid: u64,
    cgroup_id: u64,
    comm: [u8; TASK_COMM_LEN],
    read_len: Option<usize>,
)
    ensures
        final(event).event_type == EVENT_FS_UNLINK,
        ids_match(final(event).pid, final(event).tgid, final(event).uid, final(event).gid, pid_tgid, uid_gid),
        final(event).cgroup_id == cgroup_id,
        final(event).flags == 0,
        final(event).comm == comm,
        final(event).path == old(event).path,
        final(event).path_len == (match read_len {
            Some(n) => n as u32,
            None => old(event).path_len,
        }),
{
    let (pid, tgid) = split_id_pair(pid_tgid);
    let (uid, gid) = split_id_pair(uid_gid);
    event.event_type = EVENT_FS_UNLINK;
    event.pid = pid;
    event.tgid = tgid;
    event.uid = uid;
    event.gid = gid;
    event.cgroup_id = cgroup_id;
    event.flags = 0;
    event.comm = comm;
    if let Some(n) = read_len {
        event.path_len = n as u32;
    }
}

/// The rename system calls whose entry the probes trace.
#[derive(Clone, Copy, Debug, PartialEq, Eq, Structural)]
pub enum RenameCall {
    Rename,
    RenameAt,
    RenameAt2,
}

/// Where a rename tracepoint's record holds the two path pointers and the
/// flags; a flags offset of 0 means the call has no flags.
#[derive(Clone, Copy, Debug, PartialEq, Eq, Structural)]
pub struct RenameOffsets {
    pub old_path: usize,
    pub new_path: usize,
    pub flags: usize,
}

/// The argument offsets of each rename tracepoint: `rename` has its paths at
/// 24 and 32; `renameat` at 32 and 40; `renameat2` also has flags at 48.
pub fn rename_offsets(call: RenameCall) -> (r: RenameOffsets)
    ensures
        r == (match call {
            RenameCall::Rename => RenameOffsets { old_path: 24, new_path: 32, flags: 0 },
            RenameCall::RenameAt => RenameOffsets { old_path: 32, new_path: 40, flags: 0 },
            RenameCall::RenameAt2 => RenameOffsets { old_path: 32, new_path: 40, flags: 48 },
        }),
{
    match call {
        RenameCall::Rename => RenameOffsets { old_path: 24, new_path: 32, flags: 0 },
        RenameCall::RenameAt => RenameOffsets { old_path: 32, new_path: 40, flags: 0 },
        RenameCall::RenameAt2 => RenameOffsets { old_path: 32, new_path: 40, flags: 48 },
    }
}

/// A rename is recorded only when both path pointers are non-null.
pub fn rename_paths_present(old_path_addr: u64, new_path_addr: u64) -> (r: bool)
    ensures
        r == (old_path_addr != 0 && new_path_addr != 0),
{
    old_path_addr != 0 && new_path_addr != 0
}

/// Whether the flags are read from the record: only where the call has them;
/// otherwise they are 0.
pub fn rename_reads_flags(offsets: RenameOffsets) -> (r: bool)
    ensures
        r == (offsets.flags != 0),
{
    offsets.flags != 0
}

/// Fills the rename scratch record in place: both path lengths are reset to
/// zero and then set to the number of bytes read for each path that was read.
pub fn fill_fs_rename_event(
    event: &mut FsRenameEvent,
    flags: u64,
    pid_tgid: u64,
    uid_gid: u64,
    cgroup_id: u64,
    comm: [u8; TASK_COMM_LEN],
    old_read_len: Option<usize>,
    new_read_len: Option<usize>,
)
    ensures
        final(event).event_type == EVENT_FS_RENAME,
        ids_match(final(event).pid, final(event).tgid, final(event).uid, final(event).gid, pid_tgid, uid_gid),
        final(event).cgroup_id == cgroup_id,
        final(event).flags == flags,
        final(event).comm == comm,
        final(event).old_path == old(event).old_path,
        final(event).new_path == old(event).new_path,
        final(event).old_path_len == (match old_read_len {
            Some(n) => n as u32,
            None => 0u32,
        }),
        final(event).new_path_len == (match new_read_len {
            Some(n) => n as u32,
            None => 0u32,
        }),
{
    let (pid, tgid) = split_id_pair(pid_tgid);
    let (uid, gid) = split_id_pair(uid_gid);
    event.event_type = EVENT_FS_RENAME;
    event.pid = pid;
    event.tgid = tgid;
    event.uid = uid;
    event.gid = gid;
    event.cgroup_id = cgroup_id;
    event.flags = flags;
    event.comm = comm;
    event.old_path_len = 0;
    event.new_path_len = 0;
    if let Some(n) = old_read_len {
        event.old_path_len = n as u32;
    }
    if let Some(n) = new_read_len {
        event.new_path_len = n as u32;
    }
}

/// The bind record for socket `fd`; family, type and protocol are not read
/// and stay zero.
pub fn net_bind_event(fd: i32, pid_tgid: u64, uid_gid: u64, cgroup_id: u64, comm: [u8; NET_COMM_LEN]) -> (e: NetSocketEvent)
    ensures
        e.event_type == EVENT_NET_BIND,
        ids_match(e.pid, e.tgid, e.uid, e.gid, pid_tgid, uid_gid),
        e.cgroup_id == cgroup_id,
        e.fd == fd,
        e.family == 0 && e.socket_type == 0 && e.protocol == 0 && e._pad == 0,
        e.comm == comm,
{
    let (pid, tgid) = split_id_pair(pid_tgid);
    let (uid, gid) = split_id_pair(uid_gid);
    NetSocketEvent {
        event_type: EVENT_NET_BIND,
        pid,
        tgid,
        uid,
        gid,
        cgroup_id,
        fd,
        family: 0,
        socket_type: 0,
        protocol: 0,
        _pad: 0,
        comm,
    }
}

/// The values a socket-operations program reads from its context.
#[derive(Clone, Copy)]
pub struct SockOpsValues {
    pub family: u32,
    pub local_ip4: u32,
    pub local_ip6: [u32; 4],
    pub remote_ip4: u32,
    pub remote_ip6: [u32; 4],
    pub local_port: u32,
    pub remote_port: u32,
    pub op: u32,
    pub arg0: u32,
    pub arg1: u32,
    pub pid: u32,
    pub tgid: u32,
    pub uid: u32,
    pub gid: u32,
}

/// The socket metadata record: addresses by family, ports truncated to 16 bits,
/// everything else zero.
pub fn socket_metadata(v: SockOpsValues) -> (m: SocketMetadata)
    ensures
        (m.family, m.local_addr@) == address_slot(v.family, v.local_ip4, v.local_ip6@),
        m.remote_addr@ == address_slot(v.family, v.remote_ip4, v.remote_ip6@).1,
        m.local_port == v.local_port % 0x10000,
        m.remote_port == v.remote_port % 0x10000,
        m.pid == 0 && m.tgid == 0 && m.uid == 0 && m.gid == 0,
        m.protocol == 0 && m._pad@ == seq![0u8; 2] && m.socket_cookie == 0,
{
    let local = extract_address(v.family, v.local_ip4, v.local_ip6);
    let remote = extract_address(v.family, v.remote_ip4, v.remote_ip6);
    let mut metadata = SocketMetadata::zeroed();
    metadata.family = local.family;
    metadata.local_addr = local.address;
    metadata.remote_addr = remote.address;
    let lp = v.local_port;
    let rp = v.remote_port;
    assert(lp as u16 == lp % 0x10000) by (bit_vector);
    assert(rp as u16 == rp % 0x10000) by (bit_vector);
    metadata.local_port = lp as u16;
    metadata.remote_port = rp as u16;
    metadata
}

/// The TCP socket event: addresses by family, kind from the operation code,
/// old and new state from the low bytes of the first two arguments; cookie,
/// byte count and padding stay zero.
pub fn socket_event(v: SockOpsValues, timestamp_ns: u64) -> (e: SocketEvent)
    ensures
        e.timestamp_ns == timestamp_ns,
        e.pid == v.pid && e.tgid == v.tgid && e.uid == v.uid && e.gid == v.gid,
        (e.family, e.local_addr@) == address_slot(v.family, v.local_ip4, v.local_ip6@),
        e.remote_addr@ == address_slot(v.family, v.remote_ip4, v.remote_ip6@).1,
        e.protocol == TransportProtocol::Tcp,
        e.kind == sock_op_kind(v.op),
        e.local_port == v.local_port % 0x10000,
        e.remote_port == v.remote_port % 0x10000,
        e.old_state == v.arg0 % 256,
        e.new_state == v.arg1 % 256,
        e.socket_cookie == 0 && e.bytes == 0 && e._pad@ == seq![0u8; 2],
{
    let mut event = SocketEvent::zeroed();
    let local = extract_address(v.family, v.local_ip4, v.local_ip6);
    let remote = extract_address(v.family, v.remote_ip4, v.remote_ip6);
    event.timestamp_ns = timestamp_ns;
    event.pid = v.pid;
    event.tgid = v.tgid;
    event.uid = v.uid;
    event.gid = v.gid;
    event.family = local.family;
    event.protocol = TransportProtocol::Tcp;
    event.kind = classify_sock_op(v.op);
    event.local_addr = local.address;
    event.remote_addr = remote.address;
    let lp = v.local_port;
    let rp = v.remote_port;
    let a0 = v.arg0;
    let a1 = v.arg1;
    assert(lp as u16 == lp % 0x10000) by (bit_vector);
    assert(rp as u16 == rp % 0x10000) by (bit_vector);
    assert(a0 as u8 == a0 % 256) by (bit_vector);
    assert(a1 as u8 == a1 % 256) by (bit_vector);
    event.local_port = lp as u16;
    event.remote_port = rp as u16;
    event.old_state = a0 as u8;
    event.new_state = a1 as u8;
    event
}

/// Fills the UDP scratch record in place: time, identity, kind and protocol
/// are set, the family is reset to `Unknown` and the padding to zero; the
/// other fields keep what the scratch slot held.
pub fn fill_udp_event(
    event: &mut SocketEvent,
    timestamp_ns: u64,
    pid: u32,
    tgid: u32,
    uid: u32,
    gid: u32,
    kind: SocketEventKind,
)
    ensures
        final(event).timestamp_ns == timestamp_ns,
        final(event).pid == pid && final(event).tgid == tgid,
        final(event).uid == uid && final(event).gid == gid,
        final(event).family == AddressFamily::Unknown,
        final(event).protocol == TransportProtocol::Udp,
        final(event).kind == kind,
        final(event)._pad@ == seq![0u8; 2],
        final(event).socket_cookie == old(event).socket_cookie,
        final(event).old_state == old(event).old_state,
        final(event).new_state == old(event).new_state,
        final(event).local_port == old(event).local_port,
        final(event).remote_port == old(event).remote_port,
        final(event).local_addr == old(event).local_addr,
        final(event).remote_addr == old(event).remote_addr,
        final(event).bytes == old(event).bytes,
{
    event.timestamp_ns = timestamp_ns;
    event.pid = pid;
    event.tgid = tgid;
    event.uid = uid;
    event.gid = gid;
    event.family = AddressFamily::Unknown;
    event.protocol = TransportProtocol::Udp;
    event.kind = kind;
    event._pad = [0u8; 2];
    assert(event._pad@ =~= seq![0u8; 2]);
}

/// Splitting a packed identifier pair loses nothing: the low half plus the
/// high half times 2^32 is the packed value.
pub proof fn lemma_id_pair_reassembles(packed: u64)
    ensures
        packed % 0x1_0000_0000 + (packed / 0x1_0000_0000) * 0x1_0000_0000 == packed,
{
}

/// The single-family extractors agree with `extract_address`: each gives an
/// address exactly when the family is its own, and then the same address.
pub proof fn lemma_extractors_agree(family: u32, ipv4: u32, ipv6: Seq<u32>)
    ensures
        family_of(family) == AddressFamily::IPv4 ==> address_slot(family, ipv4, ipv6) == (
            AddressFamily::IPv4,
            be_bytes(ipv4) + seq![0u8; 12],
        ),
        family_of(family) == AddressFamily::IPv6 ==> address_slot(family, ipv4, ipv6) == (
            AddressFamily::IPv6,
            ipv6_bytes(ipv6),
        ),
        family_of(family) == AddressFamily::Unknown ==> address_slot(family, ipv4, ipv6).1 == seq![0u8; 16],
{
}

/// The metadata record of the socket-operations probe: the socket metadata
/// with the calling task's pid and tgid taken from the packed helper value.
pub fn probe_socket_metadata(v: SockOpsValues, pid_tgid: u64) -> (m: SocketMetadata)
    ensures
        (m.family, m.local_addr@) == address_slot(v.family, v.local_ip4, v.local_ip6@),
        m.remote_addr@ == address_slot(v.family, v.remote_ip4, v.remote_ip6@).1,
        m.local_port == v.local_port % 0x10000,
        m.remote_port == v.remote_port % 0x10000,
        m.pid == pid_tgid % 0x1_0000_0000 && m.tgid == pid_tgid / 0x1_0000_0000,
        m.uid == 0 && m.gid == 0,
        m.protocol == 0 && m._pad@ == seq![0u8; 2] && m.socket_cookie == 0,
{
    let mut metadata = socket_metadata(v);
    let (pid, tgid) = split_id_pair(pid_tgid);
    metadata.pid = pid;
    metadata.tgid = tgid;
    metadata
}

/// Return code of a UDP probe: 0 when an event was produced, 1 when the
/// scratch slot was unavailable.
pub fn udp_probe_status(produced: bool) -> (r: u32)
    ensures
        r == (if produced { 0u32 } else { 1u32 }),
{
    if produced { 0 } else { 1 }
}

} // verus!
