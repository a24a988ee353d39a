//! Decoding of the records that the tracing probes place in the shared ring
//! buffer: a four-byte header (kind, size) followed by the payload, each
//! integer in the machine's native byte order.
use vstd::prelude::*;
use crate::probe;

verus! {

/// Event kind code of a socket event in the record header.
pub const EVENT_TYPE_SOCKET: u16 = 1;

/// Size of the record header: a 16-bit kind and a 16-bit payload size.
pub const EVENT_HEADER_SIZE: usize = 4;

/// Size of the kernel's socket event record.
pub const SOCKET_EVENT_SIZE: usize = 80;

/// The byte order in which integers are read.
#[derive(Clone, Copy, PartialEq, Eq, Structural)]
pub enum ByteOrder {
    Little,
    Big,
}

/// The value of two bytes read in `order`.
pub open spec fn u16_value(b: Seq<u8>, order: ByteOrder) -> int {
    match order {
        ByteOrder::Little => b[0] + b[1] * 0x100,
        ByteOrder::Big => b[1] + b[0] * 0x100,
    }
}

/// The value of four bytes read in `order`.
pub open spec fn u32_value(b: Seq<u8>, order: ByteOrder) -> int {
    match order {
        ByteOrder::Little => b[0] + b[1] * 0x100 + b[2] * 0x1_0000 + b[3] * 0x100_0000,
        ByteOrder::Big => b[3] + b[2] * 0x100 + b[1] * 0x1_0000 + b[0] * 0x100_0000,
    }
}

/// The value of eight bytes read in `order`.
pub open spec fn u64_value(b: Seq<u8>, order: ByteOrder) -> int {
    match order {
        ByteOrder::Little => b[0] + b[1] * 0x100 + b[2] * 0x1_0000 + b[3] * 0x100_0000
            + b[4] * 0x1_0000_0000 + b[5] * 0x100_0000_0000 + b[6] * 0x1_0000_0000_0000
            + b[7] * 0x100_0000_0000_0000,
        ByteOrder::Big => b[7] + b[6] * 0x100 + b[5] * 0x1_0000 + b[4] * 0x100_0000
            + b[3] * 0x1_0000_0000 + b[2] * 0x100_0000_0000 + b[1] * 0x1_0000_0000_0000
            + b[0] * 0x100_0000_0000_0000,
    }
}

/// `u16::from_ne_bytes`: the two bytes read in the machine's native byte
/// order. The contract states only that the value is the little-endian or
/// the big-endian reading; which one depends on the machine.
#[verifier::external_body]
fn u16_from_native_bytes(b: [u8; 2]) -> (r: u16)
    ensures
        r == u16_value(b@, ByteOrder::Little) || r == u16_value(b@, ByteOrder::Big),
{
    u16::from_ne_bytes(b)
}

/// The machine's native byte order, found by reading the bytes `[1, 0]`
/// natively: that gives 1 exactly on a little-endian machine.
pub fn native_byte_order() -> (order: ByteOrder) {
    let probe = u16_from_native_bytes([1u8, 0u8]);
    if probe == 1 {
        ByteOrder::Little
    } else {
        ByteOrder::Big
    }
}

/// Reads a 16-bit value at `offset` in the given byte order; `None` when the
/// two bytes are not all inside `data`.
pub fn read_u16_in(data: &[u8], offset: usize, order: ByteOrder) -> (r: Option<u16>)
    requires
        offset <= usize::MAX - 2,
    ensures
        r is Some <==> offset + 2 <= data@.len(),
        r matches Some(v) ==> v == u16_value(data@.subrange(offset as int, offset + 2), order),
{
    if offset + 2 > data.len() {
        return None;
    }
    let b0 = data[offset] as u16;
    let b1 = data[offset + 1] as u16;
    let v = match order {
        ByteOrder::Little => b0 + b1 * 0x100,
        ByteOrder::Big => b1 + b0 * 0x100,
    };
    Some(v)
}

/// Reads a 32-bit value at `offset` in the given byte order; `None` when the
/// four bytes are not all inside `data`.
pub fn read_u32_in(data: &[u8], offset: usize, order: ByteOrder) -> (r: Option<u32>)
    requires
        offset <= usize::MAX - 4,
    ensures
        r is Some <==> offset + 4 <= data@.len(),
        r matches Some(v) ==> v == u32_value(data@.subrange(offset as int, offset + 4), order),
{
    if offset + 4 > data.len() {
        return None;
    }
    let b0 = data[offset] as u32;
    let b1 = data[offset + 1] as u32;
    let b2 = data[offset + 2] as u32;
    let b3 = data[offset + 3] as u32;
    let v = match order {
        ByteOrder::Little => b0 + b1 * 0x100 + b2 * 0x1_0000 + b3 * 0x100_0000,
        ByteOrder::Big => b3 + b2 * 0x100 + b1 * 0x1_0000 + b0 * 0x100_0000,
    };
    Some(v)
}

/// Reads a 64-bit value at `offset` in the given byte order; `None` when the
/// eight bytes are not all inside `data`.
pub fn read_u64_in(data: &[u8], offset: usize, order: ByteOrder) -> (r: Option<u64>)
    requires
        offset <= usize::MAX - 8,
    ensures
        r is Some <==> offset + 8 <= data@.len(),
        r matches Some(v) ==> v == u64_value(data@.subrange(offset as int, offset + 8), order),
{
    if offset + 8 > data.len() {
        return None;
    }
    let b0 = data[offset] as u64;
    let b1 = data[offset + 1] as u64;
    let b2 = data[offset + 2] as u64;
    let b3 = data[offset + 3] as u64;
    let b4 = data[offset + 4] as u64;
    let b5 = data[offset + 5] as u64;
    let b6 = data[offset + 6] as u64;
    let b7 = data[offset + 7] as u64;
    let v = match order {
        ByteOrder::Little => b0 + b1 * 0x100 + b2 * 0x1_0000 + b3 * 0x100_0000 + b4
            * 0x1_0000_0000 + b5 * 0x100_0000_0000 + b6 * 0x1_0000_0000_0000 + b7
            * 0x100_0000_0000_0000,
        ByteOrder::Big => b7 + b6 * 0x100 + b5 * 0x1_0000 + b4 * 0x100_0000 + b3
            * 0x1_0000_0000 + b2 * 0x100_0000_0000 + b1 * 0x1_0000_0000_0000 + b0
            * 0x100_0000_0000_0000,
    };
    Some(v)
}

/// Reads a 16-bit value at `offset` in the machine's native byte order.
pub fn read_u16(data: &[u8], offset: usize) -> (r: Option<u16>)
    requires
        offset <= usize::MAX - 2,
    ensures
        r is Some <==> offset + 2 <= data@.len(),
        r matches Some(v) ==> v == u16_value(data@.subrange(offset as int, offset + 2), ByteOrder::Little)
            || v == u16_value(data@.subrange(offset as int, offset + 2), ByteOrder::Big),
{
    read_u16_in(data, offset, native_byte_order())
}

/// Reads a 32-bit value at `offset` in the machine's native byte order.
pub fn read_u32(data: &[u8], offset: usize) -> (r: Option<u32>)
    requires
        offset <= usize::MAX - 4,
    ensures
        r is Some <==> offset + 4 <= data@.len(),
        r matches Some(v) ==> v == u32_value(data@.subrange(offset as int, offset + 4), ByteOrder::Little)
            || v == u32_value(data@.subrange(offset as int, offset + 4), ByteOrder::Big),
{
    read_u32_in(data, offset, native_byte_order())
}

/// Reads a 64-bit value at `offset` in the machine's native byte order.
pub fn read_u64(data: &[u8], offset: usize) -> (r: Option<u64>)
    requires
        offset <= usize::MAX - 8,
    ensures
        r is Some <==> offset + 8 <= data@.len(),
        r matches Some(v) ==> v == u64_value(data@.subrange(offset as int, offset + 8), ByteOrder::Little)
            || v == u64_value(data@.subrange(offset as int, offset + 8), ByteOrder::Big),
{
    read_u64_in(data, offset, native_byte_order())
}

/// Address family of a decoded socket event.
#[derive(Clone, Copy, PartialEq, Eq, Structural, Debug)]
pub enum AddressFamily {
    Unknown,
    IPv4,
    IPv6,
}

/// The family a raw family byte stands for: 4 is IPv4, 6 is IPv6.
pub open spec fn family_from(value: u8) -> AddressFamily {
    if value == 4 {
        AddressFamily::IPv4
    } else if value == 6 {
        AddressFamily::IPv6
    } else {
        AddressFamily::Unknown
    }
}

impl AddressFamily {
    pub fn from_raw(value: u8) -> (r: Self)
        ensures
            r == family_from(value),
    {
        match value {
            4 => AddressFamily::IPv4,
            6 => AddressFamily::IPv6,
            _ => AddressFamily::Unknown,
        }
    }
}

/// Transport protocol of a decoded socket event.
#[derive(Clone, Copy, PartialEq, Eq, Structural, Debug)]
pub enum TransportProtocol {
    Unknown,
    Tcp,
    Udp,
}

/// The protocol a raw protocol byte stands for: 6 is TCP, 17 is UDP.
pub open spec fn protocol_from(value: u8) -> TransportProtocol {
    if value == 6 {
        TransportProtocol::Tcp
    } else if value == 17 {
        TransportProtocol::Udp
    } else {
        TransportProtocol::Unknown
    }
}

impl TransportProtocol {
    pub fn from_raw(value: u8) -> (r: Self)
        ensures
            r == protocol_from(value),
    {
        match value {
            6 => TransportProtocol::Tcp,
            17 => TransportProtocol::Udp,
            _ => TransportProtocol::Unknown,
        }
    }
}

/// What happened on the socket of a decoded event.
#[derive(Clone, Copy, PartialEq, Eq, Structural, Debug)]
pub enum SocketEventKind {
    Unknown,
    TcpConnect,
    TcpPassiveEstablished,
    TcpListen,
    TcpStateChange,
    TcpClose,
    UdpSend,
    UdpReceive,
    UdpBind,
    UdpConnect,
}

/// The kind a raw kind byte stands for: 1 to 5 are the TCP kinds, 10 to 13 the
/// UDP kinds, anything else is unknown.
pub open spec fn kind_from(value: u8) -> SocketEventKind {
    if value == 1 {
        SocketEventKind::TcpConnect
    } else if value == 2 {
        SocketEventKind::TcpPassiveEstablished
    } else if value == 3 {
        SocketEventKind::TcpListen
    } else if value == 4 {
        SocketEventKind::TcpStateChange
    } else if value == 5 {
        SocketEventKind::TcpClose
    } else if value == 10 {
        SocketEventKind::UdpSend
    } else if value == 11 {
        SocketEventKind::UdpReceive
    } else if value == 12 {
        SocketEventKind::UdpBind
    } else if value == 13 {
        SocketEventKind::UdpConnect
    } else {
        SocketEventKind::Unknown
    }
}

impl SocketEventKind {
    pub fn from_raw(value: u8) -> (r: Self)
        ensures
            r == kind_from(value),
    {
        match value {
            1 => SocketEventKind::TcpConnect,
            2 => SocketEventKind::TcpPassiveEstablished,
            3 => SocketEventKind::TcpListen,
            4 => SocketEventKind::TcpStateChange,
            5 => SocketEventKind::TcpClose,
            10 => SocketEventKind::UdpSend,
            11 => SocketEventKind::UdpReceive,
            12 => SocketEventKind::UdpBind,
            13 => SocketEventKind::UdpConnect,
            _ => SocketEventKind::Unknown,
        }
    }
}

/// A socket event as decoded in user space.
#[derive(Clone, Debug)]
pub struct SocketEvent {
    pub timestamp_ns: u64,
    pub pid: u32,
    pub tgid: u32,
    pub uid: u32,
    pub gid: u32,
    pub socket_cookie: u64,
    pub family: AddressFamily,
    pub protocol: TransportProtocol,
    pub kind: SocketEventKind,
    pub old_state: u8,
    pub new_state: u8,
    pub local_port: u16,
    pub remote_port: u16,
    pub local_addr: [u8; 16],
    pub remote_addr: [u8; 16],
    pub bytes: u64,
}

/// A decoded ring-buffer record.
#[derive(Debug)]
pub enum BpfEvent {
    Socket(SocketEvent),
    Unknown { event_type: u16, data: Vec<u8> },
}

/// Whether a socket-event payload can be decoded: the header must announce at
/// least a whole record, and the payload must hold the byte counter that ends
/// at offset 88.
pub open spec fn socket_event_decodable(data: Seq<u8>, event_size: int) -> bool {
    event_size >= SOCKET_EVENT_SIZE && data.len() >= 88
}

/// The field layout of the kernel's socket record (the probe's `repr(C)`
/// `SocketEvent`): the decoded event `e` holds what `data` holds at each
/// field's offset, integers read in `order`. The five one-byte fields at 32
/// are followed by two pad bytes and one alignment byte, so the ports sit at
/// 40 and 42, the addresses at 44 and 60, and after four alignment bytes the
/// byte counter at 80.
pub open spec fn socket_event_fields(e: SocketEvent, data: Seq<u8>, order: ByteOrder) -> bool {
    &&& e.timestamp_ns == u64_value(data.subrange(0, 8), order)
    &&& e.pid == u32_value(data.subrange(8, 12), order)
    &&& e.tgid == u32_value(data.subrange(12, 16), order)
    &&& e.uid == u32_value(data.subrange(16, 20), order)
    &&& e.gid == u32_value(data.subrange(20, 24), order)
    &&& e.socket_cookie == u64_value(data.subrange(24, 32), order)
    &&& e.family == family_from(data[32])
    &&& e.protocol == protocol_from(data[33])
    &&& e.kind == kind_from(data[34])
    &&& e.old_state == data[35]
    &&& e.new_state == data[36]
    &&& e.local_port == u16_value(data.subrange(40, 42), order)
    &&& e.remote_port == u16_value(data.subrange(42, 44), order)
    &&& e.local_addr@ == data.subrange(44, 60)
    &&& e.remote_addr@ == data.subrange(60, 76)
    &&& e.bytes == u64_value(data.subrange(80, 88), order)
}

/// Copies the sixteen bytes at `data[at..at + 16]`.
fn copy16(data: &[u8], at: usize) -> (r: [u8; 16])
    requires
        at + 16 <= data@.len(),
    ensures
        r@ == data@.subrange(at as int, at + 16),
{
    let mut r = [0u8; 16];
    let mut i: usize = 0;
    while i < 16
        invariant
            i <= 16,
            at + 16 <= data.len(),
            forall|j: int| 0 <= j < i ==> r@[j] == data@[at + j],
        decreases 16 - i,
    {
        r[i] = data[at + i];
        i += 1;
    }
    assert(r@ =~= data@.subrange(at as int, at + 16));
    r
}

/// Decodes a socket event payload with integers in the given byte order.
pub fn parse_socket_event_in(data: &[u8], event_size: usize, order: ByteOrder) -> (r: Option<SocketEvent>)
    ensures
        r is Some <==> socket_event_decodable(data@, event_size as int),
        r matches Some(e) ==> socket_event_fields(e, data@, order),
{
    if event_size < SOCKET_EVENT_SIZE {
        return None;
    }
    let bytes = match read_u64_in(data, 80, order) {
        Some(v) => v,
        None => return None,
    };
    let timestamp_ns = read_u64_in(data, 0, order).unwrap();
    let pid = read_u32_in(data, 8, order).unwrap();
    let tgid = read_u32_in(data, 12, order).unwrap();
    let uid = read_u32_in(data, 16, order).unwrap();
    let gid = read_u32_in(data, 20, order).unwrap();
    let socket_cookie = read_u64_in(data, 24, order).unwrap();
    let family = AddressFamily::from_raw(data[32]);
    let protocol = TransportProtocol::from_raw(data[33]);
    let kind = SocketEventKind::from_raw(data[34]);
    let old_state = data[35];
    let new_state = data[36];
    let local_port = read_u16_in(data, 40, order).unwrap();
    let remote_port = read_u16_in(data, 42, order).unwrap();
    let local_addr = copy16(data, 44);
    let remote_addr = copy16(data, 60);
    Some(SocketEvent {
        timestamp_ns,
        pid,
        tgid,
        uid,
        gid,
        socket_cookie,
        family,
        protocol,
        kind,
        old_state,
        new_state,
        local_port,
        remote_port,
        local_addr,
        remote_addr,
        bytes,
    })
}

/// Decodes a socket event payload with integers in the machine's native byte order.
pub fn parse_socket_event(data: &[u8], event_size: usize) -> (r: Option<SocketEvent>)
    ensures
        r is Some <==> socket_event_decodable(data@, event_size as int),
        r matches Some(e) ==> socket_event_fields(e, data@, ByteOrder::Little) || socket_event_fields(
            e,
            data@,
            ByteOrder::Big,
        ),
{
    parse_socket_event_in(data, event_size, native_byte_order())
}

/// The bytes of a 16-bit value in `order`.
pub open spec fn u16_bytes(v: u16, order: ByteOrder) -> Seq<u8> {
    let le = seq![(v % 0x100) as u8, (v / 0x100) as u8];
    match order {
        ByteOrder::Little => le,
        ByteOrder::Big => le.reverse(),
    }
}

/// The bytes of a 32-bit value in `order`.
pub open spec fn u32_bytes(v: u32, order: ByteOrder) -> Seq<u8> {
    let le = seq![
        (v % 0x100) as u8,
        ((v / 0x100) % 0x100) as u8,
        ((v / 0x1_0000) % 0x100) as u8,
        (v / 0x100_0000) as u8,
    ];
    match order {
        ByteOrder::Little => le,
        ByteOrder::Big => le.reverse(),
    }
}

/// The bytes of a 64-bit value in `order`.
pub open spec fn u64_bytes(v: u64, order: ByteOrder) -> Seq<u8> {
    let le = seq![
        (v % 0x100) as u8,
        ((v / 0x100) % 0x100) as u8,
        ((v / 0x1_0000) % 0x100) as u8,
        ((v / 0x100_0000) % 0x100) as u8,
        ((v / 0x1_0000_0000) % 0x100) as u8,
        ((v / 0x100_0000_0000) % 0x100) as u8,
        ((v / 0x1_0000_0000_0000) % 0x100) as u8,
        (v / 0x100_0000_0000_0000) as u8,
    ];
    match order {
        ByteOrder::Little => le,
        ByteOrder::Big => le.reverse(),
    }
}

/// `data` holds the probe's socket record `ev` as the probe writes it
/// (`repr(C)`, integers in `order`); the alignment bytes at 39 and 76..80 may
/// hold anything.
pub open spec fn probe_record_layout(data: Seq<u8>, ev: probe::SocketEvent, order: ByteOrder) -> bool {
    &&& data.len() == 88
    &&& data.subrange(0, 8) == u64_bytes(ev.timestamp_ns, order)
    &&& data.subrange(8, 12) == u32_bytes(ev.pid, order)
    &&& data.subrange(12, 16) == u32_bytes(ev.tgid, order)
    &&& data.subrange(16, 20) == u32_bytes(ev.uid, order)
    &&& data.subrange(20, 24) == u32_bytes(ev.gid, order)
    &&& data.subrange(24, 32) == u64_bytes(ev.socket_cookie, order)
    &&& data[32] == probe::family_code(ev.family)
    &&& data[33] == probe::protocol_code(ev.protocol)
    &&& data[34] == probe::kind_code(ev.kind)
    &&& data[35] == ev.old_state
    &&& data[36] == ev.new_state
    &&& data.subrange(37, 39) == ev._pad@
    &&& data.subrange(40, 42) == u16_bytes(ev.local_port, order)
    &&& data.subrange(42, 44) == u16_bytes(ev.remote_port, order)
    &&& data.subrange(44, 60) == ev.local_addr@
    &&& data.subrange(60, 76) == ev.remote_addr@
    &&& data.subrange(80, 88) == u64_bytes(ev.bytes, order)
}

/// The user-side family for the probe's family.
pub open spec fn decoded_family(f: probe::AddressFamily) -> AddressFamily {
    match f {
        probe::AddressFamily::Unknown => AddressFamily::Unknown,
        probe::AddressFamily::IPv4 => AddressFamily::IPv4,
        probe::AddressFamily::IPv6 => AddressFamily::IPv6,
    }
}

/// The user-side protocol for the probe's protocol.
pub open spec fn decoded_protocol(p: probe::TransportProtocol) -> TransportProtocol {
    match p {
        probe::TransportProtocol::Unknown => TransportProtocol::Unknown,
        probe::TransportProtocol::Tcp => TransportProtocol::Tcp,
        probe::TransportProtocol::Udp => TransportProtocol::Udp,
    }
}

/// The user-side kind for the probe's kind.
pub open spec fn decoded_kind(k: probe::SocketEventKind) -> SocketEventKind {
    match k {
        probe::SocketEventKind::Unknown => SocketEventKind::Unknown,
        probe::SocketEventKind::TcpConnect => SocketEventKind::TcpConnect,
        probe::SocketEventKind::TcpPassiveEstablished => SocketEventKind::TcpPassiveEstablished,
        probe::SocketEventKind::TcpListen => SocketEventKind::TcpListen,
        probe::SocketEventKind::TcpStateChange => SocketEventKind::TcpStateChange,
        probe::SocketEventKind::TcpClose => SocketEventKind::TcpClose,
        probe::SocketEventKind::UdpSend => SocketEventKind::UdpSend,
        probe::SocketEventKind::UdpReceive => SocketEventKind::UdpReceive,
        probe::SocketEventKind::UdpBind => SocketEventKind::UdpBind,
        probe::SocketEventKind::UdpConnect => SocketEventKind::UdpConnect,
    }
}

proof fn lemma_u16_bytes(v: u16, order: ByteOrder)
    ensures
        u16_value(u16_bytes(v, order), order) == v,
{
    assert(((v % 0x100) as u8) + ((v / 0x100) as u8) * 0x100 == v) by (bit_vector);
}

proof fn lemma_u32_bytes(v: u32, order: ByteOrder)
    ensures
        u32_value(u32_bytes(v, order), order) == v,
{
    assert(((v % 0x100) as u8) + (((v / 0x100) % 0x100) as u8) * 0x100 + (((v / 0x1_0000) % 0x100) as u8)
        * 0x1_0000 + ((v / 0x100_0000) as u8) * 0x100_0000 == v) by (bit_vector);
}

proof fn lemma_u64_bytes(v: u64, order: ByteOrder)
    ensures
        u64_value(u64_bytes(v, order), order) == v,
{
    assert(((v % 0x100) as u8) + (((v / 0x100) % 0x100) as u8) * 0x100 + (((v / 0x1_0000) % 0x100) as u8)
        * 0x1_0000 + (((v / 0x100_0000) % 0x100) as u8) * 0x100_0000 + (((v / 0x1_0000_0000) % 0x100) as u8)
        * 0x1_0000_0000 + (((v / 0x100_0000_0000) % 0x100) as u8) * 0x100_0000_0000 + (((v
        / 0x1_0000_0000_0000) % 0x100) as u8) * 0x1_0000_0000_0000 + ((v / 0x100_0000_0000_0000) as u8)
        * 0x100_0000_0000_0000 == v) by (bit_vector);
}

/// Decoding the bytes of a probe socket record gives back the record: the
/// record can be decoded, and every decoded field is the probe's field (the
/// enumerations mapped variant for variant).
pub proof fn lemma_decode_probe_record(data: Seq<u8>, ev: probe::SocketEvent, order: ByteOrder, e: SocketEvent)
    requires
        probe_record_layout(data, ev, order),
        socket_event_fields(e, data, order),
    ensures
        socket_event_decodable(data, SOCKET_EVENT_SIZE as int),
        e.timestamp_ns == ev.timestamp_ns,
        e.pid == ev.pid && e.tgid == ev.tgid && e.uid == ev.uid && e.gid == ev.gid,
        e.socket_cookie == ev.socket_cookie,
        e.family == decoded_family(ev.family),
        e.protocol == decoded_protocol(ev.protocol),
        e.kind == decoded_kind(ev.kind),
        e.old_state == ev.old_state && e.new_state == ev.new_state,
        e.local_port == ev.local_port && e.remote_port == ev.remote_port,
        e.local_addr@ == ev.local_addr@ && e.remote_addr@ == ev.remote_addr@,
        e.bytes == ev.bytes,
{
    lemma_u64_bytes(ev.timestamp_ns, order);
    lemma_u32_bytes(ev.pid, order);
    lemma_u32_bytes(ev.tgid, order);
    lemma_u32_bytes(ev.uid, order);
    lemma_u32_bytes(ev.gid, order);
    lemma_u64_bytes(ev.socket_cookie, order);
    lemma_u16_bytes(ev.local_port, order);
    lemma_u16_bytes(ev.remote_port, order);
    lemma_u64_bytes(ev.bytes, order);
}

/// What decoding a whole record gives, integers read in `order`: nothing for a
/// record shorter than its header or whose announced size exceeds the payload;
/// a socket event for kind 1 when its payload decodes; an unknown record
/// carrying the raw payload for every other kind.
pub open spec fn event_decodes_to(r: Option<BpfEvent>, data: Seq<u8>, order: ByteOrder) -> bool {
    if data.len() < EVENT_HEADER_SIZE {
        r is None
    } else {
        let kind = u16_value(data.subrange(0, 2), order);
        let size = u16_value(data.subrange(2, 4), order);
        let payload = data.subrange(4, data.len() as int);
        if size > data.len() - EVENT_HEADER_SIZE {
            r is None
        } else if kind == EVENT_TYPE_SOCKET {
            match r {
                None => !socket_event_decodable(payload, size),
                Some(BpfEvent::Socket(e)) => socket_event_decodable(payload, size)
                    && socket_event_fields(e, payload, order),
                Some(BpfEvent::Unknown { .. }) => false,
            }
        } else {
            match r {
                Some(BpfEvent::Unknown { event_type, data: d }) => event_type == kind && d@ == payload,
                _ => false,
            }
        }
    }
}

/// Copies `data[from..]` into a new vector.
fn copy_tail(data: &[u8], from: usize) -> (v: Vec<u8>)
    requires
        from <= data@.len(),
    ensures
        v@ == data@.subrange(from as int, data@.len() as int),
{
    let mut v: Vec<u8> = Vec::new();
    let mut i = from;
    while i < data.len()
        invariant
            from <= i <= data@.len(),
            v@ == data@.subrange(from as int, i as int),
        decreases data@.len() - i,
    {
        v.push(data[i]);
        i += 1;
        assert(v@ =~= data@.subrange(from as int, i as int));
    }
    v
}

/// Decodes one ring-buffer record with integers in the given byte order.
pub fn parse_event_in(data: &[u8], order: ByteOrder) -> (r: Option<BpfEvent>)
    ensures
        event_decodes_to(r, data@, order),
{
    if data.len() < EVENT_HEADER_SIZE {
        return None;
    }
    let event_type = read_u16_in(data, 0, order).unwrap();
    let event_size = read_u16_in(data, 2, order).unwrap() as usize;
    if event_size > data.len() - EVENT_HEADER_SIZE {
        return None;
    }
    let payload = copy_tail(data, EVENT_HEADER_SIZE);
    if event_type == EVENT_TYPE_SOCKET {
        match parse_socket_event_in(payload.as_slice(), event_size, order) {
            Some(e) => Some(BpfEvent::Socket(e)),
            None => None,
        }
    } else {
        Some(BpfEvent::Unknown { event_type, data: payload })
    }
}

/// Decodes one ring-buffer record with integers in the machine's native byte order.
pub fn parse_event(data: &[u8]) -> (r: Option<BpfEvent>)
    ensures
        event_decodes_to(r, data@, ByteOrder::Little) || event_decodes_to(r, data@, ByteOrder::Big),
{
    parse_event_in(data, native_byte_order())
}

} // verus!
