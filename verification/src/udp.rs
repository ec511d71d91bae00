use crate::perf::append_bytes;
use crate::perf::be16;
use crate::perf::be16_octets;
use crate::perf::push_be16;
use crate::perf::read_be16;
use crate::perf::ETHERTYPE_IPV4;
use crate::perf::ETHERTYPE_PERF;
use crate::perf::ETH_HEADER_LEN;
use vstd::prelude::*;
use vstd::slice::*;

verus! {

/// Octets of an IPv4 header without options.
pub const IPV4_HEADER_LEN: usize = 20;

/// Octets of a UDP header.
pub const UDP_HEADER_LEN: usize = 8;

/// Octets before the measurement packet in an Ethernet, IPv4 and UDP frame.
pub const UDP_PAYLOAD_AT: usize = 42;

/// The first octet of an IPv4 header without options: version four, five
/// words.
pub const IPV4_VERSION_IHL: u8 = 0x45;

/// The time to live that frames are sent with.
pub const IPV4_TTL: u8 = 0x40;

/// The protocol number of UDP.
pub const IP_PROTO_UDP: u8 = 17;

/// An IPv4 address.
#[derive(Clone, Copy, Debug, PartialEq, Eq, Structural)]
pub struct Ipv4 {
    pub a: u8,
    pub b: u8,
    pub c: u8,
    pub d: u8,
}

impl Ipv4 {
    /// The four octets in transmission order.
    pub open spec fn octets(self) -> Seq<u8> {
        seq![self.a, self.b, self.c, self.d]
    }

    /// The address held by four octets of a sequence.
    pub open spec fn at(s: Seq<u8>, i: int) -> Ipv4 {
        Ipv4 { a: s[i], b: s[i + 1], c: s[i + 2], d: s[i + 3] }
    }
}

/// The two ends of a UDP flow.
#[derive(Clone, Copy, Debug, PartialEq, Eq, Structural)]
pub struct UdpFlow {
    pub source: Ipv4,
    pub destination: Ipv4,
    pub source_port: u16,
    pub destination_port: u16,
}

impl UdpFlow {
    /// The flow in the other direction.
    pub open spec fn back(self) -> UdpFlow {
        UdpFlow {
            source: self.destination,
            destination: self.source,
            source_port: self.destination_port,
            destination_port: self.source_port,
        }
    }

    /// The flow in the other direction.
    pub fn reversed(&self) -> (f: UdpFlow)
        ensures
            f == self.back(),
    {
        UdpFlow {
            source: self.destination,
            destination: self.source,
            source_port: self.destination_port,
            destination_port: self.source_port,
        }
    }
}

/// The sum of the first `upto` 16-bit words of a header in network order,
/// without the word that holds the checksum.
pub open spec fn word_sum(header: Seq<u8>, upto: int) -> int
    decreases upto,
{
    if upto <= 0 {
        0
    } else {
        word_sum(header, upto - 1) + if upto - 1 == 5 {
            0
        } else {
            be16(header, 2 * (upto - 1))
        }
    }
}

/// A sum with what exceeds sixteen bits added back in until nothing does.
pub open spec fn folded(sum: int) -> int
    decreases sum,
{
    if sum < 0x1_0000 {
        sum
    } else {
        folded(sum / 0x1_0000 + sum % 0x1_0000)
    }
}

/// The checksum of an IPv4 header of twenty octets: the complement of the
/// folded sum of its words but the checksum's own.
pub open spec fn header_checksum(header: Seq<u8>) -> u16 {
    (0xffff - folded(word_sum(header, 10))) as u16
}

/// The checksum of an IPv4 header of twenty octets, by
/// `pnet::packet::ipv4::checksum`: it sums the header's ten 16-bit words in
/// network order but the fifth, which holds the checksum, adds what exceeds
/// sixteen bits back in until nothing does, and complements the result.
#[verifier::external_body]
fn ipv4_checksum(header: &[u8]) -> (c: u16)
    requires
        header@.len() == IPV4_HEADER_LEN,
    ensures
        c == header_checksum(header@),
{
    pnet::packet::ipv4::checksum(&pnet::packet::ipv4::Ipv4Packet::new(header).unwrap())
}

/// Draws an identification for an IPv4 header with `rand::random`. Nothing is
/// claimed of it.
#[verifier::external_body]
fn random_ident() -> (r: u16) {
    rand::random::<u16>()
}

/// An IPv4 header without options, with a checksum of `checksum`.
pub open spec fn ipv4_header_with(total_length: u16, ident: u16, flow: UdpFlow, checksum: u16) -> Seq<
    u8,
> {
    seq![IPV4_VERSION_IHL, 0u8] + be16_octets(total_length as int) + be16_octets(ident as int)
        + seq![0u8, 0u8, IPV4_TTL, IP_PROTO_UDP] + be16_octets(checksum as int)
        + flow.source.octets() + flow.destination.octets()
}

/// An IPv4 header without options for a UDP datagram, with its checksum.
pub open spec fn ipv4_header(total_length: u16, ident: u16, flow: UdpFlow) -> Seq<u8> {
    ipv4_header_with(
        total_length,
        ident,
        flow,
        header_checksum(ipv4_header_with(total_length, ident, flow, 0)),
    )
}

/// A UDP header without a checksum.
pub open spec fn udp_header(flow: UdpFlow, length: u16) -> Seq<u8> {
    be16_octets(flow.source_port as int) + be16_octets(flow.destination_port as int)
        + be16_octets(length as int) + seq![0u8, 0u8]
}

/// Whether a measurement frame can travel in a UDP datagram: it has its
/// Ethernet header, and the datagram's length fits in sixteen bits.
pub open spec fn wrappable(raw: Seq<u8>) -> bool {
    ETH_HEADER_LEN <= raw.len() <= 0xffff - IPV4_HEADER_LEN - UDP_HEADER_LEN + ETH_HEADER_LEN
}

/// The frame that carries the payload of a measurement frame in a UDP
/// datagram: the same addresses, the EtherType of IPv4, an IPv4 header, a
/// UDP header, and the payload unchanged.
pub open spec fn wrapped(raw: Seq<u8>, flow: UdpFlow, ident: u16) -> Seq<u8> {
    let payload = raw.subrange(ETH_HEADER_LEN as int, raw.len() as int);
    raw.subrange(0, 12) + be16_octets(ETHERTYPE_IPV4 as int) + ipv4_header(
        (IPV4_HEADER_LEN + UDP_HEADER_LEN + payload.len()) as u16,
        ident,
        flow,
    ) + udp_header(flow, (UDP_HEADER_LEN + payload.len()) as u16) + payload
}

fn push_ipv4(out: &mut Vec<u8>, a: Ipv4)
    ensures
        final(out)@ == old(out)@ + a.octets(),
{
    out.push(a.a);
    out.push(a.b);
    out.push(a.c);
    out.push(a.d);
    assert(out@ =~= old(out)@ + a.octets());
}

fn build_ipv4_header(total_length: u16, ident: u16, flow: UdpFlow, checksum: u16) -> (h: Vec<u8>)
    ensures
        h@ == ipv4_header_with(total_length, ident, flow, checksum),
        h@.len() == IPV4_HEADER_LEN,
{
    let mut h: Vec<u8> = Vec::new();
    h.push(IPV4_VERSION_IHL);
    h.push(0u8);
    push_be16(&mut h, total_length);
    push_be16(&mut h, ident);
    h.push(0u8);
    h.push(0u8);
    h.push(IPV4_TTL);
    h.push(IP_PROTO_UDP);
    push_be16(&mut h, checksum);
    push_ipv4(&mut h, flow.source);
    push_ipv4(&mut h, flow.destination);
    assert(h@ =~= ipv4_header_with(total_length, ident, flow, checksum));
    h
}

/// Wraps the payload of a measurement frame in a UDP datagram with this
/// identification. A frame that cannot travel so is refused.
pub fn encapsulate_with(raw: &[u8], flow: UdpFlow, ident: u16) -> (r: Option<Vec<u8>>)
    ensures
        match r {
            Some(f) => wrappable(raw@) && f@ == wrapped(raw@, flow, ident),
            None => !wrappable(raw@),
        },
{
    let n: usize = raw.len();
    if n < ETH_HEADER_LEN || n > 0xffff - IPV4_HEADER_LEN - UDP_HEADER_LEN + ETH_HEADER_LEN {
        return None;
    }
    let payload_len: usize = n - ETH_HEADER_LEN;
    let total_length: u16 = (IPV4_HEADER_LEN + UDP_HEADER_LEN + payload_len) as u16;
    let blank = build_ipv4_header(total_length, ident, flow, 0);
    let checksum: u16 = ipv4_checksum(blank.as_slice());
    let header = build_ipv4_header(total_length, ident, flow, checksum);
    let mut out: Vec<u8> = slice_to_vec(slice_subrange(raw, 0, 12));
    push_be16(&mut out, ETHERTYPE_IPV4);
    append_bytes(&mut out, header.as_slice());
    push_be16(&mut out, flow.source_port);
    push_be16(&mut out, flow.destination_port);
    push_be16(&mut out, (UDP_HEADER_LEN + payload_len) as u16);
    out.push(0u8);
    out.push(0u8);
    append_bytes(&mut out, slice_subrange(raw, ETH_HEADER_LEN, n));
    assert(out@ =~= wrapped(raw@, flow, ident));
    Some(out)
}

/// Wraps the payload of a measurement frame in a UDP datagram, with an
/// identification that chance picks.
pub fn encapsulate(raw: &[u8], flow: UdpFlow) -> (r: Option<Vec<u8>>)
    ensures
        match r {
            Some(f) => wrappable(raw@) && exists|ident: u16| f@ == wrapped(raw@, flow, ident),
            None => !wrappable(raw@),
        },
{
    let ident: u16 = random_ident();
    encapsulate_with(raw, flow, ident)
}

/// The flow of a frame that carries a UDP datagram in an IPv4 packet without
/// options; none for any other frame.
pub open spec fn flow_of(frame: Seq<u8>) -> Option<UdpFlow> {
    if frame.len() >= UDP_PAYLOAD_AT && be16(frame, 12) == ETHERTYPE_IPV4 && frame[14]
        == IPV4_VERSION_IHL && frame[23] == IP_PROTO_UDP {
        Some(
            UdpFlow {
                source: Ipv4::at(frame, 26),
                destination: Ipv4::at(frame, 30),
                source_port: be16(frame, 34) as u16,
                destination_port: be16(frame, 36) as u16,
            },
        )
    } else {
        None
    }
}

/// The measurement frame that a UDP datagram carries: the same addresses,
/// the measurement EtherType, and the datagram's payload.
pub open spec fn unwrapped(frame: Seq<u8>) -> Seq<u8> {
    frame.subrange(0, 12) + be16_octets(ETHERTYPE_PERF as int) + frame.subrange(
        UDP_PAYLOAD_AT as int,
        frame.len() as int,
    )
}

/// Reads the flow of a received frame.
pub fn read_flow(frame: &[u8]) -> (r: Option<UdpFlow>)
    ensures
        r == flow_of(frame@),
{
    if frame.len() < UDP_PAYLOAD_AT {
        return None;
    }
    if read_be16(frame, 12) != ETHERTYPE_IPV4 || frame[14] != IPV4_VERSION_IHL || frame[23]
        != IP_PROTO_UDP {
        return None;
    }
    Some(
        UdpFlow {
            source: Ipv4 { a: frame[26], b: frame[27], c: frame[28], d: frame[29] },
            destination: Ipv4 { a: frame[30], b: frame[31], c: frame[32], d: frame[33] },
            source_port: read_be16(frame, 34),
            destination_port: read_be16(frame, 36),
        },
    )
}

/// Takes the measurement frame out of a received frame that carries a UDP
/// datagram to `port`, or to any port where none is given. Any other frame
/// carries none.
pub fn decapsulate(frame: &[u8], port: Option<u16>) -> (r: Option<Vec<u8>>)
    ensures
        match r {
            Some(raw) => raw@ == unwrapped(frame@) && flow_of(frame@) is Some && (port
                matches Some(p) ==> flow_of(frame@)->0.destination_port == p),
            None => flow_of(frame@) is None || (port matches Some(p) && flow_of(
                frame@,
            )->0.destination_port != p),
        },
{
    let flow = match read_flow(frame) {
        Some(f) => f,
        None => {
            return None;
        },
    };
    match port {
        Some(p) => {
            if flow.destination_port != p {
                return None;
            }
        },
        None => {},
    }
    let mut out: Vec<u8> = slice_to_vec(slice_subrange(frame, 0, 12));
    push_be16(&mut out, ETHERTYPE_PERF);
    append_bytes(&mut out, slice_subrange(frame, UDP_PAYLOAD_AT, frame.len()));
    assert(out@ =~= unwrapped(frame@));
    Some(out)
}

/// A measurement frame that was wrapped is what unwrapping gives back, and
/// the wrapping frame has the flow it was given.
pub proof fn lemma_unwrap_wrapped(raw: Seq<u8>, flow: UdpFlow, ident: u16)
    requires
        wrappable(raw),
        be16(raw, 12) == ETHERTYPE_PERF,
    ensures
        wrapped(raw, flow, ident).len() == raw.len() + IPV4_HEADER_LEN + UDP_HEADER_LEN,
        flow_of(wrapped(raw, flow, ident)) == Some(flow),
        unwrapped(wrapped(raw, flow, ident)) == raw,
{
    let payload = raw.subrange(ETH_HEADER_LEN as int, raw.len() as int);
    let total = (IPV4_HEADER_LEN + UDP_HEADER_LEN + payload.len()) as u16;
    let ip = ipv4_header(total, ident, flow);
    let udp = udp_header(flow, (UDP_HEADER_LEN + payload.len()) as u16);
    let head = raw.subrange(0, 12) + be16_octets(ETHERTYPE_IPV4 as int);
    let f = wrapped(raw, flow, ident);
    assert(ip.len() == 20);
    assert(udp.len() == 8);
    assert(head.len() == 14);
    assert(f =~= head + ip + udp + payload);
    assert(f.len() == 42 + payload.len());
    assert(f[12] == head[12] && f[13] == head[13]);
    assert(forall|i: int| 0 <= i < 20 ==> f[14 + i] == ip[i]);
    assert(f[14] == ip[0]);
    assert(f[23] == ip[9]);
    assert(f[26] == ip[12] && f[27] == ip[13] && f[28] == ip[14] && f[29] == ip[15]);
    assert(f[30] == ip[16] && f[31] == ip[17] && f[32] == ip[18] && f[33] == ip[19]);
    assert(forall|i: int| 0 <= i < 8 ==> f[34 + i] == udp[i]);
    assert(f[34] == udp[0] && f[35] == udp[1] && f[36] == udp[2] && f[37] == udp[3]);
    assert(f.subrange(0, 12) =~= raw.subrange(0, 12));
    assert(f.subrange(UDP_PAYLOAD_AT as int, f.len() as int) =~= payload);
    assert(raw.subrange(12, 14) =~= be16_octets(ETHERTYPE_PERF as int)) by {
        assert(raw[12] as int * 256 + raw[13] as int == 0x1337);
    }
    assert(unwrapped(f) =~= raw.subrange(0, 12) + raw.subrange(12, 14) + payload);
    assert(raw.subrange(0, 12) + raw.subrange(12, 14) + payload =~= raw);
}

} // verus!
