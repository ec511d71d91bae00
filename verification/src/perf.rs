use vstd::prelude::*;

verus! {

/// EtherType of measurement frames.
pub const ETHERTYPE_PERF: u16 = 0x1337;

/// EtherType of IPv4.
pub const ETHERTYPE_IPV4: u16 = 0x0800;

/// Octets of an Ethernet header: destination, source, EtherType.
pub const ETH_HEADER_LEN: usize = 14;

/// Octets of the measurement header that follows the Ethernet header.
pub const PERF_HEADER_LEN: usize = 13;

/// Octets of the shortest measurement frame.
pub const PERF_FRAME_MIN: usize = 27;

/// The value of two octets in network order.
pub open spec fn be16(s: Seq<u8>, at: int) -> int {
    s[at] as int * 256 + s[at + 1] as int
}

/// The value of four octets in network order.
pub open spec fn be32(s: Seq<u8>, at: int) -> int {
    s[at] as int * 16777216 + s[at + 1] as int * 65536 + s[at + 2] as int * 256 + s[at + 3] as int
}

/// The value of eight octets in network order.
pub open spec fn be64(s: Seq<u8>, at: int) -> int {
    be32(s, at) * 4294967296 + be32(s, at + 4)
}

/// The two octets of a value, in network order.
pub open spec fn be16_octets(v: int) -> Seq<u8> {
    seq![((v / 256) % 256) as u8, (v % 256) as u8]
}

/// The four octets of a value, in network order.
pub open spec fn be32_octets(v: int) -> Seq<u8> {
    seq![
        ((v / 16777216) % 256) as u8,
        ((v / 65536) % 256) as u8,
        ((v / 256) % 256) as u8,
        (v % 256) as u8,
    ]
}

/// The eight octets of a value, in network order.
pub open spec fn be64_octets(v: int) -> Seq<u8> {
    be32_octets(v / 4294967296) + be32_octets(v % 4294967296)
}

/// Reads two octets in network order.
pub fn read_be16(bytes: &[u8], at: usize) -> (v: u16)
    requires
        at + 2 <= bytes@.len(),
    ensures
        v == be16(bytes@, at as int),
{
    let hi: u16 = bytes[at] as u16;
    let lo: u16 = bytes[at + 1] as u16;
    hi * 256 + lo
}

/// Reads four octets in network order.
pub fn read_be32(bytes: &[u8], at: usize) -> (v: u32)
    requires
        at + 4 <= bytes@.len(),
    ensures
        v == be32(bytes@, at as int),
{
    let a: u32 = bytes[at] as u32;
    let b: u32 = bytes[at + 1] as u32;
    let c: u32 = bytes[at + 2] as u32;
    let d: u32 = bytes[at + 3] as u32;
    a * 16777216 + b * 65536 + c * 256 + d
}

/// Reads eight octets in network order.
pub fn read_be64(bytes: &[u8], at: usize) -> (v: u64)
    requires
        at + 8 <= bytes@.len(),
    ensures
        v == be64(bytes@, at as int),
{
    let n: usize = bytes.len();
    let hi: u64 = read_be32(bytes, at) as u64;
    let lo: u64 = read_be32(bytes, at + 4) as u64;
    hi * 4294967296 + lo
}

/// Appends two octets in network order.
pub fn push_be16(out: &mut Vec<u8>, v: u16)
    ensures
        final(out)@ == old(out)@ + be16_octets(v as int),
{
    out.push((v / 256) as u8);
    out.push((v % 256) as u8);
    assert(out@ =~= old(out)@ + be16_octets(v as int));
}

/// Appends four octets in network order.
pub fn push_be32(out: &mut Vec<u8>, v: u32)
    ensures
        final(out)@ == old(out)@ + be32_octets(v as int),
{
    out.push((v / 16777216) as u8);
    out.push(((v / 65536) % 256) as u8);
    out.push(((v / 256) % 256) as u8);
    out.push((v % 256) as u8);
    assert(out@ =~= old(out)@ + be32_octets(v as int));
}

/// Appends eight octets in network order.
pub fn push_be64(out: &mut Vec<u8>, v: u64)
    ensures
        final(out)@ == old(out)@ + be64_octets(v as int),
{
    let hi: u32 = (v / 4294967296) as u32;
    let lo: u32 = (v % 4294967296) as u32;
    push_be32(out, hi);
    push_be32(out, lo);
    assert(out@ =~= old(out)@ + (be32_octets(hi as int) + be32_octets(lo as int)));
}

/// Reading back what `be32_octets` wrote gives the value.
pub proof fn lemma_be32_round_trip(v: int, before: Seq<u8>, after: Seq<u8>)
    requires
        0 <= v < 4294967296,
    ensures
        be32(before + be32_octets(v) + after, before.len() as int) == v,
{
    let s = before + be32_octets(v) + after;
    let at = before.len() as int;
    assert(s[at] == be32_octets(v)[0]);
    assert(s[at + 1] == be32_octets(v)[1]);
    assert(s[at + 2] == be32_octets(v)[2]);
    assert(s[at + 3] == be32_octets(v)[3]);
}

/// A hardware address of six octets.
#[derive(Clone, Copy, Debug, PartialEq, Eq, Structural)]
pub struct MacAddr {
    pub a: u8,
    pub b: u8,
    pub c: u8,
    pub d: u8,
    pub e: u8,
    pub f: u8,
}

impl MacAddr {
    /// The six octets in transmission order.
    pub open spec fn octets(self) -> Seq<u8> {
        seq![self.a, self.b, self.c, self.d, self.e, self.f]
    }

    /// The address held by six octets of a sequence.
    pub open spec fn at(s: Seq<u8>, i: int) -> MacAddr {
        MacAddr { a: s[i], b: s[i + 1], c: s[i + 2], d: s[i + 3], e: s[i + 4], f: s[i + 5] }
    }

    /// Reads an address from six octets of a buffer.
    pub fn read(bytes: &[u8], i: usize) -> (m: MacAddr)
        requires
            i + 6 <= bytes@.len(),
        ensures
            m == MacAddr::at(bytes@, i as int),
    {
        MacAddr {
            a: bytes[i],
            b: bytes[i + 1],
            c: bytes[i + 2],
            d: bytes[i + 3],
            e: bytes[i + 4],
            f: bytes[i + 5],
        }
    }

    /// Appends the six octets to a buffer.
    pub fn push(&self, out: &mut Vec<u8>)
        ensures
            final(out)@ == old(out)@ + self.octets(),
    {
        out.push(self.a);
        out.push(self.b);
        out.push(self.c);
        out.push(self.d);
        out.push(self.e);
        out.push(self.f);
        assert(out@ =~= old(out)@ + self.octets());
    }
}

/// The fixed fields at the start of every measurement payload.
#[derive(Clone, Copy, Debug, PartialEq, Eq, Structural)]
pub struct Perf {
    /// Sequence or request id.
    pub id: u32,
    /// Opcode.
    pub op: u8,
    /// Seconds since the epoch, by the sender's clock.
    pub tv_sec: u32,
    /// Nanoseconds below the second.
    pub tv_nsec: u32,
}

impl Perf {
    /// The thirteen octets of the header on the wire.
    pub open spec fn octets(self) -> Seq<u8> {
        be32_octets(self.id as int) + seq![self.op] + be32_octets(self.tv_sec as int)
            + be32_octets(self.tv_nsec as int)
    }

    /// The header that starts at octet `at` of `s`.
    pub open spec fn at(s: Seq<u8>, at: int) -> Perf {
        Perf {
            id: be32(s, at) as u32,
            op: s[at + 4],
            tv_sec: be32(s, at + 5) as u32,
            tv_nsec: be32(s, at + 9) as u32,
        }
    }

    /// The header of a payload, if the payload is long enough to hold one.
    pub open spec fn parse(s: Seq<u8>) -> Option<Perf> {
        if s.len() >= PERF_HEADER_LEN {
            Some(Perf::at(s, 0))
        } else {
            None
        }
    }

    /// Decodes the header at the start of a measurement payload.
    pub fn decode(payload: &[u8]) -> (r: Option<Perf>)
        ensures
            r == Perf::parse(payload@),
    {
        if payload.len() < PERF_HEADER_LEN {
            return None;
        }
        Some(
            Perf {
                id: read_be32(payload, 0),
                op: payload[4],
                tv_sec: read_be32(payload, 5),
                tv_nsec: read_be32(payload, 9),
            },
        )
    }

    /// Appends the header's thirteen octets to a buffer.
    pub fn encode(&self, out: &mut Vec<u8>)
        ensures
            final(out)@ == old(out)@ + self.octets(),
    {
        push_be32(out, self.id);
        out.push(self.op);
        push_be32(out, self.tv_sec);
        push_be32(out, self.tv_nsec);
        assert(out@ =~= old(out)@ + self.octets());
    }

    /// Decoding an encoded header, whatever follows it, gives the header back.
    pub proof fn lemma_round_trip(self, rest: Seq<u8>)
        ensures
            Perf::parse(self.octets() + rest) == Some(self),
    {
        let s = self.octets() + rest;
        let e = Seq::<u8>::empty();
        assert(s =~= e + be32_octets(self.id as int) + (seq![self.op] + be32_octets(
            self.tv_sec as int,
        ) + be32_octets(self.tv_nsec as int) + rest));
        lemma_be32_round_trip(
            self.id as int,
            e,
            seq![self.op] + be32_octets(self.tv_sec as int) + be32_octets(self.tv_nsec as int)
                + rest,
        );
        let p1 = be32_octets(self.id as int) + seq![self.op];
        assert(s =~= p1 + be32_octets(self.tv_sec as int) + (be32_octets(self.tv_nsec as int)
            + rest));
        lemma_be32_round_trip(self.tv_sec as int, p1, be32_octets(self.tv_nsec as int) + rest);
        let p2 = p1 + be32_octets(self.tv_sec as int);
        assert(s =~= p2 + be32_octets(self.tv_nsec as int) + rest);
        lemma_be32_round_trip(self.tv_nsec as int, p2, rest);
        assert(s[4] == self.op);
    }
}

/// What a received Ethernet frame says of itself.
#[derive(Clone, Copy, Debug, PartialEq, Eq, Structural)]
pub struct EthHeader {
    pub destination: MacAddr,
    pub source: MacAddr,
    pub ethertype: u16,
}

impl EthHeader {
    /// The fourteen octets of the header on the wire.
    pub open spec fn octets(self) -> Seq<u8> {
        self.destination.octets() + self.source.octets() + be16_octets(self.ethertype as int)
    }

    /// The header of a frame, if the frame is long enough to hold one.
    pub open spec fn parse(s: Seq<u8>) -> Option<EthHeader> {
        if s.len() >= ETH_HEADER_LEN {
            Some(
                EthHeader {
                    destination: MacAddr::at(s, 0),
                    source: MacAddr::at(s, 6),
                    ethertype: be16(s, 12) as u16,
                },
            )
        } else {
            None
        }
    }

    /// Decodes the Ethernet header of a frame.
    pub fn decode(frame: &[u8]) -> (r: Option<EthHeader>)
        ensures
            r == EthHeader::parse(frame@),
    {
        if frame.len() < ETH_HEADER_LEN {
            return None;
        }
        Some(
            EthHeader {
                destination: MacAddr::read(frame, 0),
                source: MacAddr::read(frame, 6),
                ethertype: read_be16(frame, 12),
            },
        )
    }

    /// Appends the header's fourteen octets to a buffer.
    pub fn encode(&self, out: &mut Vec<u8>)
        ensures
            final(out)@ == old(out)@ + self.octets(),
    {
        self.destination.push(out);
        self.source.push(out);
        push_be16(out, self.ethertype);
        assert(out@ =~= old(out)@ + self.octets());
    }

    /// Decoding an encoded header, whatever follows it, gives the header back.
    pub proof fn lemma_round_trip(self, rest: Seq<u8>)
        ensures
            EthHeader::parse(self.octets() + rest) == Some(self),
    {
        let s = self.octets() + rest;
        assert(s[0] == self.destination.a);
        assert(s[1] == self.destination.b);
        assert(s[2] == self.destination.c);
        assert(s[3] == self.destination.d);
        assert(s[4] == self.destination.e);
        assert(s[5] == self.destination.f);
        assert(s[6] == self.source.a);
        assert(s[7] == self.source.b);
        assert(s[8] == self.source.c);
        assert(s[9] == self.source.d);
        assert(s[10] == self.source.e);
        assert(s[11] == self.source.f);
        assert(s[12] == be16_octets(self.ethertype as int)[0]);
        assert(s[13] == be16_octets(self.ethertype as int)[1]);
    }
}

/// The measurement header of a whole frame: present when the frame carries the
/// measurement EtherType and is long enough for both headers.
pub open spec fn perf_of_frame(frame: Seq<u8>) -> Option<Perf> {
    if frame.len() >= PERF_FRAME_MIN && be16(frame, 12) == ETHERTYPE_PERF {
        Some(Perf::at(frame, ETH_HEADER_LEN as int))
    } else {
        None
    }
}

/// Decodes the measurement header of a received frame. A frame of another
/// EtherType, or one too short for both headers, carries none.
pub fn parse_perf_frame(frame: &[u8]) -> (r: Option<Perf>)
    ensures
        r == perf_of_frame(frame@),
{
    if frame.len() < PERF_FRAME_MIN {
        return None;
    }
    if read_be16(frame, 12) != ETHERTYPE_PERF {
        return None;
    }
    Some(
        Perf {
            id: read_be32(frame, 14),
            op: frame[18],
            tv_sec: read_be32(frame, 19),
            tv_nsec: read_be32(frame, 23),
        },
    )
}

/// A measurement frame of `size` octets: Ethernet header, measurement header,
/// then zeros.
pub open spec fn perf_frame(
    destination: MacAddr,
    source: MacAddr,
    header: Perf,
    size: int,
) -> Seq<u8> {
    EthHeader { destination, source, ethertype: ETHERTYPE_PERF }.octets() + header.octets()
        + Seq::new((size - PERF_FRAME_MIN) as nat, |i: int| 0u8)
}

/// Builds a measurement frame of `size` octets whose payload after the
/// measurement header is zero. A size too small for the two headers is refused.
pub fn build_perf_frame(
    destination: MacAddr,
    source: MacAddr,
    header: Perf,
    size: usize,
) -> (r: Option<Vec<u8>>)
    ensures
        size < PERF_FRAME_MIN ==> r is None,
        size >= PERF_FRAME_MIN ==> r is Some && r->0@ == perf_frame(
            destination,
            source,
            header,
            size as int,
        ),
{
    if size < PERF_FRAME_MIN {
        return None;
    }
    let mut out: Vec<u8> = Vec::new();
    let eth = EthHeader { destination, source, ethertype: ETHERTYPE_PERF };
    eth.encode(&mut out);
    header.encode(&mut out);
    let ghost head = out@;
    let mut n: usize = PERF_FRAME_MIN;
    while n < size
        invariant
            PERF_FRAME_MIN <= n <= size,
            head.len() == PERF_FRAME_MIN,
            out@ == head + Seq::new((n - PERF_FRAME_MIN) as nat, |i: int| 0u8),
        decreases size - n,
    {
        out.push(0u8);
        n = n + 1;
        assert(out@ =~= head + Seq::new((n - PERF_FRAME_MIN) as nat, |i: int| 0u8));
    }
    Some(out)
}

/// A built measurement frame parses back to its header.
pub proof fn lemma_perf_frame_parses(
    destination: MacAddr,
    source: MacAddr,
    header: Perf,
    size: int,
)
    requires
        size >= PERF_FRAME_MIN,
    ensures
        perf_frame(destination, source, header, size).len() == size,
        perf_of_frame(perf_frame(destination, source, header, size)) == Some(header),
        EthHeader::parse(perf_frame(destination, source, header, size)) == Some(
            EthHeader { destination, source, ethertype: ETHERTYPE_PERF },
        ),
{
    let eth = EthHeader { destination, source, ethertype: ETHERTYPE_PERF };
    let zeros = Seq::new((size - PERF_FRAME_MIN) as nat, |i: int| 0u8);
    let f = perf_frame(destination, source, header, size);
    assert(f =~= eth.octets() + (header.octets() + zeros));
    eth.lemma_round_trip(header.octets() + zeros);
    header.lemma_round_trip(zeros);
    let p = header.octets() + zeros;
    assert(forall|i: int| 0 <= i < p.len() ==> f[14 + i] == p[i]);
    assert(p[0] == f[14]);
    assert(p[1] == f[15]);
    assert(p[2] == f[16]);
    assert(p[3] == f[17]);
    assert(p[4] == f[18]);
    assert(p[5] == f[19]);
    assert(p[6] == f[20]);
    assert(p[7] == f[21]);
    assert(p[8] == f[22]);
    assert(p[9] == f[23]);
    assert(p[10] == f[24]);
    assert(p[11] == f[25]);
    assert(p[12] == f[26]);
}

/// Appends the octets of a slice to a buffer.
pub fn append_bytes(out: &mut Vec<u8>, bytes: &[u8])
    ensures
        final(out)@ == old(out)@ + bytes@,
{
    let n: usize = bytes.len();
    let mut i: usize = 0;
    while i < n
        invariant
            i <= n,
            n == bytes@.len(),
            out@ == old(out)@ + bytes@.take(i as int),
        decreases n - i,
    {
        out.push(bytes[i]);
        i = i + 1;
        assert(out@ =~= old(out)@ + bytes@.take(i as int));
    }
    assert(bytes@.take(n as int) =~= bytes@);
}

/// A measurement frame with a payload of its own after the two headers.
pub open spec fn perf_frame_with(
    destination: MacAddr,
    source: MacAddr,
    header: Perf,
    payload: Seq<u8>,
) -> Seq<u8> {
    EthHeader { destination, source, ethertype: ETHERTYPE_PERF }.octets() + header.octets()
        + payload
}

/// Builds a measurement frame with a payload of its own.
pub fn build_perf_frame_with(
    destination: MacAddr,
    source: MacAddr,
    header: Perf,
    payload: &[u8],
) -> (out: Vec<u8>)
    ensures
        out@ == perf_frame_with(destination, source, header, payload@),
{
    let mut out: Vec<u8> = Vec::new();
    let eth = EthHeader { destination, source, ethertype: ETHERTYPE_PERF };
    eth.encode(&mut out);
    header.encode(&mut out);
    append_bytes(&mut out, payload);
    out
}

/// A measurement frame with a payload parses back to its two headers, and the
/// payload starts right after them.
pub proof fn lemma_perf_frame_with_parses(
    destination: MacAddr,
    source: MacAddr,
    header: Perf,
    payload: Seq<u8>,
)
    ensures
        perf_frame_with(destination, source, header, payload).len() == PERF_FRAME_MIN
            + payload.len(),
        perf_of_frame(perf_frame_with(destination, source, header, payload)) == Some(header),
        EthHeader::parse(perf_frame_with(destination, source, header, payload)) == Some(
            EthHeader { destination, source, ethertype: ETHERTYPE_PERF },
        ),
        perf_frame_with(destination, source, header, payload).subrange(
            PERF_FRAME_MIN as int,
            PERF_FRAME_MIN + payload.len(),
        ) == payload,
{
    let eth = EthHeader { destination, source, ethertype: ETHERTYPE_PERF };
    let f = perf_frame_with(destination, source, header, payload);
    assert(f =~= eth.octets() + (header.octets() + payload));
    eth.lemma_round_trip(header.octets() + payload);
    header.lemma_round_trip(payload);
    let p = header.octets() + payload;
    assert(forall|i: int| 0 <= i < p.len() ==> f[14 + i] == p[i]);
    assert(p[0] == f[14]);
    assert(p[1] == f[15]);
    assert(p[2] == f[16]);
    assert(p[3] == f[17]);
    assert(p[4] == f[18]);
    assert(p[5] == f[19]);
    assert(p[6] == f[20]);
    assert(p[7] == f[21]);
    assert(p[8] == f[22]);
    assert(p[9] == f[23]);
    assert(p[10] == f[24]);
    assert(p[11] == f[25]);
    assert(p[12] == f[26]);
    assert(f.subrange(PERF_FRAME_MIN as int, PERF_FRAME_MIN + payload.len()) =~= payload);
}

} // verus!
