use tsn::latency::{Responder, ResponderAction, OP_PING, OP_PONG};
use tsn::perf::{build_perf_frame, parse_perf_frame, MacAddr, Perf};
use tsn::time::Timespec;
use tsn::udp::{decapsulate, encapsulate, encapsulate_with, read_flow, Ipv4, UdpFlow};

const INITIATOR: MacAddr = MacAddr { a: 2, b: 0, c: 0, d: 0, e: 0, f: 1 };
const RESPONDER: MacAddr = MacAddr { a: 2, b: 0, c: 0, d: 0, e: 0, f: 2 };

fn flow() -> UdpFlow {
    UdpFlow {
        source: Ipv4 { a: 192, b: 168, c: 0, d: 1 },
        destination: Ipv4 { a: 192, b: 168, c: 0, d: 199 },
        source_port: 7001,
        destination_port: 7000,
    }
}

fn probe(id: u32, size: usize) -> Vec<u8> {
    build_perf_frame(RESPONDER, INITIATOR, Perf { id, op: OP_PING, tv_sec: 0, tv_nsec: 0 }, size)
        .unwrap()
}

fn ones_complement_sum(header: &[u8]) -> u32 {
    let mut sum: u32 = header.chunks(2).map(|w| ((w[0] as u32) << 8) | w[1] as u32).sum();
    while sum >> 16 != 0 {
        sum = (sum >> 16) + (sum & 0xffff);
    }
    sum
}

#[test]
fn a_measurement_frame_travels_in_a_datagram() {
    let raw = probe(9, 64);
    let f = encapsulate_with(&raw, flow(), 0x1c46).unwrap();
    assert_eq!(f.len(), 64 + 28);
    assert_eq!(&f[0..12], &raw[0..12]);
    assert_eq!(&f[12..14], &[0x08, 0x00]);
    // version and header length, no options; total length 78; identification
    assert_eq!(&f[14..20], &[0x45, 0x00, 0x00, 78, 0x1c, 0x46]);
    // no fragments, time to live 64, UDP
    assert_eq!(&f[20..24], &[0x00, 0x00, 0x40, 17]);
    assert_eq!(&f[26..34], &[192, 168, 0, 1, 192, 168, 0, 199]);
    // ports 7001 and 7000, length 58, no checksum
    assert_eq!(&f[34..42], &[0x1b, 0x59, 0x1b, 0x58, 0x00, 58, 0x00, 0x00]);
    assert_eq!(&f[42..], &raw[14..]);
}

#[test]
fn the_header_checksum_closes_the_sum() {
    for (ident, size) in [(0u16, 27usize), (0x1c46, 64), (0xffff, 1500), (7, 65521)] {
        let f = encapsulate_with(&probe(1, size), flow(), ident).unwrap();
        assert_eq!(ones_complement_sum(&f[14..34]), 0xffff, "{} {}", ident, size);
        let packet = pnet::packet::ipv4::Ipv4Packet::new(&f[14..]).unwrap();
        let stored = ((f[24] as u16) << 8) | f[25] as u16;
        assert_eq!(stored, pnet::packet::ipv4::checksum(&packet));
        assert_ne!(stored, ident);
    }
    // a header of a known checksum: 45 00 00 1c 00 00 00 00 40 11 .. 0a 00 00 01 0a 00 00 02
    let small = UdpFlow {
        source: Ipv4 { a: 10, b: 0, c: 0, d: 1 },
        destination: Ipv4 { a: 10, b: 0, c: 0, d: 2 },
        source_port: 1,
        destination_port: 2,
    };
    let f = encapsulate_with(&probe(1, 27)[..14], small, 0).unwrap();
    assert_eq!(f.len(), 42);
    // 4500 + 001c + 4011 + 0a00 + 0001 + 0a00 + 0002 = 9930; complement 66cf
    assert_eq!(&f[24..26], &[0x66, 0xcf]);
}

#[test]
fn unwrapping_gives_the_frame_back() {
    for size in [27usize, 64, 1500] {
        let raw = probe(77, size);
        let f = encapsulate(&raw, flow()).unwrap();
        assert_eq!(read_flow(&f), Some(flow()));
        assert_eq!(decapsulate(&f, None), Some(raw.clone()));
        assert_eq!(decapsulate(&f, Some(7000)), Some(raw.clone()));
        assert_eq!(decapsulate(&f, Some(7001)), None);
    }
}

#[test]
fn frames_that_cannot_travel_are_refused() {
    assert_eq!(encapsulate(&[0u8; 13], flow()), None);
    assert_eq!(encapsulate(&vec![0u8; 65522], flow()), None);
    assert_eq!(encapsulate(&vec![0u8; 65521], flow()).unwrap().len(), 65549);
    assert_eq!(encapsulate(&[0u8; 14], flow()).unwrap().len(), 42);
}

#[test]
fn other_frames_carry_no_datagram() {
    let good = encapsulate_with(&probe(1, 64), flow(), 5).unwrap();
    assert_eq!(decapsulate(&good[..41], None), None);
    for (at, value) in [(12, 0x86), (13, 0x06), (14, 0x46), (14, 0x65), (23, 6)] {
        let mut bad = good.clone();
        bad[at] = value;
        assert_eq!(read_flow(&bad), None, "{}", at);
        assert_eq!(decapsulate(&bad, None), None, "{}", at);
    }
    assert_eq!(decapsulate(&probe(1, 64), None), None);
}

#[test]
fn identifications_are_drawn() {
    let raw = probe(1, 64);
    let mut seen = std::collections::BTreeSet::new();
    for _ in 0..64 {
        let f = encapsulate(&raw, flow()).unwrap();
        seen.insert((f[18], f[19]));
        assert_eq!(ones_complement_sum(&f[14..34]), 0xffff);
    }
    assert!(seen.len() > 1);
}

#[test]
fn a_probe_over_udp_is_answered_over_udp() {
    let mut responder = Responder::new();
    let arrived = encapsulate_with(&probe(3, 100), flow(), 1).unwrap();
    let raw = decapsulate(&arrived, Some(7000)).unwrap();
    let at = Timespec { tv_sec: 1, tv_nsec: 2 };
    let reply = match responder.on_frame(&raw, at, RESPONDER) {
        ResponderAction::Reply(f) => f,
        other => panic!("{:?}", other),
    };
    let back = read_flow(&arrived).unwrap().reversed();
    assert_eq!(back.source_port, 7000);
    assert_eq!(back.destination, Ipv4 { a: 192, b: 168, c: 0, d: 1 });
    let sent = encapsulate_with(&reply, back, 2).unwrap();
    assert_eq!(&sent[0..6], &[2, 0, 0, 0, 0, 1]);
    assert_eq!(&sent[26..34], &[192, 168, 0, 199, 192, 168, 0, 1]);
    assert_eq!(&sent[34..38], &[0x1b, 0x58, 0x1b, 0x59]);
    let got = decapsulate(&sent, Some(7001)).unwrap();
    assert_eq!(parse_perf_frame(&got), Some(Perf { id: 3, op: OP_PONG, tv_sec: 0, tv_nsec: 0 }));
}
