use tsn::error::TsnError;
use tsn::perf::{build_perf_frame, build_perf_frame_with, parse_perf_frame, EthHeader, MacAddr, Perf};
use tsn::report::summary_line;
use tsn::throughput::{
    bits64, loss_rate, packet_delay, signed64, stats_worker, wait_for_response, worker_goes_on,
    PerfOpField, PerfOpcode, PerfResult, PerfStartReq, Sender, SenderAction, SenderEvent, SenderPhase,
    SenderSetup, ServerAction, Snapshot, Statistics, Summary, Tick, DEFAULT_TARGET_BPS,
    OP_DATA, OP_REQ_END, OP_REQ_RESULT, OP_REQ_START, OP_RES_END, OP_RES_RESULT, OP_RES_START,
    REQUEST_ID,
};
use tsn::time::Timespec;

const INITIATOR: MacAddr = MacAddr { a: 2, b: 0, c: 0, d: 0, e: 0, f: 1 };
const RESPONDER: MacAddr = MacAddr { a: 2, b: 0, c: 0, d: 0, e: 0, f: 2 };

fn request(op: u8, payload: &[u8]) -> Vec<u8> {
    let h = Perf { id: REQUEST_ID, op, tv_sec: 0, tv_nsec: 0 };
    build_perf_frame_with(RESPONDER, INITIATOR, h, payload)
}

fn data(id: u32, size: usize) -> Vec<u8> {
    let h = Perf { id, op: OP_DATA, tv_sec: 0, tv_nsec: 0 };
    build_perf_frame(RESPONDER, INITIATOR, h, size).unwrap()
}

fn answer(op: u8) -> Vec<u8> {
    let h = Perf { id: REQUEST_ID, op, tv_sec: 0, tv_nsec: 0 };
    build_perf_frame_with(INITIATOR, RESPONDER, h, &[])
}

fn zero() -> Timespec {
    Timespec { tv_sec: 0, tv_nsec: 0 }
}

fn setup(want_result: bool) -> SenderSetup {
    SenderSetup { duration: 3, payload: 1400, want_result, target: RESPONDER, source: INITIATOR }
}

#[test]
fn throughput_opcodes_have_their_octets() {
    let all = [
        (0x00, PerfOpcode::ReqStart),
        (0x01, PerfOpcode::ReqEnd),
        (0x20, PerfOpcode::ResStart),
        (0x21, PerfOpcode::ResEnd),
        (0x30, PerfOpcode::Data),
        (0x40, PerfOpcode::ReqResult),
        (0x41, PerfOpcode::ResResult),
    ];
    for (v, op) in all {
        assert_eq!(PerfOpcode::from(v), Some(op));
        assert_eq!(op.to_u8(), v);
    }
    assert_eq!(PerfOpcode::from(0x02), None);
    assert_eq!(PerfOpcode::from(0xff), None);
    assert_eq!(PerfOpField::new(0x30), PerfOpField(OP_DATA));
    assert_eq!(PerfOpField::new(0x21).to_primitive_values(), (0x21,));
}

#[test]
fn throughput_handshake() {
    let mut sender = Sender::new(setup(false)).unwrap();
    let mut stats = Statistics::new();
    // the initiator sends REQ_START(duration = 3)
    let start = match sender.on_event(SenderEvent::Go) {
        SenderAction::Request(f) => f,
        other => panic!("{:?}", other),
    };
    assert_eq!(start, request(OP_REQ_START, &[0, 0, 0, 3]));
    // the responder is idle: it starts running and answers RES_START
    let res_start = match stats.on_frame(&start, zero(), RESPONDER) {
        ServerAction::Start(f) => f,
        other => panic!("{:?}", other),
    };
    assert_eq!(res_start, answer(OP_RES_START));
    assert!(stats.running);
    assert_eq!(stats.duration, 3);
    // the initiator sends DATA{id=1}, DATA{id=2}, ...
    let mut frame = match sender.on_frame(&res_start) {
        SenderAction::Data(f) => f,
        other => panic!("{:?}", other),
    };
    for id in 1..=5u32 {
        assert_eq!(frame, data(id, 27 + 1400));
        assert_eq!(stats.on_frame(&frame, zero(), RESPONDER), ServerAction::Count);
        frame = match sender.on_event(SenderEvent::Sent) {
            SenderAction::Data(f) => f,
            other => panic!("{:?}", other),
        };
    }
    // after 3 s the initiator sends REQ_END
    let end = match sender.on_event(SenderEvent::TimeUp) {
        SenderAction::Request(f) => f,
        other => panic!("{:?}", other),
    };
    assert_eq!(end, request(OP_REQ_END, &[]));
    // the responder answers RES_END and says the summary
    let (res_end, summary) = match stats.on_frame(&end, zero(), RESPONDER) {
        ServerAction::End(f, s) => (f, s),
        other => panic!("{:?}", other),
    };
    assert_eq!(res_end, answer(OP_RES_END));
    assert!(!stats.running);
    let total = 5 * (27 + 1400 + 4);
    assert_eq!(
        summary,
        Summary { pkt_count: 5, total_bytes: total, bps: Some(total as u128 * 8 / 3) }
    );
    assert_eq!(summary_line(&summary), "5 packets, 7155 bytes 19080 bps");
    assert_eq!(sender.on_frame(&res_end), SenderAction::Finish(None));
    assert_eq!(sender.phase, SenderPhase::Done);
}

#[test]
fn a_start_request_while_running_is_ignored() {
    let mut stats = Statistics::new();
    stats.on_frame(&request(OP_REQ_START, &[0, 0, 0, 9]), zero(), RESPONDER);
    stats.on_frame(&data(1, 100), zero(), RESPONDER);
    assert_eq!(
        stats.on_frame(&request(OP_REQ_START, &[0, 0, 0, 1]), zero(), RESPONDER),
        ServerAction::Ignore
    );
    assert_eq!((stats.duration, stats.pkt_count), (9, 1));
    // a start request without a length is no request
    let mut idle = Statistics::new();
    assert_eq!(idle.on_frame(&request(OP_REQ_START, &[0, 0, 3]), zero(), RESPONDER), ServerAction::Ignore);
    assert!(!idle.running);
}

#[test]
fn data_counts_only_while_running() {
    let mut stats = Statistics::new();
    assert_eq!(stats.on_frame(&data(1, 100), zero(), RESPONDER), ServerAction::Ignore);
    assert_eq!(stats.pkt_count, 0);
    stats.on_frame(&request(OP_REQ_START, &[0, 0, 0, 2]), zero(), RESPONDER);
    stats.on_frame(&data(8, 100), zero(), RESPONDER);
    stats.on_frame(&data(9, 1514), zero(), RESPONDER);
    assert_eq!((stats.pkt_count, stats.total_bytes, stats.last_id), (2, 104 + 1518, 9));
    stats.pkt_count = u64::MAX;
    stats.total_bytes = u64::MAX - 3;
    stats.on_frame(&data(10, 100), zero(), RESPONDER);
    assert_eq!((stats.pkt_count, stats.total_bytes), (u64::MAX, u64::MAX));
}

#[test]
fn results_are_answered_in_any_state() {
    let mut stats = Statistics::new();
    stats.on_frame(&request(OP_REQ_START, &[0, 0, 0, 2]), zero(), RESPONDER);
    stats.on_frame(&data(1, 996), zero(), RESPONDER);
    let elapsed = Timespec { tv_sec: 2, tv_nsec: 500 };
    for _ in 0..2 {
        let f = match stats.on_frame(&request(OP_REQ_RESULT, &[]), elapsed, RESPONDER) {
            ServerAction::Result(f) => f,
            other => panic!("{:?}", other),
        };
        assert_eq!(f.len(), 27 + 32);
        assert_eq!(parse_perf_frame(&f).unwrap().op, OP_RES_RESULT);
        assert_eq!(EthHeader::decode(&f).unwrap().destination, INITIATOR);
        assert_eq!(
            PerfResult::decode(&f, 27),
            PerfResult { pkt_count: 1, total_bytes: 1000, elapsed_s: 2, elapsed_ns: 500 }
        );
        assert_eq!(&f[27..35], &[0, 0, 0, 0, 0, 0, 0, 1]);
        assert_eq!(&f[35..43], &[0, 0, 0, 0, 0, 0, 3, 0xe8]);
        stats.on_frame(&request(OP_REQ_END, &[]), zero(), RESPONDER);
    }
}

#[test]
fn results_round_trip() {
    let r = PerfResult { pkt_count: u64::MAX, total_bytes: 12, elapsed_s: -1, elapsed_ns: i64::MIN };
    let mut out = vec![0xee];
    r.encode(&mut out);
    assert_eq!(out.len(), 33);
    assert_eq!(&out[17..25], &[0xff; 8]);
    assert_eq!(&out[25..33], &[0x80, 0, 0, 0, 0, 0, 0, 0]);
    assert_eq!(PerfResult::decode(&out, 1), r);
    assert_eq!(bits64(-1), u64::MAX);
    assert_eq!(signed64(u64::MAX), -1);
    assert_eq!(signed64(bits64(i64::MIN)), i64::MIN);
    assert_eq!(bits64(7), 7);
}

#[test]
fn a_session_of_no_length_has_no_rate() {
    let mut stats = Statistics::new();
    stats.on_frame(&request(OP_REQ_START, &[0, 0, 0, 0]), zero(), RESPONDER);
    stats.on_frame(&data(1, 60), zero(), RESPONDER);
    let s = stats.summary();
    assert_eq!(s, Summary { pkt_count: 1, total_bytes: 64, bps: None });
    assert_eq!(summary_line(&s), "1 packets, 64 bytes - bps");
}

#[test]
fn loss_accounting() {
    let mut stats = Statistics::new();
    stats.on_frame(&request(OP_REQ_START, &[0, 0, 0, 10]), zero(), RESPONDER);
    let before = Snapshot { pkt_count: stats.pkt_count, total_bytes: stats.total_bytes, last_id: stats.last_id };
    for id in [1, 2, 4, 5, 7] {
        stats.on_frame(&data(id, 96), zero(), RESPONDER);
    }
    let now = Snapshot { pkt_count: stats.pkt_count, total_bytes: stats.total_bytes, last_id: stats.last_id };
    let tick = stats_worker(&before, &now);
    assert_eq!(tick, Tick { packets: 5, bits: 5 * 100 * 8, ids: 7 });
    // 1 - 5/7 = 28.57 %
    assert_eq!(loss_rate(&tick), Some(2857));
    let exact = 1.0 - tick.packets as f64 / tick.ids as f64;
    assert!((exact * 100.0 - 28.57).abs() < 0.005);
}

#[test]
fn loss_rates_at_the_edges() {
    assert_eq!(loss_rate(&Tick { packets: 0, bits: 0, ids: 0 }), None);
    assert_eq!(loss_rate(&Tick { packets: 5, bits: 0, ids: 0 }), None);
    assert_eq!(loss_rate(&Tick { packets: 0, bits: 0, ids: 9 }), Some(10_000));
    assert_eq!(loss_rate(&Tick { packets: 9, bits: 0, ids: 9 }), Some(0));
    assert_eq!(loss_rate(&Tick { packets: 2, bits: 0, ids: 3 }), Some(3_333));
    // more packets than ids: the rate is negative, rounded down
    assert_eq!(loss_rate(&Tick { packets: 4, bits: 0, ids: 3 }), Some(-3_334));
    assert_eq!(loss_rate(&Tick { packets: 6, bits: 0, ids: 3 }), Some(-10_000));
}

#[test]
fn a_second_that_went_backwards_counts_nothing() {
    let before = Snapshot { pkt_count: 10, total_bytes: 1000, last_id: 50 };
    let now = Snapshot { pkt_count: 4, total_bytes: 400, last_id: 3 };
    assert_eq!(stats_worker(&before, &now), Tick { packets: 0, bits: 0, ids: 0 });
    let far = Snapshot { pkt_count: u64::MAX, total_bytes: u64::MAX, last_id: u32::MAX };
    let none = Snapshot { pkt_count: 0, total_bytes: 0, last_id: 0 };
    assert_eq!(
        stats_worker(&none, &far),
        Tick { packets: u64::MAX, bits: u64::MAX as u128 * 8, ids: u32::MAX }
    );
}

#[test]
fn the_worker_stops_with_the_session() {
    assert!(worker_goes_on(true, 0, 3));
    assert!(worker_goes_on(true, 3, 3));
    assert!(!worker_goes_on(true, 4, 3));
    assert!(!worker_goes_on(false, 1, 3));
}

#[test]
fn the_delay_is_the_bits_of_a_frame_over_the_rate() {
    assert_eq!(DEFAULT_TARGET_BPS, 500_000_000);
    // (27 + 1400) * 8 bits at 500 Mb/s
    assert_eq!(packet_delay(1400, DEFAULT_TARGET_BPS), Some(22_832));
    assert_eq!(packet_delay(0, 8), Some(27_000_000_000));
    assert_eq!(packet_delay(73, 1_000_000_000), Some(800));
    assert_eq!(packet_delay(1, 3), Some(74_666_666_666));
    assert_eq!(packet_delay(1400, 0), None);
}

#[test]
fn a_request_without_an_answer_is_given_up() {
    let mut sender = Sender::new(setup(false)).unwrap();
    let first = sender.on_event(SenderEvent::Go);
    assert_eq!(sender.phase, SenderPhase::Starting(1));
    // frames that are no answer are passed over
    assert_eq!(sender.on_frame(&answer(OP_RES_END)), SenderAction::Listen);
    assert_eq!(sender.on_frame(&[0u8; 60]), SenderAction::Listen);
    assert_eq!(sender.on_event(SenderEvent::Timeout), first);
    assert_eq!(sender.on_event(SenderEvent::Timeout), first);
    assert_eq!(sender.phase, SenderPhase::Starting(3));
    assert_eq!(
        sender.on_event(SenderEvent::Timeout),
        SenderAction::Abort(TsnError::HandshakeFailed)
    );
    assert_eq!(sender.phase, SenderPhase::Failed);
    assert_eq!(sender.on_event(SenderEvent::Go), SenderAction::Nothing);
    assert_eq!(sender.on_frame(&answer(OP_RES_START)), SenderAction::Nothing);
}

#[test]
fn the_end_request_is_retried_too() {
    let mut sender = Sender::new(setup(true)).unwrap();
    sender.on_event(SenderEvent::Go);
    sender.on_event(SenderEvent::Timeout);
    sender.on_frame(&answer(OP_RES_START));
    assert_eq!(sender.phase, SenderPhase::Sending);
    let end = sender.on_event(SenderEvent::Interrupted);
    assert_eq!(end, SenderAction::Request(request(OP_REQ_END, &[])));
    assert_eq!(sender.on_event(SenderEvent::Timeout), end);
    assert_eq!(sender.phase, SenderPhase::Ending(2));
    let ask = sender.on_frame(&answer(OP_RES_END));
    assert_eq!(ask, SenderAction::Request(request(OP_REQ_RESULT, &[])));
    assert_eq!(sender.on_event(SenderEvent::Timeout), ask);
    // a result without its payload is no result
    assert_eq!(sender.on_frame(&answer(OP_RES_RESULT)), SenderAction::Listen);
    let result = PerfResult { pkt_count: 9, total_bytes: 99, elapsed_s: 3, elapsed_ns: 1 };
    let mut payload = vec![];
    result.encode(&mut payload);
    let h = Perf { id: REQUEST_ID, op: OP_RES_RESULT, tv_sec: 0, tv_nsec: 0 };
    let f = build_perf_frame_with(INITIATOR, RESPONDER, h, &payload);
    assert_eq!(sender.on_frame(&f), SenderAction::Finish(Some(result)));
    assert_eq!(sender.phase, SenderPhase::Done);
}

#[test]
fn an_interrupt_while_waiting_gives_up() {
    let mut sender = Sender::new(setup(false)).unwrap();
    sender.on_event(SenderEvent::Go);
    assert_eq!(
        sender.on_event(SenderEvent::Interrupted),
        SenderAction::Abort(TsnError::Interrupted)
    );
    let mut idle = Sender::new(setup(false)).unwrap();
    assert_eq!(idle.on_event(SenderEvent::Timeout), SenderAction::Nothing);
    assert_eq!(idle.on_event(SenderEvent::Interrupted), SenderAction::Abort(TsnError::Interrupted));
}

#[test]
fn data_ids_start_over_after_the_largest() {
    let mut sender = Sender::new(setup(false)).unwrap();
    sender.on_event(SenderEvent::Go);
    sender.on_frame(&answer(OP_RES_START));
    sender.next_id = u32::MAX;
    match sender.on_event(SenderEvent::Sent) {
        SenderAction::Data(f) => assert_eq!(parse_perf_frame(&f).unwrap().id, u32::MAX),
        other => panic!("{:?}", other),
    }
    assert_eq!(sender.next_id, 0);
}

#[test]
fn answers_are_told_by_their_opcode() {
    assert!(wait_for_response(&answer(OP_RES_START), PerfOpField::new(OP_RES_START)));
    assert!(!wait_for_response(&answer(OP_RES_START), PerfOpField::new(OP_RES_END)));
    assert!(!wait_for_response(&[0u8; 5], PerfOpField::new(0)));
    let mut other = answer(OP_RES_START);
    other[13] = 0x38;
    assert!(!wait_for_response(&other, PerfOpField::new(OP_RES_START)));
}

#[test]
fn a_payload_too_large_is_refused() {
    let mut big = setup(false);
    big.payload = usize::MAX - 26;
    assert_eq!(Sender::new(big), None);
}

#[test]
fn a_start_request_carries_the_length() {
    let mut out = vec![1, 2];
    PerfStartReq { duration: 0x0102_0304 }.encode(&mut out);
    assert_eq!(out, vec![1, 2, 1, 2, 3, 4]);
    assert_eq!(PerfStartReq::decode(&out, 2), Some(PerfStartReq { duration: 0x0102_0304 }));
    assert_eq!(PerfStartReq::decode(&out, 0), Some(PerfStartReq { duration: 0x0102_0102 }));
    assert_eq!(PerfStartReq::decode(&out, 3), None);
    assert_eq!(PerfStartReq::decode(&out, 7), None);
    assert_eq!(PerfStartReq::decode(&out, usize::MAX), None);
}

#[test]
fn an_initiator_in_order_says_so() {
    let mut sender = Sender::new(setup(false)).unwrap();
    assert!(sender.is_wf());
    sender.setup.payload = usize::MAX;
    assert!(!sender.is_wf());
}
