use crate::error::TsnError;
use crate::perf::be32;
use crate::perf::be64;
use crate::perf::be64_octets;
use crate::perf::build_perf_frame;
use crate::perf::build_perf_frame_with;
use crate::perf::perf_frame;
use crate::perf::parse_perf_frame;
use crate::perf::perf_frame_with;
use crate::perf::perf_of_frame;
use crate::perf::push_be32;
use crate::perf::push_be64;
use crate::perf::read_be32;
use crate::perf::read_be64;
use crate::perf::be32_octets;
use crate::perf::MacAddr;
use crate::perf::Perf;
use crate::perf::PERF_FRAME_MIN;
use crate::time::Timespec;
use vstd::prelude::*;

verus! {

/// Opcode of the request that starts a session; its payload is the session's
/// length in seconds.
pub const OP_REQ_START: u8 = 0x00;

/// Opcode of the request that ends a session.
pub const OP_REQ_END: u8 = 0x01;

/// Opcode of the answer to a start request.
pub const OP_RES_START: u8 = 0x20;

/// Opcode of the answer to an end request.
pub const OP_RES_END: u8 = 0x21;

/// Opcode of a data frame.
pub const OP_DATA: u8 = 0x30;

/// Opcode of the request for the final statistics.
pub const OP_REQ_RESULT: u8 = 0x40;

/// Opcode of the answer that carries the final statistics.
pub const OP_RES_RESULT: u8 = 0x41;

/// The id that requests carry.
pub const REQUEST_ID: u32 = 0xdead_beef;

/// Times that a request is sent before the session is given up.
pub const MAX_ATTEMPTS: u8 = 3;

/// Bits per second that an initiator sends at unless told otherwise.
pub const DEFAULT_TARGET_BPS: u64 = 500_000_000;

/// Octets that the VLAN tag adds to a frame and that the receiver does not
/// see.
pub const VLAN_TAG_LEN: u64 = 4;

/// Octets of the payload of a result answer.
pub const RESULT_LEN: usize = 32;

/// The opcode field of a throughput frame.
#[derive(Clone, Copy, Debug, PartialEq, Eq, PartialOrd, Ord, Hash, Structural)]
pub struct PerfOpField(pub u8);

impl PerfOpField {
    /// The field that holds this octet.
    pub fn new(field_val: u8) -> (r: PerfOpField)
        ensures
            r.0 == field_val,
    {
        PerfOpField(field_val)
    }

    /// The octet that the field holds.
    pub fn to_primitive_values(&self) -> (r: (u8,))
        ensures
            r.0 == self.0,
    {
        (self.0,)
    }
}

/// The opcodes of a throughput measurement.
#[derive(Clone, Copy, Debug, PartialEq, Eq, Structural)]
pub enum PerfOpcode {
    ReqStart,
    ReqEnd,
    ResStart,
    ResEnd,
    Data,
    ReqResult,
    ResResult,
}

impl PerfOpcode {
    /// The opcode that an octet stands for, if any.
    pub open spec fn of(v: u8) -> Option<PerfOpcode> {
        if v == OP_REQ_START {
            Some(PerfOpcode::ReqStart)
        } else if v == OP_REQ_END {
            Some(PerfOpcode::ReqEnd)
        } else if v == OP_RES_START {
            Some(PerfOpcode::ResStart)
        } else if v == OP_RES_END {
            Some(PerfOpcode::ResEnd)
        } else if v == OP_DATA {
            Some(PerfOpcode::Data)
        } else if v == OP_REQ_RESULT {
            Some(PerfOpcode::ReqResult)
        } else if v == OP_RES_RESULT {
            Some(PerfOpcode::ResResult)
        } else {
            None
        }
    }

    /// The octet of an opcode.
    pub open spec fn octet(self) -> u8 {
        match self {
            PerfOpcode::ReqStart => OP_REQ_START,
            PerfOpcode::ReqEnd => OP_REQ_END,
            PerfOpcode::ResStart => OP_RES_START,
            PerfOpcode::ResEnd => OP_RES_END,
            PerfOpcode::Data => OP_DATA,
            PerfOpcode::ReqResult => OP_REQ_RESULT,
            PerfOpcode::ResResult => OP_RES_RESULT,
        }
    }

    /// Decodes an opcode octet.
    pub fn from(value: u8) -> (r: Option<PerfOpcode>)
        ensures
            r == PerfOpcode::of(value),
    {
        if value == OP_REQ_START {
            Some(PerfOpcode::ReqStart)
        } else if value == OP_REQ_END {
            Some(PerfOpcode::ReqEnd)
        } else if value == OP_RES_START {
            Some(PerfOpcode::ResStart)
        } else if value == OP_RES_END {
            Some(PerfOpcode::ResEnd)
        } else if value == OP_DATA {
            Some(PerfOpcode::Data)
        } else if value == OP_REQ_RESULT {
            Some(PerfOpcode::ReqResult)
        } else if value == OP_RES_RESULT {
            Some(PerfOpcode::ResResult)
        } else {
            None
        }
    }

    /// Encodes an opcode.
    pub fn to_u8(self) -> (v: u8)
        ensures
            v == self.octet(),
            PerfOpcode::of(v) == Some(self),
    {
        match self {
            PerfOpcode::ReqStart => OP_REQ_START,
            PerfOpcode::ReqEnd => OP_REQ_END,
            PerfOpcode::ResStart => OP_RES_START,
            PerfOpcode::ResEnd => OP_RES_END,
            PerfOpcode::Data => OP_DATA,
            PerfOpcode::ReqResult => OP_REQ_RESULT,
            PerfOpcode::ResResult => OP_RES_RESULT,
        }
    }
}

/// The payload of a start request.
#[derive(Clone, Copy, Debug, PartialEq, Eq, Structural)]
pub struct PerfStartReq {
    /// Seconds that the session is asked to last.
    pub duration: u32,
}

impl PerfStartReq {
    /// The four octets of the payload on the wire.
    pub open spec fn octets(self) -> Seq<u8> {
        be32_octets(self.duration as int)
    }

    /// The payload that starts at octet `at` of `s`, if `s` is long enough
    /// to hold one there.
    pub open spec fn parse(s: Seq<u8>, at: int) -> Option<PerfStartReq> {
        if 0 <= at && at + 4 <= s.len() {
            Some(PerfStartReq { duration: be32(s, at) as u32 })
        } else {
            None
        }
    }

    /// Decodes the payload at octet `at` of a buffer.
    pub fn decode(bytes: &[u8], at: usize) -> (r: Option<PerfStartReq>)
        ensures
            r == PerfStartReq::parse(bytes@, at as int),
    {
        let n: usize = bytes.len();
        if at > n || n - at < 4 {
            None
        } else {
            Some(PerfStartReq { duration: read_be32(bytes, at) })
        }
    }

    /// Appends the payload to a buffer.
    pub fn encode(&self, out: &mut Vec<u8>)
        ensures
            final(out)@ == old(out)@ + self.octets(),
    {
        push_be32(out, self.duration);
    }
}

/// What a responder has counted in the session under way.
#[derive(Clone, Copy, Debug, PartialEq, Eq, Structural)]
pub struct Statistics {
    pub pkt_count: u64,
    pub total_bytes: u64,
    /// The id of the data frame that came last.
    pub last_id: u32,
    /// Seconds that the session was asked to last.
    pub duration: u32,
    /// Whether a session is under way.
    pub running: bool,
}

/// What a responder says when a session ends.
#[derive(Clone, Copy, Debug, PartialEq, Eq, Structural)]
pub struct Summary {
    pub pkt_count: u64,
    pub total_bytes: u64,
    /// Bits per second over the session's length; none for a session of no
    /// length.
    pub bps: Option<u128>,
}

/// The final statistics that a result answer carries.
#[derive(Clone, Copy, Debug, PartialEq, Eq, Structural)]
pub struct PerfResult {
    pub pkt_count: u64,
    pub total_bytes: u64,
    pub elapsed_s: i64,
    pub elapsed_ns: i64,
}

/// A signed value as the unsigned value with the same 64 bits.
pub open spec fn as_bits64(v: i64) -> int {
    if v >= 0 {
        v as int
    } else {
        v + 0x1_0000_0000_0000_0000
    }
}

/// An unsigned value as the signed value with the same 64 bits.
pub open spec fn of_bits64(v: int) -> int {
    if v < 0x8000_0000_0000_0000 {
        v
    } else {
        v - 0x1_0000_0000_0000_0000
    }
}

impl PerfResult {
    /// The thirty-two octets of the statistics on the wire.
    pub open spec fn octets(self) -> Seq<u8> {
        be64_octets(self.pkt_count as int) + be64_octets(self.total_bytes as int) + be64_octets(
            as_bits64(self.elapsed_s),
        ) + be64_octets(as_bits64(self.elapsed_ns))
    }

    /// The statistics that start at octet `at` of `s`.
    pub open spec fn at(s: Seq<u8>, at: int) -> PerfResult {
        PerfResult {
            pkt_count: be64(s, at) as u64,
            total_bytes: be64(s, at + 8) as u64,
            elapsed_s: of_bits64(be64(s, at + 16)) as i64,
            elapsed_ns: of_bits64(be64(s, at + 24)) as i64,
        }
    }

    /// Appends the statistics to a buffer.
    pub fn encode(&self, out: &mut Vec<u8>)
        ensures
            final(out)@ == old(out)@ + self.octets(),
    {
        push_be64(out, self.pkt_count);
        push_be64(out, self.total_bytes);
        push_be64(out, bits64(self.elapsed_s));
        push_be64(out, bits64(self.elapsed_ns));
        assert(out@ =~= old(out)@ + self.octets());
    }

    /// Decodes the statistics at octet `at` of a buffer.
    pub fn decode(bytes: &[u8], at: usize) -> (r: PerfResult)
        requires
            at + RESULT_LEN <= bytes@.len(),
        ensures
            r == PerfResult::at(bytes@, at as int),
    {
        let n: usize = bytes.len();
        PerfResult {
            pkt_count: read_be64(bytes, at),
            total_bytes: read_be64(bytes, at + 8),
            elapsed_s: signed64(read_be64(bytes, at + 16)),
            elapsed_ns: signed64(read_be64(bytes, at + 24)),
        }
    }
}

/// The unsigned value with the same 64 bits.
pub fn bits64(v: i64) -> (r: u64)
    ensures
        r == as_bits64(v),
{
    if v >= 0 {
        v as u64
    } else {
        (v as i128 + 0x1_0000_0000_0000_0000) as u64
    }
}

/// The signed value with the same 64 bits.
pub fn signed64(v: u64) -> (r: i64)
    ensures
        r == of_bits64(v as int),
{
    if v < 0x8000_0000_0000_0000 {
        v as i64
    } else {
        (v as i128 - 0x1_0000_0000_0000_0000) as i64
    }
}

/// What a responder does with a received frame.
#[derive(Debug, PartialEq, Eq)]
pub enum ServerAction {
    /// Nothing.
    Ignore,
    /// A session starts: send this answer and start the statistics worker.
    Start(Vec<u8>),
    /// A data frame was counted.
    Count,
    /// The session ends: send this answer, stop the statistics worker and
    /// say the summary.
    End(Vec<u8>, Summary),
    /// Send this answer, which carries the final statistics.
    Result(Vec<u8>),
}

/// A responder's action, with frames as sequences of octets.
pub enum ServerDeed {
    Ignore,
    Start(Seq<u8>),
    Count,
    End(Seq<u8>, Summary),
    Result(Seq<u8>),
}

impl View for ServerAction {
    type V = ServerDeed;

    open spec fn view(&self) -> ServerDeed {
        match self {
            ServerAction::Ignore => ServerDeed::Ignore,
            ServerAction::Start(f) => ServerDeed::Start(f@),
            ServerAction::Count => ServerDeed::Count,
            ServerAction::End(f, s) => ServerDeed::End(f@, *s),
            ServerAction::Result(f) => ServerDeed::Result(f@),
        }
    }
}

/// The answer to a request: a frame to the request's sender, from the
/// responder's own address, with the request's id.
pub open spec fn answer_to(request: Seq<u8>, my_mac: MacAddr, op: u8, payload: Seq<u8>) -> Seq<
    u8,
> {
    perf_frame_with(
        MacAddr::at(request, 6),
        my_mac,
        Perf { id: be32(request, 14) as u32, op, tv_sec: 0, tv_nsec: 0 },
        payload,
    )
}

/// One more, unless the count is at its limit.
pub open spec fn bump(v: u64, by: int) -> u64 {
    if v + by > u64::MAX {
        u64::MAX
    } else {
        (v + by) as u64
    }
}

/// The summary of what was counted.
pub open spec fn summary_of(s: Statistics) -> Summary {
    Summary {
        pkt_count: s.pkt_count,
        total_bytes: s.total_bytes,
        bps: if s.duration == 0 {
            None
        } else {
            Some((s.total_bytes * 8 / (s.duration as int)) as u128)
        },
    }
}

/// The responder's transition on a frame of `frame.len()` octets. `elapsed`
/// is the time since the last session started.
///
/// A start request is answered when no session runs, and resets the counts;
/// while one runs it is ignored. A data frame is counted while a session runs:
/// one packet, and its octets with those of the hidden VLAN tag. An end
/// request stops the session and is answered with a summary. A result request
/// is answered in any state with the counts and `elapsed`.
pub open spec fn server_next(s: Statistics, frame: Seq<u8>, elapsed: Timespec, my_mac: MacAddr) -> (
    Statistics,
    ServerDeed,
) {
    match perf_of_frame(frame) {
        None => (s, ServerDeed::Ignore),
        Some(h) => {
            if h.op == OP_REQ_START {
                if s.running || PerfStartReq::parse(frame, PERF_FRAME_MIN as int) is None {
                    (s, ServerDeed::Ignore)
                } else {
                    (
                        Statistics {
                            pkt_count: 0,
                            total_bytes: 0,
                            last_id: 0,
                            duration: PerfStartReq::parse(frame, PERF_FRAME_MIN as int)->0.duration,
                            running: true,
                        },
                        ServerDeed::Start(answer_to(frame, my_mac, OP_RES_START, Seq::empty())),
                    )
                }
            } else if h.op == OP_DATA {
                if s.running {
                    (
                        Statistics {
                            pkt_count: bump(s.pkt_count, 1),
                            total_bytes: bump(s.total_bytes, frame.len() + VLAN_TAG_LEN),
                            last_id: h.id,
                            ..s
                        },
                        ServerDeed::Count,
                    )
                } else {
                    (s, ServerDeed::Ignore)
                }
            } else if h.op == OP_REQ_END {
                (
                    Statistics { running: false, ..s },
                    ServerDeed::End(
                        answer_to(frame, my_mac, OP_RES_END, Seq::empty()),
                        summary_of(s),
                    ),
                )
            } else if h.op == OP_REQ_RESULT {
                (
                    s,
                    ServerDeed::Result(
                        answer_to(
                            frame,
                            my_mac,
                            OP_RES_RESULT,
                            PerfResult {
                                pkt_count: s.pkt_count,
                                total_bytes: s.total_bytes,
                                elapsed_s: elapsed.tv_sec,
                                elapsed_ns: elapsed.tv_nsec,
                            }.octets(),
                        ),
                    ),
                )
            } else {
                (s, ServerDeed::Ignore)
            }
        },
    }
}

fn build_answer(request: &[u8], my_mac: MacAddr, op: u8, payload: &[u8]) -> (out: Vec<u8>)
    requires
        request@.len() >= PERF_FRAME_MIN,
    ensures
        out@ == answer_to(request@, my_mac, op, payload@),
{
    let to = MacAddr::read(request, 6);
    let id: u32 = read_be32(request, 14);
    build_perf_frame_with(to, my_mac, Perf { id, op, tv_sec: 0, tv_nsec: 0 }, payload)
}

impl Statistics {
    /// The counts before any session.
    pub fn new() -> (s: Statistics)
        ensures
            s == (Statistics {
                pkt_count: 0,
                total_bytes: 0,
                last_id: 0,
                duration: 0,
                running: false,
            }),
    {
        Statistics { pkt_count: 0, total_bytes: 0, last_id: 0, duration: 0, running: false }
    }

    /// The summary of what was counted.
    pub fn summary(&self) -> (r: Summary)
        ensures
            r == summary_of(*self),
    {
        let bps: Option<u128> = if self.duration == 0 {
            None
        } else {
            Some(self.total_bytes as u128 * 8 / self.duration as u128)
        };
        Summary { pkt_count: self.pkt_count, total_bytes: self.total_bytes, bps }
    }

    /// Handles one received frame.
    pub fn on_frame(&mut self, frame: &[u8], elapsed: Timespec, my_mac: MacAddr) -> (action:
        ServerAction)
        ensures
            (*final(self), action@) == server_next(*old(self), frame@, elapsed, my_mac),
    {
        let h = match parse_perf_frame(frame) {
            None => {
                return ServerAction::Ignore;
            },
            Some(h) => h,
        };
        let empty: Vec<u8> = Vec::new();
        assert(empty@ =~= Seq::<u8>::empty());
        if h.op == OP_REQ_START {
            match PerfStartReq::decode(frame, PERF_FRAME_MIN) {
                Some(req) => {
                    if self.running {
                        ServerAction::Ignore
                    } else {
                        *self = Statistics {
                            pkt_count: 0,
                            total_bytes: 0,
                            last_id: 0,
                            duration: req.duration,
                            running: true,
                        };
                        ServerAction::Start(
                            build_answer(frame, my_mac, OP_RES_START, empty.as_slice()),
                        )
                    }
                },
                None => ServerAction::Ignore,
            }
        } else if h.op == OP_DATA {
            if self.running {
                self.pkt_count = self.pkt_count.saturating_add(1);
                let octets: u64 = (frame.len() as u64).saturating_add(VLAN_TAG_LEN);
                self.total_bytes = self.total_bytes.saturating_add(octets);
                self.last_id = h.id;
                ServerAction::Count
            } else {
                ServerAction::Ignore
            }
        } else if h.op == OP_REQ_END {
            let summary = self.summary();
            self.running = false;
            ServerAction::End(build_answer(frame, my_mac, OP_RES_END, empty.as_slice()), summary)
        } else if h.op == OP_REQ_RESULT {
            let result = PerfResult {
                pkt_count: self.pkt_count,
                total_bytes: self.total_bytes,
                elapsed_s: elapsed.tv_sec,
                elapsed_ns: elapsed.tv_nsec,
            };
            let mut payload: Vec<u8> = Vec::new();
            result.encode(&mut payload);
            assert(payload@ =~= result.octets());
            ServerAction::Result(build_answer(frame, my_mac, OP_RES_RESULT, payload.as_slice()))
        } else {
            ServerAction::Ignore
        }
    }
}

/// What a responder had counted at one moment.
#[derive(Clone, Copy, Debug, PartialEq, Eq, Structural)]
pub struct Snapshot {
    pub pkt_count: u64,
    pub total_bytes: u64,
    pub last_id: u32,
}

/// What the statistics worker says after one second.
#[derive(Clone, Copy, Debug, PartialEq, Eq, Structural)]
pub struct Tick {
    /// Packets counted in the second.
    pub packets: u64,
    /// Bits counted in the second.
    pub bits: u128,
    /// Ids that the second spans: the last id seen less the last id of the
    /// second before.
    pub ids: u32,
}

/// The difference, or zero where the later value is the smaller.
pub open spec fn gain(later: int, earlier: int) -> int {
    if later >= earlier {
        later - earlier
    } else {
        0
    }
}

/// What the worker says for the second between two snapshots.
pub open spec fn tick_of(before: Snapshot, now: Snapshot) -> Tick {
    Tick {
        packets: gain(now.pkt_count as int, before.pkt_count as int) as u64,
        bits: (gain(now.total_bytes as int, before.total_bytes as int) * 8) as u128,
        ids: gain(now.last_id as int, before.last_id as int) as u32,
    }
}

/// The statistics of one second, from the snapshot at its start and the one
/// at its end.
pub fn stats_worker(before: &Snapshot, now: &Snapshot) -> (t: Tick)
    ensures
        t == tick_of(*before, *now),
{
    Tick {
        packets: now.pkt_count.saturating_sub(before.pkt_count),
        bits: now.total_bytes.saturating_sub(before.total_bytes) as u128 * 8,
        ids: now.last_id.saturating_sub(before.last_id),
    }
}

/// Whether the worker goes on after `lap` whole seconds of a session that was
/// asked to last `duration` seconds.
pub fn worker_goes_on(running: bool, lap: u64, duration: u32) -> (b: bool)
    ensures
        b == (running && lap <= duration),
{
    running && lap <= duration as u64
}

/// The loss rate of a second in hundredths of a percent, rounded down: one
/// less the share of the spanned ids that arrived.
pub open spec fn loss_of(t: Tick) -> Option<int> {
    if t.ids == 0 {
        None
    } else {
        Some((10000 * (t.ids - t.packets)) / (t.ids as int))
    }
}

/// The loss rate of a second in hundredths of a percent, rounded down. A
/// second that spans no id has none.
pub fn loss_rate(t: &Tick) -> (r: Option<i128>)
    ensures
        match r {
            Some(v) => loss_of(*t) == Some(v as int),
            None => loss_of(*t) is None,
        },
{
    if t.ids == 0 {
        return None;
    }
    let ids: i128 = t.ids as i128;
    let packets: i128 = t.packets as i128;
    if packets <= ids {
        let num: i128 = 10000 * (ids - packets);
        Some(num / ids)
    } else {
        let over: i128 = 10000 * (packets - ids);
        let q: i128 = over / ids;
        let r: i128 = over % ids;
        assert(over == q * ids + r) by (nonlinear_arith)
            requires
                q == over / ids,
                r == over % ids,
                ids > 0,
        ;
        let res: i128 = if r == 0 {
            -q
        } else {
            -q - 1
        };
        assert(res as int == (-(over as int)) / (ids as int)) by (nonlinear_arith)
            requires
                over == q * ids + r,
                0 <= r < ids,
                res == if r == 0 {
                    -q
                } else {
                    -q - 1
                },
        ;
        Some(res)
    }
}

/// Nanoseconds between two data frames of `payload` octets after the headers,
/// at `target_bps` bits per second: the frame's bits over the rate.
pub open spec fn delay_of(payload: int, target_bps: int) -> int {
    ((PERF_FRAME_MIN + payload) * 8 * 1_000_000_000) / target_bps
}

/// Nanoseconds to wait between two data frames. A rate of zero has no delay.
pub fn packet_delay(payload: usize, target_bps: u64) -> (r: Option<u128>)
    ensures
        target_bps == 0 ==> r is None,
        target_bps > 0 ==> r == Some(delay_of(payload as int, target_bps as int) as u128),
{
    if target_bps == 0 {
        return None;
    }
    let bits: u128 = (PERF_FRAME_MIN as u128 + payload as u128) * 8;
    Some(bits * 1_000_000_000 / target_bps as u128)
}

/// What an initiator is set up to do.
#[derive(Clone, Copy, Debug, PartialEq, Eq, Structural)]
pub struct SenderSetup {
    /// Seconds that the session lasts.
    pub duration: u32,
    /// Octets of each data frame after the headers.
    pub payload: usize,
    /// Whether the final statistics are asked for.
    pub want_result: bool,
    pub target: MacAddr,
    pub source: MacAddr,
}

/// Where an initiator stands. The number is that of the attempt under way.
#[derive(Clone, Copy, Debug, PartialEq, Eq, Structural)]
pub enum SenderPhase {
    Idle,
    /// The start request is out.
    Starting(u8),
    /// Data frames are going out.
    Sending,
    /// The end request is out.
    Ending(u8),
    /// The result request is out.
    Asking(u8),
    /// The session is over.
    Done,
    /// The session was given up.
    Failed,
}

/// What happened since the initiator's last action.
#[derive(Clone, Copy, Debug, PartialEq, Eq, Structural)]
pub enum SenderEvent {
    /// The session starts.
    Go,
    /// No answer came within the retransmission timeout.
    Timeout,
    /// The data frame left and the pause after it is over.
    Sent,
    /// The session's length has elapsed.
    TimeUp,
    /// The run flag was cleared.
    Interrupted,
}

/// What an initiator orders next.
#[derive(Debug, PartialEq, Eq)]
pub enum SenderAction {
    /// The event does not concern the initiator where it stands.
    Nothing,
    /// Send this request and wait for its answer; hand over each frame that
    /// comes, or report `Timeout`.
    Request(Vec<u8>),
    /// Go on waiting for the answer.
    Listen,
    /// Send this data frame and pause for the packet delay, then report
    /// `Sent`, or `TimeUp` once the session's length has elapsed.
    Data(Vec<u8>),
    /// The session is over, with the final statistics if they were asked for.
    Finish(Option<PerfResult>),
    /// The session is given up.
    Abort(TsnError),
}

/// An initiator's order, with frames as sequences of octets.
pub enum SenderDeed {
    Nothing,
    Request(Seq<u8>),
    Listen,
    Data(Seq<u8>),
    Finish(Option<PerfResult>),
    Abort(TsnError),
}

impl View for SenderAction {
    type V = SenderDeed;

    open spec fn view(&self) -> SenderDeed {
        match self {
            SenderAction::Nothing => SenderDeed::Nothing,
            SenderAction::Request(f) => SenderDeed::Request(f@),
            SenderAction::Listen => SenderDeed::Listen,
            SenderAction::Data(f) => SenderDeed::Data(f@),
            SenderAction::Finish(r) => SenderDeed::Finish(*r),
            SenderAction::Abort(e) => SenderDeed::Abort(*e),
        }
    }
}

/// The initiator of a throughput measurement.
#[derive(Clone, Copy, Debug, PartialEq, Eq, Structural)]
pub struct Sender {
    pub setup: SenderSetup,
    pub phase: SenderPhase,
    /// The id of the data frame that goes out next.
    pub next_id: u32,
}

/// Whether a frame is the answer with this opcode.
pub open spec fn answers(frame: Seq<u8>, op: u8) -> bool {
    perf_of_frame(frame) matches Some(h) && h.op == op
}

/// The id after this one; ids start over after the largest.
pub open spec fn id_after(id: u32) -> u32 {
    if id == u32::MAX {
        0
    } else {
        (id + 1) as u32
    }
}

impl Sender {
    /// The data frames fit in memory.
    pub open spec fn wf(self) -> bool {
        self.setup.payload <= usize::MAX - PERF_FRAME_MIN
    }

    /// A request frame with this opcode and payload.
    pub open spec fn request(self, op: u8, payload: Seq<u8>) -> Seq<u8> {
        perf_frame_with(
            self.setup.target,
            self.setup.source,
            Perf { id: REQUEST_ID, op, tv_sec: 0, tv_nsec: 0 },
            payload,
        )
    }

    /// The start request: its payload is the session's length.
    pub open spec fn start_request(self) -> Seq<u8> {
        self.request(OP_REQ_START, PerfStartReq { duration: self.setup.duration }.octets())
    }

    /// The data frame with this id.
    pub open spec fn data(self, id: u32) -> Seq<u8> {
        perf_frame(
            self.setup.target,
            self.setup.source,
            Perf { id, op: OP_DATA, tv_sec: 0, tv_nsec: 0 },
            PERF_FRAME_MIN + self.setup.payload,
        )
    }

    /// The request that is out in a phase, if one is.
    pub open spec fn pending(self) -> Seq<u8> {
        match self.phase {
            SenderPhase::Starting(n) => self.start_request(),
            SenderPhase::Ending(n) => self.request(OP_REQ_END, Seq::empty()),
            _ => self.request(OP_REQ_RESULT, Seq::empty()),
        }
    }

    /// The phase with the next attempt in place of the one under way.
    pub open spec fn retry(self, n: u8) -> SenderPhase {
        match self.phase {
            SenderPhase::Starting(m) => SenderPhase::Starting((n + 1) as u8),
            SenderPhase::Ending(m) => SenderPhase::Ending((n + 1) as u8),
            _ => SenderPhase::Asking((n + 1) as u8),
        }
    }

    /// The initiator's transition on an event other than a received frame.
    ///
    /// A request that got no answer in time is sent again until it has gone
    /// out `MAX_ATTEMPTS` times; then the session is given up with
    /// `HandshakeFailed`. Data frames carry ids that count up from one; they
    /// stop when the session's length has elapsed or the run is interrupted,
    /// and the end request follows.
    pub open spec fn after(self, e: SenderEvent) -> (Sender, SenderDeed) {
        match self.phase {
            SenderPhase::Idle => match e {
                SenderEvent::Go => (
                    Sender { phase: SenderPhase::Starting(1), ..self },
                    SenderDeed::Request(self.start_request()),
                ),
                SenderEvent::Interrupted => (
                    Sender { phase: SenderPhase::Failed, ..self },
                    SenderDeed::Abort(TsnError::Interrupted),
                ),
                _ => (self, SenderDeed::Nothing),
            },
            SenderPhase::Starting(n) => self.after_waiting(n, e),
            SenderPhase::Ending(n) => self.after_waiting(n, e),
            SenderPhase::Asking(n) => self.after_waiting(n, e),
            SenderPhase::Sending => match e {
                SenderEvent::Sent => (
                    Sender { next_id: id_after(self.next_id), ..self },
                    SenderDeed::Data(self.data(self.next_id)),
                ),
                SenderEvent::TimeUp => (
                    Sender { phase: SenderPhase::Ending(1), ..self },
                    SenderDeed::Request(self.request(OP_REQ_END, Seq::empty())),
                ),
                SenderEvent::Interrupted => (
                    Sender { phase: SenderPhase::Ending(1), ..self },
                    SenderDeed::Request(self.request(OP_REQ_END, Seq::empty())),
                ),
                _ => (self, SenderDeed::Nothing),
            },
            SenderPhase::Done => (self, SenderDeed::Nothing),
            SenderPhase::Failed => (self, SenderDeed::Nothing),
        }
    }

    /// The transition while a request is out, on its attempt `n`.
    pub open spec fn after_waiting(self, n: u8, e: SenderEvent) -> (Sender, SenderDeed) {
        match e {
            SenderEvent::Timeout => if n < MAX_ATTEMPTS {
                (Sender { phase: self.retry(n), ..self }, SenderDeed::Request(self.pending()))
            } else {
                (
                    Sender { phase: SenderPhase::Failed, ..self },
                    SenderDeed::Abort(TsnError::HandshakeFailed),
                )
            },
            SenderEvent::Interrupted => (
                Sender { phase: SenderPhase::Failed, ..self },
                SenderDeed::Abort(TsnError::Interrupted),
            ),
            _ => (self, SenderDeed::Nothing),
        }
    }

    /// The initiator's transition on a received frame. While a request is
    /// out, the answer with the awaited opcode moves the session on; any other
    /// frame is passed over.
    pub open spec fn after_frame(self, frame: Seq<u8>) -> (Sender, SenderDeed) {
        match self.phase {
            SenderPhase::Starting(n) => if answers(frame, OP_RES_START) {
                (
                    Sender { phase: SenderPhase::Sending, next_id: 2, ..self },
                    SenderDeed::Data(self.data(1)),
                )
            } else {
                (self, SenderDeed::Listen)
            },
            SenderPhase::Ending(n) => if answers(frame, OP_RES_END) {
                if self.setup.want_result {
                    (
                        Sender { phase: SenderPhase::Asking(1), ..self },
                        SenderDeed::Request(self.request(OP_REQ_RESULT, Seq::empty())),
                    )
                } else {
                    (Sender { phase: SenderPhase::Done, ..self }, SenderDeed::Finish(None))
                }
            } else {
                (self, SenderDeed::Listen)
            },
            SenderPhase::Asking(n) => if answers(frame, OP_RES_RESULT) && frame.len()
                >= PERF_FRAME_MIN + RESULT_LEN {
                (
                    Sender { phase: SenderPhase::Done, ..self },
                    SenderDeed::Finish(Some(PerfResult::at(frame, PERF_FRAME_MIN as int))),
                )
            } else {
                (self, SenderDeed::Listen)
            },
            _ => (self, SenderDeed::Nothing),
        }
    }

    /// Tells whether the initiator is in order.
    pub fn is_wf(&self) -> (b: bool)
        ensures
            b == self.wf(),
    {
        self.setup.payload <= usize::MAX - PERF_FRAME_MIN
    }

    /// An initiator that has sent nothing. A payload too large for a frame to
    /// be built is refused.
    pub fn new(setup: SenderSetup) -> (r: Option<Sender>)
        ensures
            setup.payload > usize::MAX - PERF_FRAME_MIN ==> r is None,
            setup.payload <= usize::MAX - PERF_FRAME_MIN ==> r == Some(
                Sender { setup, phase: SenderPhase::Idle, next_id: 1 },
            ),
    {
        if setup.payload > usize::MAX - PERF_FRAME_MIN {
            None
        } else {
            Some(Sender { setup, phase: SenderPhase::Idle, next_id: 1 })
        }
    }

    fn build_request(&self, op: u8) -> (f: Vec<u8>)
        ensures
            op == OP_REQ_START ==> f@ == self.start_request(),
            op != OP_REQ_START ==> f@ == self.request(op, Seq::empty()),
    {
        let mut payload: Vec<u8> = Vec::new();
        if op == OP_REQ_START {
            PerfStartReq { duration: self.setup.duration }.encode(&mut payload);
        }
        assert(op == OP_REQ_START ==> payload@ =~= be32_octets(self.setup.duration as int));
        assert(op != OP_REQ_START ==> payload@ =~= Seq::<u8>::empty());
        build_perf_frame_with(
            self.setup.target,
            self.setup.source,
            Perf { id: REQUEST_ID, op, tv_sec: 0, tv_nsec: 0 },
            payload.as_slice(),
        )
    }

    fn build_data(&self, id: u32) -> (f: Vec<u8>)
        requires
            self.wf(),
        ensures
            f@ == self.data(id),
    {
        build_perf_frame(
            self.setup.target,
            self.setup.source,
            Perf { id, op: OP_DATA, tv_sec: 0, tv_nsec: 0 },
            PERF_FRAME_MIN + self.setup.payload,
        ).unwrap()
    }

    fn waiting_step(&mut self, n: u8, e: SenderEvent) -> (action: SenderAction)
        requires
            old(self).phase == SenderPhase::Starting(n) || old(self).phase == SenderPhase::Ending(n)
                || old(self).phase == SenderPhase::Asking(n),
        ensures
            (*final(self), action@) == old(self).after_waiting(n, e),
    {
        match e {
            SenderEvent::Timeout => {
                if n < MAX_ATTEMPTS {
                    match self.phase {
                        SenderPhase::Starting(m) => {
                            self.phase = SenderPhase::Starting(n + 1);
                            SenderAction::Request(self.build_request(OP_REQ_START))
                        },
                        SenderPhase::Ending(m) => {
                            self.phase = SenderPhase::Ending(n + 1);
                            SenderAction::Request(self.build_request(OP_REQ_END))
                        },
                        _ => {
                            self.phase = SenderPhase::Asking(n + 1);
                            SenderAction::Request(self.build_request(OP_REQ_RESULT))
                        },
                    }
                } else {
                    self.phase = SenderPhase::Failed;
                    SenderAction::Abort(TsnError::HandshakeFailed)
                }
            },
            SenderEvent::Interrupted => {
                self.phase = SenderPhase::Failed;
                SenderAction::Abort(TsnError::Interrupted)
            },
            _ => SenderAction::Nothing,
        }
    }

    /// Takes one step on an event other than a received frame.
    pub fn on_event(&mut self, e: SenderEvent) -> (action: SenderAction)
        requires
            old(self).wf(),
        ensures
            final(self).wf(),
            (*final(self), action@) == old(self).after(e),
    {
        match self.phase {
            SenderPhase::Idle => match e {
                SenderEvent::Go => {
                    self.phase = SenderPhase::Starting(1);
                    SenderAction::Request(self.build_request(OP_REQ_START))
                },
                SenderEvent::Interrupted => {
                    self.phase = SenderPhase::Failed;
                    SenderAction::Abort(TsnError::Interrupted)
                },
                _ => SenderAction::Nothing,
            },
            SenderPhase::Starting(n) => self.waiting_step(n, e),
            SenderPhase::Ending(n) => self.waiting_step(n, e),
            SenderPhase::Asking(n) => self.waiting_step(n, e),
            SenderPhase::Sending => match e {
                SenderEvent::Sent => {
                    let f = self.build_data(self.next_id);
                    self.next_id = if self.next_id == u32::MAX {
                        0
                    } else {
                        self.next_id + 1
                    };
                    SenderAction::Data(f)
                },
                SenderEvent::TimeUp => {
                    self.phase = SenderPhase::Ending(1);
                    SenderAction::Request(self.build_request(OP_REQ_END))
                },
                SenderEvent::Interrupted => {
                    self.phase = SenderPhase::Ending(1);
                    SenderAction::Request(self.build_request(OP_REQ_END))
                },
                _ => SenderAction::Nothing,
            },
            SenderPhase::Done => SenderAction::Nothing,
            SenderPhase::Failed => SenderAction::Nothing,
        }
    }

    /// Takes one step on a received frame.
    pub fn on_frame(&mut self, frame: &[u8]) -> (action: SenderAction)
        requires
            old(self).wf(),
        ensures
            final(self).wf(),
            (*final(self), action@) == old(self).after_frame(frame@),
    {
        let op: Option<u8> = match parse_perf_frame(frame) {
            Some(h) => Some(h.op),
            None => None,
        };
        match self.phase {
            SenderPhase::Starting(n) => {
                if op == Some(OP_RES_START) {
                    let f = self.build_data(1);
                    self.phase = SenderPhase::Sending;
                    self.next_id = 2;
                    SenderAction::Data(f)
                } else {
                    SenderAction::Listen
                }
            },
            SenderPhase::Ending(n) => {
                if op == Some(OP_RES_END) {
                    if self.setup.want_result {
                        self.phase = SenderPhase::Asking(1);
                        SenderAction::Request(self.build_request(OP_REQ_RESULT))
                    } else {
                        self.phase = SenderPhase::Done;
                        SenderAction::Finish(None)
                    }
                } else {
                    SenderAction::Listen
                }
            },
            SenderPhase::Asking(n) => {
                if op == Some(OP_RES_RESULT) && frame.len() >= PERF_FRAME_MIN + RESULT_LEN {
                    let r = PerfResult::decode(frame, PERF_FRAME_MIN);
                    self.phase = SenderPhase::Done;
                    SenderAction::Finish(Some(r))
                } else {
                    SenderAction::Listen
                }
            },
            _ => SenderAction::Nothing,
        }
    }
}

/// Whether a frame is the answer with this opcode.
pub fn wait_for_response(frame: &[u8], op: PerfOpField) -> (b: bool)
    ensures
        b == answers(frame@, op.0),
{
    match parse_perf_frame(frame) {
        Some(h) => h.op == op.0,
        None => false,
    }
}

/// A request that gets no answer goes out `MAX_ATTEMPTS` times, and the
/// timeout after the last of them gives the session up with
/// `HandshakeFailed`.
pub proof fn lemma_handshake_gives_up(s: Sender)
    requires
        s.phase == SenderPhase::Idle,
    ensures
        ({
            let a = s.after(SenderEvent::Go);
            let b = a.0.after(SenderEvent::Timeout);
            let c = b.0.after(SenderEvent::Timeout);
            let d = c.0.after(SenderEvent::Timeout);
            &&& a.1 == SenderDeed::Request(s.start_request())
            &&& b.1 == SenderDeed::Request(s.start_request())
            &&& c.1 == SenderDeed::Request(s.start_request())
            &&& d.1 == SenderDeed::Abort(TsnError::HandshakeFailed)
            &&& d.0.phase == SenderPhase::Failed
        }),
{
}

} // verus!
