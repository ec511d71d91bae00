use crate::perf::build_perf_frame;
use crate::perf::perf_frame;
use crate::perf::perf_of_frame;
use crate::perf::parse_perf_frame;
use crate::perf::MacAddr;
use crate::perf::Perf;
use crate::perf::PERF_FRAME_MIN;
use crate::time::elapsed_nanos;
use crate::time::Timespec;
use vstd::prelude::*;
use vstd::slice::*;

verus! {

/// Opcode of a round-trip probe.
pub const OP_PING: u8 = 0;

/// Opcode of the reply to a round-trip probe.
pub const OP_PONG: u8 = 1;

/// Opcode of a one-way probe.
pub const OP_TX: u8 = 2;

/// Opcode of the frame that carries the transmit time of the one-way probe
/// before it.
pub const OP_SYNC: u8 = 3;

/// Seconds that the initiator waits for the reply to one probe.
pub const REPLY_BUDGET_SECS: u64 = 1;

/// The opcodes of a latency measurement.
#[derive(Clone, Copy, Debug, PartialEq, Eq, Structural)]
pub enum PerfOp {
    Ping,
    Pong,
    Tx,
    Sync,
}

impl PerfOp {
    /// The opcode that an octet stands for, if any.
    pub open spec fn of(v: u8) -> Option<PerfOp> {
        if v == OP_PING {
            Some(PerfOp::Ping)
        } else if v == OP_PONG {
            Some(PerfOp::Pong)
        } else if v == OP_TX {
            Some(PerfOp::Tx)
        } else if v == OP_SYNC {
            Some(PerfOp::Sync)
        } else {
            None
        }
    }

    /// The octet of an opcode.
    pub open spec fn octet(self) -> u8 {
        match self {
            PerfOp::Ping => OP_PING,
            PerfOp::Pong => OP_PONG,
            PerfOp::Tx => OP_TX,
            PerfOp::Sync => OP_SYNC,
        }
    }

    /// Decodes an opcode octet.
    pub fn from_u8(v: u8) -> (r: Option<PerfOp>)
        ensures
            r == PerfOp::of(v),
    {
        if v == OP_PING {
            Some(PerfOp::Ping)
        } else if v == OP_PONG {
            Some(PerfOp::Pong)
        } else if v == OP_TX {
            Some(PerfOp::Tx)
        } else if v == OP_SYNC {
            Some(PerfOp::Sync)
        } else {
            None
        }
    }

    /// Encodes an opcode.
    pub fn to_u8(self) -> (v: u8)
        ensures
            v == self.octet(),
            PerfOp::of(v) == Some(self),
    {
        match self {
            PerfOp::Ping => OP_PING,
            PerfOp::Pong => OP_PONG,
            PerfOp::Tx => OP_TX,
            PerfOp::Sync => OP_SYNC,
        }
    }
}

/// The one-way probe that a responder saw last.
#[derive(Clone, Copy, Debug, PartialEq, Eq, Structural)]
pub struct LastTx {
    pub id: u32,
    /// When the probe arrived, by the responder's clock.
    pub rx: Timespec,
}

/// One one-way measurement.
#[derive(Clone, Copy, Debug, PartialEq, Eq, Structural)]
pub struct SyncReport {
    pub id: u32,
    /// When the probe left, by the initiator's clock.
    pub tx: Timespec,
    /// When the probe arrived, by the responder's clock.
    pub rx: Timespec,
    /// Nanoseconds from `tx` to `rx`.
    pub elapsed_ns: i128,
}

/// What a responder does with a received frame.
#[derive(Debug, PartialEq, Eq)]
pub enum ResponderAction {
    /// Nothing.
    Ignore,
    /// Send this frame.
    Reply(Vec<u8>),
    /// Emit this measurement.
    Report(SyncReport),
}

/// A responder's action, with the frame as a sequence of octets.
pub enum ResponderDeed {
    Ignore,
    Reply(Seq<u8>),
    Report(SyncReport),
}

impl View for ResponderAction {
    type V = ResponderDeed;

    open spec fn view(&self) -> ResponderDeed {
        match self {
            ResponderAction::Ignore => ResponderDeed::Ignore,
            ResponderAction::Reply(f) => ResponderDeed::Reply(f@),
            ResponderAction::Report(r) => ResponderDeed::Report(*r),
        }
    }
}

/// The reply to a round-trip probe: the probe itself, sent back to where it
/// came from, with the responder's own address as its source and the opcode
/// of a reply.
pub open spec fn pong_of(frame: Seq<u8>, my_mac: MacAddr) -> Seq<u8> {
    frame.subrange(6, 12) + my_mac.octets() + frame.subrange(12, 18) + seq![OP_PONG]
        + frame.subrange(19, frame.len() as int)
}

/// The time that a header carries.
pub open spec fn stamp_of(h: Perf) -> Timespec {
    Timespec { tv_sec: h.tv_sec as i64, tv_nsec: h.tv_nsec as i64 }
}

/// The measurement that a `SYNC` header yields against the stored probe.
pub open spec fn report_of(last: LastTx, h: Perf) -> SyncReport {
    SyncReport {
        id: h.id,
        tx: stamp_of(h),
        rx: last.rx,
        elapsed_ns: (last.rx.nanos() - stamp_of(h).nanos()) as i128,
    }
}

/// The responder's transition: the stored probe after the frame, and what to
/// do. A frame that is no measurement frame is ignored. A round-trip probe is
/// answered and leaves no trace. A one-way probe replaces the stored probe. A
/// `SYNC` is measured against the stored probe when the ids agree and it
/// carries a time; otherwise it is ignored.
pub open spec fn responder_next(
    last: Option<LastTx>,
    frame: Seq<u8>,
    rx: Timespec,
    my_mac: MacAddr,
) -> (Option<LastTx>, ResponderDeed) {
    match perf_of_frame(frame) {
        None => (last, ResponderDeed::Ignore),
        Some(h) => {
            if h.op == OP_PING {
                (last, ResponderDeed::Reply(pong_of(frame, my_mac)))
            } else if h.op == OP_TX {
                (Some(LastTx { id: h.id, rx }), ResponderDeed::Ignore)
            } else if h.op == OP_SYNC {
                match last {
                    Some(l) => if l.id == h.id && !(h.tv_sec == 0 && h.tv_nsec == 0) {
                        (last, ResponderDeed::Report(report_of(l, h)))
                    } else {
                        (last, ResponderDeed::Ignore)
                    },
                    None => (last, ResponderDeed::Ignore),
                }
            } else {
                (last, ResponderDeed::Ignore)
            }
        },
    }
}

/// The responder of a latency measurement. It keeps one slot: the one-way
/// probe it saw last.
#[derive(Clone, Copy, Debug, PartialEq, Eq, Structural)]
pub struct Responder {
    pub last_tx: Option<LastTx>,
}

/// Builds the reply to a round-trip probe.
pub fn build_pong(frame: &[u8], my_mac: MacAddr) -> (out: Vec<u8>)
    requires
        frame@.len() >= PERF_FRAME_MIN,
    ensures
        out@ == pong_of(frame@, my_mac),
{
    let n: usize = frame.len();
    let mut out: Vec<u8> = slice_to_vec(slice_subrange(frame, 6, 12));
    my_mac.push(&mut out);
    let mut i: usize = 12;
    while i < 18
        invariant
            12 <= i <= 18,
            n == frame@.len(),
            n >= PERF_FRAME_MIN,
            out@ == frame@.subrange(6, 12) + my_mac.octets() + frame@.subrange(12, i as int),
        decreases 18 - i,
    {
        out.push(frame[i]);
        i = i + 1;
        assert(out@ =~= frame@.subrange(6, 12) + my_mac.octets() + frame@.subrange(
            12,
            i as int,
        ));
    }
    out.push(OP_PONG);
    let ghost head = out@;
    let mut j: usize = 19;
    while j < n
        invariant
            19 <= j <= n,
            n == frame@.len(),
            out@ == head + frame@.subrange(19, j as int),
        decreases n - j,
    {
        out.push(frame[j]);
        j = j + 1;
        assert(out@ =~= head + frame@.subrange(19, j as int));
    }
    out
}

impl Responder {
    /// A responder that has seen no probe.
    pub fn new() -> (r: Responder)
        ensures
            r.last_tx is None,
    {
        Responder { last_tx: None }
    }

    /// Handles one received frame. `rx` is when it arrived; `my_mac` is the
    /// address of the interface that the responder listens on.
    pub fn on_frame(&mut self, frame: &[u8], rx: Timespec, my_mac: MacAddr) -> (action:
        ResponderAction)
        ensures
            (final(self).last_tx, action@) == responder_next(
                old(self).last_tx,
                frame@,
                rx,
                my_mac,
            ),
    {
        let h = match parse_perf_frame(frame) {
            None => {
                return ResponderAction::Ignore;
            },
            Some(h) => h,
        };
        if h.op == OP_PING {
            ResponderAction::Reply(build_pong(frame, my_mac))
        } else if h.op == OP_TX {
            self.last_tx = Some(LastTx { id: h.id, rx });
            ResponderAction::Ignore
        } else if h.op == OP_SYNC {
            match self.last_tx {
                Some(l) => {
                    if l.id == h.id && !(h.tv_sec == 0 && h.tv_nsec == 0) {
                        let tx = Timespec { tv_sec: h.tv_sec as i64, tv_nsec: h.tv_nsec as i64 };
                        let elapsed_ns: i128 = elapsed_nanos(&tx, &l.rx);
                        ResponderAction::Report(
                            SyncReport { id: h.id, tx, rx: l.rx, elapsed_ns },
                        )
                    } else {
                        ResponderAction::Ignore
                    }
                },
                None => ResponderAction::Ignore,
            }
        } else {
            ResponderAction::Ignore
        }
    }
}

/// The two ways to measure latency.
#[derive(Clone, Copy, Debug, PartialEq, Eq, Structural)]
pub enum Mode {
    /// Probe and reply; the initiator measures the round trip.
    Rtt,
    /// Probe and its transmit time; the responder measures one way.
    OneWay,
}

/// What an initiator is set up to do.
#[derive(Clone, Copy, Debug, PartialEq, Eq, Structural)]
pub struct ClientSetup {
    pub mode: Mode,
    /// Number of probes.
    pub count: u32,
    /// Octets of each frame.
    pub size: usize,
    /// Whether each probe leaves on a second boundary.
    pub precise: bool,
    pub target: MacAddr,
    pub source: MacAddr,
}

/// Where an initiator stands.
#[derive(Clone, Copy, Debug, PartialEq, Eq, Structural)]
pub enum ClientPhase {
    /// About to start the next probe.
    Ready,
    /// Waiting for the second boundary before the probe.
    Aligning,
    /// The probe is with the socket.
    ProbeSent,
    /// The `SYNC` frame is with the socket.
    SyncSent,
    /// Waiting for the reply.
    Waiting,
    /// Pausing between two probes.
    Resting,
    /// No probe is left, or the run was interrupted.
    Finished,
}

/// What happened since the initiator's last action.
#[derive(Clone, Copy, Debug, PartialEq, Eq, Structural)]
pub enum ClientEvent {
    /// The run starts, or goes on after an event that ordered nothing.
    Go,
    /// The frame left, at this time.
    Sent(Timespec),
    /// The frame could not be sent.
    SendFailed,
    /// No frame arrived this time; the budget is not spent.
    NoFrame,
    /// The budget for the reply is spent.
    BudgetSpent,
    /// The pause is over.
    Rested,
    /// The run flag was cleared.
    Interrupted,
}

/// How an initiator pauses.
#[derive(Clone, Copy, Debug, PartialEq, Eq, Structural)]
pub enum Rest {
    /// For the interval and its jitter.
    Interval,
    /// Until the next second boundary.
    NextSecond,
}

/// What an initiator emits for one probe.
#[derive(Clone, Copy, Debug, PartialEq, Eq, Structural)]
pub enum Record {
    /// The reply came: nanoseconds from the probe's transmit time to the
    /// reply's receive time.
    Rtt { id: u32, elapsed_ns: i128 },
    /// No reply came within the budget.
    Loss { id: u32 },
}

/// What an initiator orders next.
#[derive(Debug, PartialEq, Eq)]
pub enum ClientAction {
    /// The event does not concern the initiator where it stands.
    Nothing,
    /// Send this frame, then report `Sent` or `SendFailed`.
    Send(Vec<u8>),
    /// Receive one frame, then hand it over, or report `NoFrame` or
    /// `BudgetSpent`.
    Receive,
    /// Pause, then report `Rested`.
    Pause(Rest),
    /// Stop.
    Finish,
}

/// An initiator's order, with the frame as a sequence of octets.
pub enum ClientDeed {
    Nothing,
    Send(Seq<u8>),
    Receive,
    Pause(Rest),
    Finish,
}

impl View for ClientAction {
    type V = ClientDeed;

    open spec fn view(&self) -> ClientDeed {
        match self {
            ClientAction::Nothing => ClientDeed::Nothing,
            ClientAction::Send(f) => ClientDeed::Send(f@),
            ClientAction::Receive => ClientDeed::Receive,
            ClientAction::Pause(r) => ClientDeed::Pause(*r),
            ClientAction::Finish => ClientDeed::Finish,
        }
    }
}

/// One step of an initiator: what it emits and what it orders.
#[derive(Debug, PartialEq, Eq)]
pub struct ClientStep {
    pub emit: Option<Record>,
    pub action: ClientAction,
}

/// The initiator of a latency measurement.
#[derive(Clone, Copy, Debug, PartialEq, Eq, Structural)]
pub struct Client {
    pub setup: ClientSetup,
    /// Probes that are over.
    pub done: u32,
    pub phase: ClientPhase,
    /// When the probe under way left.
    pub t_tx: Timespec,
}

/// The header of the probe with this id.
pub open spec fn probe_header(mode: Mode, id: u32) -> Perf {
    Perf {
        id,
        op: match mode {
            Mode::Rtt => OP_PING,
            Mode::OneWay => OP_TX,
        },
        tv_sec: 0,
        tv_nsec: 0,
    }
}

/// The header of the `SYNC` frame for the probe with this id, which left at
/// `t`: seconds and nanoseconds are cut to 32 bits.
pub open spec fn sync_header(id: u32, t: Timespec) -> Perf {
    Perf {
        id,
        op: OP_SYNC,
        tv_sec: (t.tv_sec as int % 4294967296) as u32,
        tv_nsec: (t.tv_nsec as int % 4294967296) as u32,
    }
}

impl Client {
    /// The frames are large enough and the count of finished probes is within
    /// the count asked for.
    pub open spec fn wf(self) -> bool {
        &&& self.setup.size >= PERF_FRAME_MIN
        &&& self.done <= self.setup.count
        &&& (self.phase == ClientPhase::ProbeSent || self.phase == ClientPhase::SyncSent
            || self.phase == ClientPhase::Waiting || self.phase == ClientPhase::Aligning)
            ==> self.done < self.setup.count
    }

    /// The id of the probe under way.
    pub open spec fn id(self) -> u32 {
        (self.done + 1) as u32
    }

    /// The probe frame of the probe under way.
    pub open spec fn probe(self) -> Seq<u8> {
        perf_frame(
            self.setup.target,
            self.setup.source,
            probe_header(self.setup.mode, self.id()),
            self.setup.size as int,
        )
    }

    /// The state and step where the next probe starts: finish when none is
    /// left, wait for the second boundary in precise mode, send otherwise.
    pub open spec fn start_probe(self) -> (Client, Option<Record>, ClientDeed) {
        if self.done >= self.setup.count {
            (Client { phase: ClientPhase::Finished, ..self }, None, ClientDeed::Finish)
        } else if self.setup.precise {
            (
                Client { phase: ClientPhase::Aligning, ..self },
                None,
                ClientDeed::Pause(Rest::NextSecond),
            )
        } else {
            (
                Client { phase: ClientPhase::ProbeSent, ..self },
                None,
                ClientDeed::Send(self.probe()),
            )
        }
    }

    /// The state and step where the probe under way is over, with what it
    /// emits: pause for the interval, or in precise mode go on to the next
    /// probe at once.
    pub open spec fn end_probe(self, emit: Option<Record>) -> (Client, Option<Record>, ClientDeed) {
        let next = Client { done: (self.done + 1) as u32, ..self };
        if self.setup.precise {
            (next.start_probe().0, emit, next.start_probe().2)
        } else {
            (Client { phase: ClientPhase::Resting, ..next }, emit, ClientDeed::Pause(Rest::Interval))
        }
    }

    /// The initiator's transition on an event other than a received frame.
    pub open spec fn after(self, e: ClientEvent) -> (Client, Option<Record>, ClientDeed) {
        if e == ClientEvent::Interrupted {
            (Client { phase: ClientPhase::Finished, ..self }, None, ClientDeed::Finish)
        } else {
            match self.phase {
                ClientPhase::Ready => if e == ClientEvent::Go {
                    self.start_probe()
                } else {
                    (self, None, ClientDeed::Nothing)
                },
                ClientPhase::Aligning => if e == ClientEvent::Rested {
                    (
                        Client { phase: ClientPhase::ProbeSent, ..self },
                        None,
                        ClientDeed::Send(self.probe()),
                    )
                } else {
                    (self, None, ClientDeed::Nothing)
                },
                ClientPhase::ProbeSent => match e {
                    ClientEvent::Sent(t) => match self.setup.mode {
                        Mode::Rtt => (
                            Client { phase: ClientPhase::Waiting, t_tx: t, ..self },
                            None,
                            ClientDeed::Receive,
                        ),
                        Mode::OneWay => (
                            Client { phase: ClientPhase::SyncSent, t_tx: t, ..self },
                            None,
                            ClientDeed::Send(
                                perf_frame(
                                    self.setup.target,
                                    self.setup.source,
                                    sync_header(self.id(), t),
                                    self.setup.size as int,
                                ),
                            ),
                        ),
                    },
                    ClientEvent::SendFailed => self.end_probe(None),
                    _ => (self, None, ClientDeed::Nothing),
                },
                ClientPhase::SyncSent => match e {
                    ClientEvent::Sent(t) => self.end_probe(None),
                    ClientEvent::SendFailed => self.end_probe(None),
                    _ => (self, None, ClientDeed::Nothing),
                },
                ClientPhase::Waiting => match e {
                    ClientEvent::NoFrame => (self, None, ClientDeed::Receive),
                    ClientEvent::BudgetSpent => self.end_probe(
                        Some(Record::Loss { id: self.id() }),
                    ),
                    _ => (self, None, ClientDeed::Nothing),
                },
                ClientPhase::Resting => if e == ClientEvent::Rested {
                    self.start_probe()
                } else {
                    (self, None, ClientDeed::Nothing)
                },
                ClientPhase::Finished => (self, None, ClientDeed::Finish),
            }
        }
    }

    /// Whether a received frame is the reply that the initiator waits for: a
    /// measurement frame with the id of the probe under way.
    pub open spec fn is_reply(self, frame: Seq<u8>) -> bool {
        perf_of_frame(frame) matches Some(h) && h.id == self.id()
    }

    /// The initiator's transition on a received frame, which arrived at `rx`.
    /// While it waits for a reply, the first frame with the probe's id ends
    /// the probe with a measurement; any other frame is passed over.
    pub open spec fn after_frame(self, frame: Seq<u8>, rx: Timespec) -> (
        Client,
        Option<Record>,
        ClientDeed,
    ) {
        if self.phase == ClientPhase::Waiting {
            if self.is_reply(frame) {
                self.end_probe(
                    Some(
                        Record::Rtt {
                            id: self.id(),
                            elapsed_ns: (rx.nanos() - self.t_tx.nanos()) as i128,
                        },
                    ),
                )
            } else {
                (self, None, ClientDeed::Receive)
            }
        } else if self.phase == ClientPhase::Finished {
            (self, None, ClientDeed::Finish)
        } else {
            (self, None, ClientDeed::Nothing)
        }
    }

    /// Tells whether the initiator is in order.
    pub fn is_wf(&self) -> (b: bool)
        ensures
            b == self.wf(),
    {
        let busy = match self.phase {
            ClientPhase::ProbeSent => true,
            ClientPhase::SyncSent => true,
            ClientPhase::Waiting => true,
            ClientPhase::Aligning => true,
            _ => false,
        };
        self.setup.size >= PERF_FRAME_MIN && self.done <= self.setup.count && (!busy || self.done
            < self.setup.count)
    }

    /// An initiator that has sent nothing. A frame size too small for the
    /// headers is refused.
    pub fn new(setup: ClientSetup) -> (r: Option<Client>)
        ensures
            setup.size < PERF_FRAME_MIN ==> r is None,
            setup.size >= PERF_FRAME_MIN ==> r == Some(
                Client {
                    setup,
                    done: 0,
                    phase: ClientPhase::Ready,
                    t_tx: Timespec { tv_sec: 0, tv_nsec: 0 },
                },
            ) && r->0.wf(),
    {
        if setup.size < PERF_FRAME_MIN {
            None
        } else {
            Some(
                Client {
                    setup,
                    done: 0,
                    phase: ClientPhase::Ready,
                    t_tx: Timespec { tv_sec: 0, tv_nsec: 0 },
                },
            )
        }
    }

    fn build_probe(&self) -> (f: Vec<u8>)
        requires
            self.wf(),
            self.done < self.setup.count,
        ensures
            f@ == self.probe(),
    {
        let op: u8 = match self.setup.mode {
            Mode::Rtt => OP_PING,
            Mode::OneWay => OP_TX,
        };
        let h = Perf { id: self.done + 1, op, tv_sec: 0, tv_nsec: 0 };
        build_perf_frame(self.setup.target, self.setup.source, h, self.setup.size).unwrap()
    }

    fn begin_probe(&mut self) -> (step: ClientStep)
        requires
            old(self).wf(),
        ensures
            final(self).wf(),
            (*final(self), step.emit, step.action@) == old(self).start_probe(),
    {
        if self.done >= self.setup.count {
            self.phase = ClientPhase::Finished;
            ClientStep { emit: None, action: ClientAction::Finish }
        } else if self.setup.precise {
            self.phase = ClientPhase::Aligning;
            ClientStep { emit: None, action: ClientAction::Pause(Rest::NextSecond) }
        } else {
            let f = self.build_probe();
            self.phase = ClientPhase::ProbeSent;
            ClientStep { emit: None, action: ClientAction::Send(f) }
        }
    }

    fn finish_probe(&mut self, emit: Option<Record>) -> (step: ClientStep)
        requires
            old(self).wf(),
            old(self).done < old(self).setup.count,
        ensures
            final(self).wf(),
            (*final(self), step.emit, step.action@) == old(self).end_probe(emit),
    {
        self.done = self.done + 1;
        if self.setup.precise {
            self.phase = ClientPhase::Ready;
            let s = self.begin_probe();
            ClientStep { emit, action: s.action }
        } else {
            self.phase = ClientPhase::Resting;
            ClientStep { emit, action: ClientAction::Pause(Rest::Interval) }
        }
    }

    /// Takes one step on an event other than a received frame.
    pub fn on_event(&mut self, e: ClientEvent) -> (step: ClientStep)
        requires
            old(self).wf(),
        ensures
            final(self).wf(),
            (*final(self), step.emit, step.action@) == old(self).after(e),
    {
        if let ClientEvent::Interrupted = e {
            self.phase = ClientPhase::Finished;
            return ClientStep { emit: None, action: ClientAction::Finish };
        }
        let nothing = ClientStep { emit: None, action: ClientAction::Nothing };
        match self.phase {
            ClientPhase::Ready => match e {
                ClientEvent::Go => self.begin_probe(),
                _ => nothing,
            },
            ClientPhase::Aligning => match e {
                ClientEvent::Rested => {
                    let f = self.build_probe();
                    self.phase = ClientPhase::ProbeSent;
                    ClientStep { emit: None, action: ClientAction::Send(f) }
                },
                _ => nothing,
            },
            ClientPhase::ProbeSent => match e {
                ClientEvent::Sent(t) => match self.setup.mode {
                    Mode::Rtt => {
                        self.phase = ClientPhase::Waiting;
                        self.t_tx = t;
                        ClientStep { emit: None, action: ClientAction::Receive }
                    },
                    Mode::OneWay => {
                        let h = Perf {
                            id: self.done + 1,
                            op: OP_SYNC,
                            tv_sec: low32(t.tv_sec),
                            tv_nsec: low32(t.tv_nsec),
                        };
                        let f = build_perf_frame(
                            self.setup.target,
                            self.setup.source,
                            h,
                            self.setup.size,
                        ).unwrap();
                        self.phase = ClientPhase::SyncSent;
                        self.t_tx = t;
                        ClientStep { emit: None, action: ClientAction::Send(f) }
                    },
                },
                ClientEvent::SendFailed => self.finish_probe(None),
                _ => nothing,
            },
            ClientPhase::SyncSent => match e {
                ClientEvent::Sent(t) => self.finish_probe(None),
                ClientEvent::SendFailed => self.finish_probe(None),
                _ => nothing,
            },
            ClientPhase::Waiting => match e {
                ClientEvent::NoFrame => ClientStep { emit: None, action: ClientAction::Receive },
                ClientEvent::BudgetSpent => {
                    let id: u32 = self.done + 1;
                    self.finish_probe(Some(Record::Loss { id }))
                },
                _ => nothing,
            },
            ClientPhase::Resting => match e {
                ClientEvent::Rested => self.begin_probe(),
                _ => nothing,
            },
            ClientPhase::Finished => ClientStep { emit: None, action: ClientAction::Finish },
        }
    }

    /// Takes one step on a received frame, which arrived at `rx`.
    pub fn on_frame(&mut self, frame: &[u8], rx: Timespec) -> (step: ClientStep)
        requires
            old(self).wf(),
        ensures
            final(self).wf(),
            (*final(self), step.emit, step.action@) == old(self).after_frame(frame@, rx),
    {
        match self.phase {
            ClientPhase::Waiting => {
                let id: u32 = self.done + 1;
                let hit = match parse_perf_frame(frame) {
                    Some(h) => h.id == id,
                    None => false,
                };
                if hit {
                    let elapsed_ns: i128 = elapsed_nanos(&self.t_tx, &rx);
                    self.finish_probe(Some(Record::Rtt { id, elapsed_ns }))
                } else {
                    ClientStep { emit: None, action: ClientAction::Receive }
                }
            },
            ClientPhase::Finished => ClientStep { emit: None, action: ClientAction::Finish },
            _ => ClientStep { emit: None, action: ClientAction::Nothing },
        }
    }
}

/// The low 32 bits of a value.
pub fn low32(v: i64) -> (r: u32)
    ensures
        r == (v as int % 4294967296) as u32,
{
    if v >= 0 {
        (v % 4294967296) as u32
    } else {
        // -2^63 <= v < 0: shift into the non-negative range by a multiple of 2^32
        let w: i128 = v as i128 + 0x8000_0000_0000_0000;
        (w % 4294967296) as u32
    }
}

/// In round-trip mode the figure that the initiator emits for a probe is the
/// time from the probe's transmit time, as it was reported to the initiator,
/// to the receive time of the first frame that carries the probe's id.
pub proof fn lemma_rtt_is_rx_minus_tx(c: Client, t_tx: Timespec, frame: Seq<u8>, rx: Timespec)
    requires
        c.wf(),
        c.phase == ClientPhase::ProbeSent,
        c.setup.mode == Mode::Rtt,
        c.is_reply(frame),
    ensures
        c.after(ClientEvent::Sent(t_tx)).0.after_frame(frame, rx).1 == Some(
            Record::Rtt { id: c.id(), elapsed_ns: (rx.nanos() - t_tx.nanos()) as i128 },
        ),
{
}

/// In one-way mode the figure that the responder emits is the time from the
/// transmit time that the `SYNC` frame carries to the responder's own receive
/// time of the probe with the same id, whatever the two clocks are: a probe
/// that arrived at `rx`, followed by a `SYNC` with its id and a time, yields
/// `rx` less that time.
pub proof fn lemma_one_way_is_rx_minus_tx(
    last: Option<LastTx>,
    probe: Seq<u8>,
    rx: Timespec,
    sync: Seq<u8>,
    rx_sync: Timespec,
    my_mac: MacAddr,
)
    requires
        perf_of_frame(probe) matches Some(p) && p.op == OP_TX,
        perf_of_frame(sync) matches Some(s) && s.op == OP_SYNC && s.id == perf_of_frame(
            probe,
        )->0.id && !(s.tv_sec == 0 && s.tv_nsec == 0),
    ensures
        ({
            let s = perf_of_frame(sync)->0;
            let seen = responder_next(last, probe, rx, my_mac).0;
            responder_next(seen, sync, rx_sync, my_mac).1 matches ResponderDeed::Report(r)
                && r.id == s.id && r.elapsed_ns == rx.nanos() - (s.tv_sec * 1_000_000_000
                + s.tv_nsec)
        }),
{
}

/// The pause between two probes: the interval and a part of the jitter.
pub open spec fn pause_of(interval: u64, part: u64) -> u64 {
    if interval + part > u64::MAX {
        u64::MAX
    } else {
        (interval + part) as u64
    }
}

/// Whether a value may be drawn as a part of the jitter: below the jitter,
/// or nothing where there is no jitter.
pub open spec fn is_part(jitter: u64, part: u64) -> bool {
    if jitter == 0 {
        part == 0
    } else {
        part < jitter
    }
}

/// The nanoseconds to pause between two probes, given the part of the jitter
/// that was drawn.
pub fn pause_with(interval: u64, part: u64) -> (ns: u64)
    ensures
        ns == pause_of(interval, part),
{
    interval.saturating_add(part)
}

/// Draws a number below `bound` with `rand::Rng::gen_range` on the thread's
/// generator. Of the number only its range is claimed.
#[verifier::external_body]
fn random_below(bound: u64) -> (r: u64)
    requires
        bound > 0,
    ensures
        r < bound,
{
    rand::Rng::gen_range(&mut rand::thread_rng(), 0..bound)
}

/// Draws the nanoseconds to pause between two probes: the interval and a
/// part of the jitter that chance picks. Without jitter the pause is the
/// interval.
pub fn draw_pause(interval: u64, jitter: u64) -> (ns: u64)
    ensures
        exists|part: u64| is_part(jitter, part) && ns == pause_of(interval, part),
{
    let part: u64 = if jitter == 0 {
        0
    } else {
        random_below(jitter)
    };
    assert(is_part(jitter, part));
    pause_with(interval, part)
}

} // verus!
