use crate::document::get;
use crate::document::lookup;
use crate::document::Node;
use crate::error::TsnError;
use crate::tcmap::dense_map;
use crate::tcmap::first_seen;
use crate::tcmap::gate_mask;
use crate::tcmap::is_priority;
use crate::tcmap::lemma_first_seen_len;
use crate::tcmap::mask_of;
use crate::tcmap::see;
use crate::tcmap::tc_map_of;
use crate::tcmap::BEST_EFFORT;
use crate::tcmap::PRIORITIES;
use crate::units::reading;
use crate::units::to_ns;
use crate::units::Quantity;
use vstd::prelude::*;

verus! {

/// One entry of a gate schedule as the document gives it.
#[derive(Clone, Debug, PartialEq, Eq)]
pub struct TasSchedule {
    /// Nanoseconds that the entry lasts.
    pub time: i64,
    /// The priorities whose gates are open, or `-1` for best effort.
    pub prio: Vec<i64>,
}

/// A schedule entry, with its priorities as a sequence.
pub struct TasEntry {
    pub time: i64,
    pub prio: Seq<i64>,
}

impl View for TasSchedule {
    type V = TasEntry;

    open spec fn view(&self) -> TasEntry {
        TasEntry { time: self.time, prio: self.prio@ }
    }
}

/// One transmit queue range of a traffic class: `count` queues from `offset`.
#[derive(Clone, Copy, Debug, PartialEq, Eq, Structural)]
pub struct Queue {
    pub count: u32,
    pub offset: u32,
}

/// One entry of a gate schedule as the qdisc takes it: the command `S`, a
/// bitmask and a time.
#[derive(Clone, Copy, Debug, PartialEq, Eq, Structural)]
pub struct SchedEntry {
    pub mask: u32,
    pub time: i64,
}

/// The time-aware shaper of an interface.
#[derive(Clone, Debug, PartialEq, Eq)]
pub struct TasConfig {
    pub txtime_delay: i64,
    pub schedule: Vec<TasSchedule>,
    /// The traffic class of each of the sixteen priorities.
    pub tc_map: Vec<i64>,
    pub num_tc: i64,
    pub queues: Vec<Queue>,
    /// When the schedule starts; zero leaves it to the kernel.
    pub base_time: i64,
    pub sched_entries: Vec<SchedEntry>,
}

/// The entries of a schedule, each with its priorities as a sequence.
pub open spec fn entries_view(v: Seq<TasSchedule>) -> Seq<TasEntry> {
    Seq::new(v.len(), |i: int| v[i]@)
}

/// All that the entries list, in order.
pub open spec fn listed(entries: Seq<TasEntry>) -> Seq<i64>
    decreases entries.len(),
{
    if entries.len() == 0 {
        Seq::empty()
    } else {
        listed(entries.drop_last()) + entries.last().prio
    }
}

/// Whether a value may stand in a schedule entry: a priority, or the mark of
/// best effort.
pub open spec fn is_gate(p: i64) -> bool {
    p == BEST_EFFORT || is_priority(p)
}

/// Whether an entry lasts some time and lists gates only.
pub open spec fn entry_ok(e: TasEntry) -> bool {
    &&& e.time > 0
    &&& forall|k: int| 0 <= k < e.prio.len() ==> is_gate(#[trigger] e.prio[k])
}

/// The queue ranges of a shaper with this many classes: one queue each, all
/// from the first queue.
pub open spec fn tas_queues(num_tc: int) -> Seq<Queue> {
    Seq::new(num_tc as nat, |i: int| Queue { count: 1, offset: 0 })
}

/// The schedule as the qdisc takes it.
pub open spec fn sched_of(entries: Seq<TasEntry>) -> Seq<SchedEntry> {
    Seq::new(
        entries.len(),
        |i: int|
            SchedEntry {
                mask: mask_of(entries[i].prio, first_seen(listed(entries))),
                time: entries[i].time,
            },
    )
}

impl TasConfig {
    /// The entries are in order and what is derived from them is in place:
    /// each listed priority has a class of its own, in the order of first
    /// sight, every other priority has the best-effort class, and the schedule
    /// as the qdisc takes it opens the gates of the listed classes.
    pub open spec fn wf(&self) -> bool {
        let entries = entries_view(self.schedule@);
        let order = first_seen(listed(entries));
        &&& self.txtime_delay >= 0
        &&& self.base_time == 0
        &&& forall|i: int| 0 <= i < entries.len() ==> entry_ok(#[trigger] entries[i])
        &&& self.tc_map@ == tc_map_of(order)
        &&& self.num_tc == order.len() + 1
        &&& self.queues@ == tas_queues(self.num_tc as int)
        &&& self.sched_entries@ == sched_of(entries)
    }
}

/// The priorities that a list of nodes gives: each node is a whole number
/// that may stand in a schedule entry.
pub open spec fn gates_of(items: Seq<Node>) -> Option<Seq<i64>>
    decreases items.len(),
{
    if items.len() == 0 {
        Some(Seq::empty())
    } else {
        match (gates_of(items.drop_last()), items.last()) {
            (Some(r), Node::Int(p)) => if is_gate(p) {
                Some(r.push(p))
            } else {
                None
            },
            _ => None,
        }
    }
}

/// The schedule entry that a node gives: a mapping with a list `prio` of
/// gates and a `time` that is positive.
pub open spec fn entry_of(item: Node) -> Option<TasEntry> {
    match item {
        Node::Dict(es) => match (lookup(es@, "prio"@, 0), lookup(es@, "time"@, 0)) {
            (Some(Node::List(ps)), Some(t)) => match (gates_of(ps@), reading(Quantity::Time, t)) {
                (Some(prio), Some(time)) => if time > 0 {
                    Some(TasEntry { time, prio })
                } else {
                    None
                },
                _ => None,
            },
            _ => None,
        },
        _ => None,
    }
}

/// The schedule that a list of nodes gives.
pub open spec fn schedule_of(items: Seq<Node>) -> Option<Seq<TasEntry>>
    decreases items.len(),
{
    if items.len() == 0 {
        Some(Seq::empty())
    } else {
        match (schedule_of(items.drop_last()), entry_of(items.last())) {
            (Some(r), Some(e)) => Some(r.push(e)),
            _ => None,
        }
    }
}

/// The transmit-time delay that a shaper's entries give: what `txtime_delay`
/// reads as; zero where it is absent or cannot be read.
pub open spec fn delay_of(es: Seq<(Node, Node)>) -> i64 {
    match lookup(es, "txtime_delay"@, 0) {
        Some(v) => match reading(Quantity::Time, v) {
            Some(d) => d,
            None => 0,
        },
        None => 0,
    }
}

/// What a node gives as a time-aware shaper: a mapping with a list
/// `schedule` of entries, and its delay.
pub open spec fn tas_of(config: Node) -> Option<(i64, Seq<TasEntry>)> {
    match config {
        Node::Dict(es) => match lookup(es@, "schedule"@, 0) {
            Some(Node::List(items)) => match schedule_of(items@) {
                Some(entries) => Some((delay_of(es@), entries)),
                None => None,
            },
            _ => None,
        },
        _ => None,
    }
}

fn read_gates(items: &Vec<Node>) -> (r: Option<Vec<i64>>)
    ensures
        match r {
            Some(v) => gates_of(items@) == Some(v@),
            None => gates_of(items@) is None,
        },
{
    let n: usize = items.len();
    let mut out: Vec<i64> = Vec::new();
    let mut i: usize = 0;
    while i < n
        invariant
            i <= n,
            n == items@.len(),
            gates_of(items@.take(i as int)) == Some(out@),
        decreases n - i,
    {
        assert(items@.take(i + 1).drop_last() =~= items@.take(i as int));
        let ok: Option<i64> = match &items[i] {
            Node::Int(p) => if *p == BEST_EFFORT || (0 <= *p && *p < PRIORITIES as i64) {
                Some(*p)
            } else {
                None
            },
            _ => None,
        };
        match ok {
            Some(p) => {
                out.push(p);
            },
            None => {
                proof {
                    lemma_gates_fail(items@, i as int);
                }
                return None;
            },
        }
        i = i + 1;
    }
    assert(items@.take(n as int) =~= items@);
    Some(out)
}

/// A list that fails to give gates up to some node gives none as a whole.
proof fn lemma_gates_fail(items: Seq<Node>, i: int)
    requires
        0 <= i < items.len(),
        gates_of(items.take(i + 1)) is None,
    ensures
        gates_of(items) is None,
    decreases items.len() - i,
{
    if i + 1 < items.len() {
        assert(items.take(i + 2).drop_last() =~= items.take(i + 1));
        lemma_gates_fail(items, i + 1);
    } else {
        assert(items.take(i + 1) =~= items);
    }
}

/// A list that fails to give a schedule up to some node gives none as a
/// whole.
proof fn lemma_schedule_fail(items: Seq<Node>, i: int)
    requires
        0 <= i < items.len(),
        schedule_of(items.take(i + 1)) is None,
    ensures
        schedule_of(items) is None,
    decreases items.len() - i,
{
    if i + 1 < items.len() {
        assert(items.take(i + 2).drop_last() =~= items.take(i + 1));
        lemma_schedule_fail(items, i + 1);
    } else {
        assert(items.take(i + 1) =~= items);
    }
}

fn read_entry(item: &Node) -> (r: Option<TasSchedule>)
    ensures
        match r {
            Some(e) => entry_of(*item) == Some(e@),
            None => entry_of(*item) is None,
        },
{
    let es = match item {
        Node::Dict(es) => es,
        _ => {
            return None;
        },
    };
    let ps = match get(es, "prio") {
        Some(Node::List(ps)) => ps,
        _ => {
            return None;
        },
    };
    let t = match get(es, "time") {
        Some(t) => t,
        None => {
            return None;
        },
    };
    let prio = match read_gates(ps) {
        Some(prio) => prio,
        None => {
            return None;
        },
    };
    match to_ns(t) {
        Ok(time) => {
            if time > 0 {
                Some(TasSchedule { time, prio })
            } else {
                None
            }
        },
        Err(_) => None,
    }
}

fn read_schedule(items: &Vec<Node>) -> (r: Option<Vec<TasSchedule>>)
    ensures
        match r {
            Some(v) => schedule_of(items@) == Some(entries_view(v@)),
            None => schedule_of(items@) is None,
        },
{
    let n: usize = items.len();
    let mut out: Vec<TasSchedule> = Vec::new();
    let mut i: usize = 0;
    assert(entries_view(out@) =~= Seq::<TasEntry>::empty());
    while i < n
        invariant
            i <= n,
            n == items@.len(),
            schedule_of(items@.take(i as int)) == Some(entries_view(out@)),
        decreases n - i,
    {
        assert(items@.take(i + 1).drop_last() =~= items@.take(i as int));
        match read_entry(&items[i]) {
            Some(e) => {
                let ghost before = entries_view(out@);
                let ghost ev = e@;
                out.push(e);
                assert(entries_view(out@) =~= before.push(ev));
            },
            None => {
                proof {
                    lemma_schedule_fail(items@, i as int);
                }
                return None;
            },
        }
        i = i + 1;
    }
    assert(items@.take(n as int) =~= items@);
    Some(out)
}

/// Each entry of a schedule that a list of nodes gives is in order.
proof fn lemma_schedule_ok(items: Seq<Node>)
    requires
        schedule_of(items) is Some,
    ensures
        schedule_of(items)->0.len() == items.len(),
        forall|i: int|
            0 <= i < items.len() ==> entry_ok(#[trigger] schedule_of(items)->0[i]),
    decreases items.len(),
{
    if items.len() > 0 {
        lemma_schedule_ok(items.drop_last());
        let e = entry_of(items.last())->0;
        match items.last() {
            Node::Dict(es) => {
                match lookup(es@, "prio"@, 0) {
                    Some(Node::List(ps)) => {
                        lemma_gates_ok(ps@);
                    },
                    _ => {},
                }
            },
            _ => {},
        }
        assert(entry_ok(e));
    }
}

proof fn lemma_gates_ok(items: Seq<Node>)
    requires
        gates_of(items) is Some,
    ensures
        gates_of(items)->0.len() == items.len(),
        forall|k: int| 0 <= k < items.len() ==> is_gate(#[trigger] gates_of(items)->0[k]),
    decreases items.len(),
{
    if items.len() > 0 {
        lemma_gates_ok(items.drop_last());
    }
}

impl TasConfig {
    /// Derives the shaper of a schedule whose entries are in order.
    pub fn new(txtime_delay: i64, schedule: Vec<TasSchedule>) -> (c: TasConfig)
        requires
            txtime_delay >= 0,
            forall|i: int|
                0 <= i < schedule@.len() ==> entry_ok(#[trigger] entries_view(schedule@)[i]),
        ensures
            c.wf(),
            c.txtime_delay == txtime_delay,
            c.schedule == schedule,
    {
        let ghost entries = entries_view(schedule@);
        let n: usize = schedule.len();
        let mut order: Vec<i64> = Vec::new();
        let mut j: usize = 0;
        assert(listed(entries.take(0)) =~= Seq::<i64>::empty());
        while j < n
            invariant
                j <= n,
                n == schedule@.len(),
                entries == entries_view(schedule@),
                order@ == first_seen(listed(entries.take(j as int))),
            decreases n - j,
        {
            let prio = &schedule[j].prio;
            let m: usize = prio.len();
            let mut k: usize = 0;
            let ghost base = listed(entries.take(j as int));
            assert(base + prio@.take(0) =~= base);
            while k < m
                invariant
                    k <= m,
                    m == prio@.len(),
                    order@ == first_seen(base + prio@.take(k as int)),
                decreases m - k,
            {
                assert((base + prio@.take(k + 1)).drop_last() =~= base + prio@.take(k as int));
                see(&mut order, prio[k]);
                k = k + 1;
            }
            proof {
                assert(prio@.take(m as int) =~= prio@);
                assert(entries.take(j + 1).drop_last() =~= entries.take(j as int));
                assert(entries.take(j + 1).last().prio == prio@);
            }
            j = j + 1;
        }
        proof {
            assert(entries.take(n as int) =~= entries);
            lemma_first_seen_len(listed(entries));
        }
        let tc_map = dense_map(&order);
        let num_tc: i64 = order.len() as i64 + 1;
        let mut queues: Vec<Queue> = Vec::new();
        let mut q: i64 = 0;
        while q < num_tc
            invariant
                0 <= q <= num_tc,
                queues@ == tas_queues(q as int),
            decreases num_tc - q,
        {
            queues.push(Queue { count: 1, offset: 0 });
            q = q + 1;
            assert(queues@ =~= tas_queues(q as int));
        }
        let mut sched_entries: Vec<SchedEntry> = Vec::new();
        let mut i: usize = 0;
        while i < n
            invariant
                i <= n,
                n == schedule@.len(),
                entries == entries_view(schedule@),
                order@ == first_seen(listed(entries)),
                order@.len() <= PRIORITIES,
                sched_entries@ == sched_of(entries).take(i as int),
            decreases n - i,
        {
            let mask: u32 = gate_mask(&schedule[i].prio, &order);
            sched_entries.push(SchedEntry { mask, time: schedule[i].time });
            i = i + 1;
            assert(sched_entries@ =~= sched_of(entries).take(i as int));
        }
        assert(sched_of(entries).take(n as int) =~= sched_of(entries));
        TasConfig {
            txtime_delay,
            schedule,
            tc_map,
            num_tc,
            queues,
            base_time: 0,
            sched_entries,
        }
    }
}

/// Normalises the time-aware shaper of an interface. A node that gives no
/// shaper is refused with `InvalidConfig`: a schedule that is missing or no
/// list, an entry without a list of gates or without a positive time, a gate
/// that is neither a priority nor the mark of best effort.
pub fn normalise_tas(config: &Node) -> (r: Result<TasConfig, TsnError>)
    ensures
        match r {
            Ok(c) => tas_of(*config) == Some((c.txtime_delay, entries_view(c.schedule@)))
                && c.wf(),
            Err(e) => tas_of(*config) is None && e == TsnError::InvalidConfig,
        },
{
    let es = match config {
        Node::Dict(es) => es,
        _ => {
            return Err(TsnError::InvalidConfig);
        },
    };
    let items = match get(es, "schedule") {
        Some(Node::List(items)) => items,
        _ => {
            return Err(TsnError::InvalidConfig);
        },
    };
    let schedule = match read_schedule(items) {
        Some(s) => s,
        None => {
            return Err(TsnError::InvalidConfig);
        },
    };
    let txtime_delay: i64 = match get(es, "txtime_delay") {
        Some(v) => match to_ns(v) {
            Ok(d) => d,
            Err(_) => 0,
        },
        None => 0,
    };
    proof {
        lemma_schedule_ok(items@);
    }
    Ok(TasConfig::new(txtime_delay, schedule))
}

} // verus!
