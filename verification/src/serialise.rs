use crate::cbs::cbs_of;
use crate::cbs::child_of;
use crate::cbs::child_ok;
use crate::cbs::children_of;
use crate::cbs::class_named;
use crate::cbs::load_of;
use crate::cbs::normal_cbs;
use crate::cbs::CbsChild;
use crate::cbs::CbsConfig;
use crate::config::nic_of;
use crate::config::qos_entries_of;
use crate::config::qos_of;
use crate::config::qos_ok;
use crate::config::qos_view;
use crate::config::vlan_ok;
use crate::config::vlans_of;
use crate::config::Config;
use crate::config::NicModel;
use crate::config::QosEntry;
use crate::config::VlanQos;
use crate::config::VlanQosView;
use crate::document::has_text;
use crate::document::lookup;
use crate::document::Node;
use crate::tas::delay_of;
use crate::tas::entries_view;
use crate::tas::entry_of;
use crate::tas::entry_ok;
use crate::tas::gates_of;
use crate::tas::is_gate;
use crate::tas::schedule_of;
use crate::tas::tas_of;
use crate::tas::TasConfig;
use crate::tas::TasEntry;
use crate::tas::TasSchedule;
use crate::units::link_speed_of;
use crate::units::reading;
use crate::units::Quantity;
use vstd::prelude::*;
use vstd::string::*;

verus! {

/// Whether an entry of a mapping writes one entry of an egress map.
pub open spec fn qos_written(e: (Node, Node), q: QosEntry) -> bool {
    e.0 == Node::Int(q.prio) && e.1 == Node::Int(q.pcp)
}

/// Whether an entry of a mapping writes the egress map of one VLAN.
pub open spec fn vlan_written(e: (Node, Node), v: VlanQosView) -> bool {
    &&& e.0 == Node::Int(v.vlan)
    &&& e.1 matches Node::Dict(inner)
    &&& inner@.len() == v.map.len()
    &&& forall|k: int| 0 <= k < v.map.len() ==> qos_written(#[trigger] inner@[k], v.map[k])
}

/// Whether a node writes the egress maps of an interface.
pub open spec fn vlans_written(n: Node, qos: Seq<VlanQosView>) -> bool {
    &&& n matches Node::Dict(es)
    &&& es@.len() == qos.len()
    &&& forall|i: int| 0 <= i < qos.len() ==> vlan_written(#[trigger] es@[i], qos[i])
}

/// Whether a node writes one schedule entry: its priorities under `prio`,
/// then its time under `time`.
pub open spec fn entry_written(n: Node, e: TasEntry) -> bool {
    &&& n matches Node::Dict(fs)
    &&& fs@.len() == 2
    &&& has_text(fs@[0].0, "prio"@)
    &&& fs@[0].1 matches Node::List(ps)
    &&& ps@.len() == e.prio.len()
    &&& forall|k: int| 0 <= k < e.prio.len() ==> #[trigger] ps@[k] == Node::Int(e.prio[k])
    &&& has_text(fs@[1].0, "time"@)
    &&& fs@[1].1 == Node::Int(e.time)
}

/// Whether a node writes a time-aware shaper: its delay under
/// `txtime_delay`, then its entries under `schedule`.
pub open spec fn tas_written(n: Node, tas: (i64, Seq<TasEntry>)) -> bool {
    &&& n matches Node::Dict(es)
    &&& es@.len() == 2
    &&& has_text(es@[0].0, "txtime_delay"@)
    &&& es@[0].1 == Node::Int(tas.0)
    &&& has_text(es@[1].0, "schedule"@)
    &&& es@[1].1 matches Node::List(items)
    &&& items@.len() == tas.1.len()
    &&& forall|i: int| 0 <= i < tas.1.len() ==> entry_written(#[trigger] items@[i], tas.1[i])
}

/// Whether an entry of a mapping writes one stream: its priority as the
/// key, and its class, bandwidth and largest frame under their names.
pub open spec fn child_written(e: (Node, Node), c: CbsChild) -> bool {
    &&& e.0 == Node::Int(c.prio)
    &&& e.1 matches Node::Dict(fs)
    &&& fs@.len() == 3
    &&& has_text(fs@[0].0, "class"@)
    &&& fs@[0].1 matches Node::Text(t)
    &&& t@ == seq![c.class]
    &&& has_text(fs@[1].0, "bandwidth"@)
    &&& fs@[1].1 == Node::Int(c.bandwidth)
    &&& has_text(fs@[2].0, "max_frame"@)
    &&& fs@[2].1 == Node::Int(c.max_frame)
}

/// Whether a node writes the streams of a credit-based shaper.
pub open spec fn cbs_written(n: Node, streams: Seq<CbsChild>) -> bool {
    &&& n matches Node::Dict(es)
    &&& es@.len() == streams.len()
    &&& forall|i: int| 0 <= i < streams.len() ==> child_written(#[trigger] es@[i], streams[i])
}

/// Whether a node writes what a configuration holds of an interface: the
/// egress maps under `egress-qos-map`, then the shaper, if there is one,
/// under `tas` or `cbs`.
pub open spec fn written(d: Node, m: NicModel) -> bool {
    &&& d matches Node::Dict(es)
    &&& es@.len() >= 1
    &&& has_text(es@[0].0, "egress-qos-map"@)
    &&& vlans_written(es@[0].1, m.qos)
    &&& match (m.tas, m.cbs) {
        (Some(t), None) => es@.len() == 2 && has_text(es@[1].0, "tas"@) && tas_written(
            es@[1].1,
            t,
        ),
        (None, Some(c)) => es@.len() == 2 && has_text(es@[1].0, "cbs"@) && cbs_written(
            es@[1].1,
            c.0,
        ),
        (None, None) => es@.len() == 1,
        (Some(t), Some(c)) => false,
    }
}

/// Whether what a configuration holds of an interface is in order.
pub open spec fn model_ok(m: NicModel) -> bool {
    &&& forall|i: int| 0 <= i < m.qos.len() ==> vlan_ok(#[trigger] m.qos[i])
    &&& m.tas matches Some(t) ==> t.0 >= 0 && forall|i: int|
        0 <= i < t.1.len() ==> entry_ok(#[trigger] t.1[i])
    &&& m.cbs matches Some(c) ==> load_of(c.0, c.1).credits() is Some && forall|i: int|
        0 <= i < c.0.len() ==> child_ok(#[trigger] c.0[i])
    &&& !(m.tas is Some && m.cbs is Some)
}

proof fn lemma_qos_entries_read(es: Seq<(Node, Node)>, map: Seq<QosEntry>, k: int)
    requires
        es.len() == map.len(),
        0 <= k <= es.len(),
        forall|i: int| 0 <= i < map.len() ==> qos_written(#[trigger] es[i], map[i]),
        forall|i: int| 0 <= i < map.len() ==> qos_ok(#[trigger] map[i]),
    ensures
        qos_entries_of(es.take(k)) == Some(map.take(k)),
    decreases k,
{
    if k == 0 {
        assert(map.take(0) =~= Seq::<QosEntry>::empty());
    } else {
        lemma_qos_entries_read(es, map, k - 1);
        assert(es.take(k).drop_last() =~= es.take(k - 1));
        assert(es.take(k).last() == es[k - 1]);
        assert(qos_written(es[k - 1], map[k - 1]));
        assert(qos_ok(map[k - 1]));
        assert(map.take(k) =~= map.take(k - 1).push(map[k - 1]));
    }
}

proof fn lemma_vlans_read(es: Seq<(Node, Node)>, qos: Seq<VlanQosView>, k: int)
    requires
        es.len() == qos.len(),
        0 <= k <= es.len(),
        forall|i: int| 0 <= i < qos.len() ==> vlan_written(#[trigger] es[i], qos[i]),
        forall|i: int| 0 <= i < qos.len() ==> vlan_ok(#[trigger] qos[i]),
    ensures
        vlans_of(es.take(k)) == Some(qos.take(k)),
    decreases k,
{
    if k == 0 {
        assert(qos.take(0) =~= Seq::<VlanQosView>::empty());
    } else {
        lemma_vlans_read(es, qos, k - 1);
        assert(es.take(k).drop_last() =~= es.take(k - 1));
        assert(es.take(k).last() == es[k - 1]);
        assert(vlan_written(es[k - 1], qos[k - 1]));
        assert(vlan_ok(qos[k - 1]));
        match es[k - 1].1 {
            Node::Dict(inner) => {
                lemma_qos_entries_read(inner@, qos[k - 1].map, inner@.len() as int);
                assert(inner@.take(inner@.len() as int) =~= inner@);
                assert(qos[k - 1].map.take(inner@.len() as int) =~= qos[k - 1].map);
            },
            _ => {},
        }
        assert(qos.take(k) =~= qos.take(k - 1).push(qos[k - 1]));
    }
}

proof fn lemma_gates_read(ps: Seq<Node>, prio: Seq<i64>, k: int)
    requires
        ps.len() == prio.len(),
        0 <= k <= ps.len(),
        forall|i: int| 0 <= i < prio.len() ==> #[trigger] ps[i] == Node::Int(prio[i]),
        forall|i: int| 0 <= i < prio.len() ==> is_gate(#[trigger] prio[i]),
    ensures
        gates_of(ps.take(k)) == Some(prio.take(k)),
    decreases k,
{
    if k == 0 {
        assert(prio.take(0) =~= Seq::<i64>::empty());
    } else {
        lemma_gates_read(ps, prio, k - 1);
        assert(ps.take(k).drop_last() =~= ps.take(k - 1));
        assert(ps.take(k).last() == ps[k - 1]);
        assert(is_gate(prio[k - 1]));
        assert(prio.take(k) =~= prio.take(k - 1).push(prio[k - 1]));
    }
}

proof fn lemma_entry_read(n: Node, e: TasEntry)
    requires
        entry_written(n, e),
        entry_ok(e),
    ensures
        entry_of(n) == Some(e),
{
    reveal_strlit("prio");
    reveal_strlit("time");
    assert("prio"@[0] != "time"@[0]);
    match n {
        Node::Dict(fs) => {
            assert(lookup(fs@, "prio"@, 0) == Some(fs@[0].1));
            assert(!has_text(fs@[0].0, "time"@));
            assert(lookup(fs@, "time"@, 1) == Some(fs@[1].1));
            assert(lookup(fs@, "time"@, 0) == Some(fs@[1].1));
            match fs@[0].1 {
                Node::List(ps) => {
                    lemma_gates_read(ps@, e.prio, ps@.len() as int);
                    assert(ps@.take(ps@.len() as int) =~= ps@);
                    assert(e.prio.take(ps@.len() as int) =~= e.prio);
                },
                _ => {},
            }
            assert(reading(Quantity::Time, fs@[1].1) == Some(e.time));
        },
        _ => {},
    }
}

proof fn lemma_schedule_read(items: Seq<Node>, entries: Seq<TasEntry>, k: int)
    requires
        items.len() == entries.len(),
        0 <= k <= items.len(),
        forall|i: int| 0 <= i < entries.len() ==> entry_written(#[trigger] items[i], entries[i]),
        forall|i: int| 0 <= i < entries.len() ==> entry_ok(#[trigger] entries[i]),
    ensures
        schedule_of(items.take(k)) == Some(entries.take(k)),
    decreases k,
{
    if k == 0 {
        assert(entries.take(0) =~= Seq::<TasEntry>::empty());
    } else {
        lemma_schedule_read(items, entries, k - 1);
        assert(items.take(k).drop_last() =~= items.take(k - 1));
        assert(items.take(k).last() == items[k - 1]);
        assert(entry_written(items[k - 1], entries[k - 1]));
        assert(entry_ok(entries[k - 1]));
        lemma_entry_read(items[k - 1], entries[k - 1]);
        assert(entries.take(k) =~= entries.take(k - 1).push(entries[k - 1]));
    }
}

/// A time-aware shaper that was written reads back as it was.
pub proof fn lemma_tas_read(n: Node, tas: (i64, Seq<TasEntry>))
    requires
        tas_written(n, tas),
        tas.0 >= 0,
        forall|i: int| 0 <= i < tas.1.len() ==> entry_ok(#[trigger] tas.1[i]),
    ensures
        tas_of(n) == Some(tas),
{
    reveal_strlit("txtime_delay");
    reveal_strlit("schedule");
    assert("txtime_delay"@.len() != "schedule"@.len());
    match n {
        Node::Dict(es) => {
            assert(lookup(es@, "txtime_delay"@, 0) == Some(es@[0].1));
            assert(!has_text(es@[0].0, "schedule"@));
            assert(lookup(es@, "schedule"@, 1) == Some(es@[1].1));
            assert(lookup(es@, "schedule"@, 0) == Some(es@[1].1));
            match es@[1].1 {
                Node::List(items) => {
                    lemma_schedule_read(items@, tas.1, items@.len() as int);
                    assert(items@.take(items@.len() as int) =~= items@);
                    assert(tas.1.take(items@.len() as int) =~= tas.1);
                },
                _ => {},
            }
            assert(delay_of(es@) == tas.0);
        },
        _ => {},
    }
}

proof fn lemma_child_read(e: (Node, Node), c: CbsChild)
    requires
        child_written(e, c),
        child_ok(c),
    ensures
        child_of(e.0, e.1) == Some(c),
{
    reveal_strlit("class");
    reveal_strlit("bandwidth");
    reveal_strlit("max_frame");
    assert("class"@.len() != "bandwidth"@.len());
    assert("class"@.len() != "max_frame"@.len());
    assert("bandwidth"@[0] != "max_frame"@[0]);
    match e.1 {
        Node::Dict(fs) => {
            assert(lookup(fs@, "class"@, 0) == Some(fs@[0].1));
            assert(!has_text(fs@[0].0, "bandwidth"@));
            assert(lookup(fs@, "bandwidth"@, 1) == Some(fs@[1].1));
            assert(lookup(fs@, "bandwidth"@, 0) == Some(fs@[1].1));
            assert(!has_text(fs@[0].0, "max_frame"@));
            assert(!has_text(fs@[1].0, "max_frame"@));
            assert(lookup(fs@, "max_frame"@, 2) == Some(fs@[2].1));
            assert(lookup(fs@, "max_frame"@, 1) == Some(fs@[2].1));
            assert(lookup(fs@, "max_frame"@, 0) == Some(fs@[2].1));
            match fs@[0].1 {
                Node::Text(t) => {
                    assert(class_named(t@) == Some(c.class));
                },
                _ => {},
            }
        },
        _ => {},
    }
}

proof fn lemma_children_read(es: Seq<(Node, Node)>, streams: Seq<CbsChild>, k: int)
    requires
        es.len() == streams.len(),
        0 <= k <= es.len(),
        forall|i: int| 0 <= i < streams.len() ==> child_written(#[trigger] es[i], streams[i]),
        forall|i: int| 0 <= i < streams.len() ==> child_ok(#[trigger] streams[i]),
    ensures
        children_of(es.take(k)) == Some(streams.take(k)),
    decreases k,
{
    if k == 0 {
        assert(streams.take(0) =~= Seq::<CbsChild>::empty());
    } else {
        lemma_children_read(es, streams, k - 1);
        assert(es.take(k).drop_last() =~= es.take(k - 1));
        assert(es.take(k).last() == es[k - 1]);
        assert(child_written(es[k - 1], streams[k - 1]));
        assert(child_ok(streams[k - 1]));
        lemma_child_read(es[k - 1], streams[k - 1]);
        assert(streams.take(k) =~= streams.take(k - 1).push(streams[k - 1]));
    }
}

/// Normalising is idempotent: a document that writes what a configuration
/// in order holds of an interface normalises to the same, given the same
/// speed of the link. So normalising, writing and normalising again gives
/// what normalising once gave.
pub proof fn lemma_normalise_written(d: Node, m: NicModel, report: Option<Seq<char>>)
    requires
        written(d, m),
        model_ok(m),
        m.cbs matches Some(c) ==> link_speed_of(report) == Ok::<i64, crate::error::TsnError>(c.1),
    ensures
        nic_of(d, report) == Some(m),
{
    reveal_strlit("egress-qos-map");
    reveal_strlit("tas");
    reveal_strlit("cbs");
    assert("egress-qos-map"@.len() != "tas"@.len());
    assert("egress-qos-map"@.len() != "cbs"@.len());
    assert("tas"@[0] != "cbs"@[0]);
    match d {
        Node::Dict(es) => {
            assert(lookup(es@, "egress-qos-map"@, 0) == Some(es@[0].1));
            assert(!has_text(es@[0].0, "tas"@));
            assert(!has_text(es@[0].0, "cbs"@));
            match es@[0].1 {
                Node::Dict(vs) => {
                    lemma_vlans_read(vs@, m.qos, vs@.len() as int);
                    assert(vs@.take(vs@.len() as int) =~= vs@);
                    assert(m.qos.take(vs@.len() as int) =~= m.qos);
                },
                _ => {},
            }
            assert(qos_of(es@[0].1) == Some(m.qos));
            match (m.tas, m.cbs) {
                (Some(t), None) => {
                    assert(!has_text(es@[1].0, "cbs"@));
                    assert(lookup(es@, "tas"@, 1) == Some(es@[1].1));
                    assert(lookup(es@, "tas"@, 0) == Some(es@[1].1));
                    assert(lookup(es@, "cbs"@, 2) is None);
                    assert(lookup(es@, "cbs"@, 1) is None);
                    assert(lookup(es@, "cbs"@, 0) is None);
                    lemma_tas_read(es@[1].1, t);
                },
                (None, Some(c)) => {
                    assert(!has_text(es@[1].0, "tas"@));
                    assert(lookup(es@, "cbs"@, 1) == Some(es@[1].1));
                    assert(lookup(es@, "cbs"@, 0) == Some(es@[1].1));
                    assert(lookup(es@, "tas"@, 2) is None);
                    assert(lookup(es@, "tas"@, 1) is None);
                    assert(lookup(es@, "tas"@, 0) is None);
                    match es@[1].1 {
                        Node::Dict(cs) => {
                            lemma_children_read(cs@, c.0, cs@.len() as int);
                            assert(cs@.take(cs@.len() as int) =~= cs@);
                            assert(c.0.take(cs@.len() as int) =~= c.0);
                        },
                        _ => {},
                    }
                    assert(cbs_of(es@[1].1) == Some(c.0));
                    assert(normal_cbs(es@[1].1, report) == Some(c));
                },
                (None, None) => {
                    assert(lookup(es@, "tas"@, 1) is None);
                    assert(lookup(es@, "tas"@, 0) is None);
                    assert(lookup(es@, "cbs"@, 1) is None);
                    assert(lookup(es@, "cbs"@, 0) is None);
                },
                (Some(t), Some(c)) => {},
            }
        },
        _ => {},
    }
}

/// What a configuration in order holds of an interface is in order.
pub proof fn lemma_model_ok(c: Config)
    requires
        c.wf(),
    ensures
        model_ok(c.model()),
{
    let m = c.model();
    match c.tas {
        Some(t) => {
            assert(m.tas == Some((t.txtime_delay, entries_view(t.schedule@))));
        },
        None => {},
    }
    match c.cbs {
        Some(s) => {
            assert(m.cbs == Some((s.streams@, s.linkspeed)));
        },
        None => {},
    }
}

/// Normalising what was written of a configuration in order gives what the
/// configuration holds, where the link's speed is found to be the same.
pub proof fn lemma_normalise_is_idempotent(c: Config, d: Node, report: Option<Seq<char>>)
    requires
        c.wf(),
        written(d, c.model()),
        c.cbs matches Some(s) ==> link_speed_of(report) == Ok::<i64, crate::error::TsnError>(
            s.linkspeed,
        ),
    ensures
        nic_of(d, report) == Some(c.model()),
{
    lemma_model_ok(c);
    lemma_normalise_written(d, c.model(), report);
}

fn text_node(s: &str) -> (n: Node)
    ensures
        n matches Node::Text(t) && t@ == s@,
{
    Node::Text(String::from_str(s))
}

fn write_qos(map: &Vec<QosEntry>) -> (n: Node)
    ensures
        n matches Node::Dict(inner) && inner@.len() == map@.len() && forall|k: int|
            0 <= k < map@.len() ==> qos_written(#[trigger] inner@[k], map@[k]),
{
    let len: usize = map.len();
    let mut inner: Vec<(Node, Node)> = Vec::new();
    let mut k: usize = 0;
    while k < len
        invariant
            k <= len,
            len == map@.len(),
            inner@.len() == k,
            forall|j: int| 0 <= j < k ==> qos_written(#[trigger] inner@[j], map@[j]),
        decreases len - k,
    {
        inner.push((Node::Int(map[k].prio), Node::Int(map[k].pcp)));
        k = k + 1;
    }
    Node::Dict(inner)
}

fn write_vlans(maps: &Vec<VlanQos>) -> (n: Node)
    ensures
        vlans_written(n, qos_view(maps@)),
{
    let len: usize = maps.len();
    let mut es: Vec<(Node, Node)> = Vec::new();
    let mut i: usize = 0;
    while i < len
        invariant
            i <= len,
            len == maps@.len(),
            es@.len() == i,
            forall|j: int| 0 <= j < i ==> vlan_written(#[trigger] es@[j], qos_view(maps@)[j]),
        decreases len - i,
    {
        let inner = write_qos(&maps[i].map);
        es.push((Node::Int(maps[i].vlan), inner));
        i = i + 1;
    }
    Node::Dict(es)
}

fn write_entry(e: &TasSchedule) -> (n: Node)
    ensures
        entry_written(n, e@),
{
    let len: usize = e.prio.len();
    let mut ps: Vec<Node> = Vec::new();
    let mut k: usize = 0;
    while k < len
        invariant
            k <= len,
            len == e.prio@.len(),
            ps@.len() == k,
            forall|j: int| 0 <= j < k ==> #[trigger] ps@[j] == Node::Int(e.prio@[j]),
        decreases len - k,
    {
        ps.push(Node::Int(e.prio[k]));
        k = k + 1;
    }
    let mut fs: Vec<(Node, Node)> = Vec::new();
    fs.push((text_node("prio"), Node::List(ps)));
    fs.push((text_node("time"), Node::Int(e.time)));
    Node::Dict(fs)
}

fn write_tas(t: &TasConfig) -> (n: Node)
    ensures
        tas_written(n, (t.txtime_delay, entries_view(t.schedule@))),
{
    let len: usize = t.schedule.len();
    let mut items: Vec<Node> = Vec::new();
    let mut i: usize = 0;
    while i < len
        invariant
            i <= len,
            len == t.schedule@.len(),
            items@.len() == i,
            forall|j: int|
                0 <= j < i ==> entry_written(#[trigger] items@[j], entries_view(t.schedule@)[j]),
        decreases len - i,
    {
        items.push(write_entry(&t.schedule[i]));
        i = i + 1;
    }
    let mut es: Vec<(Node, Node)> = Vec::new();
    es.push((text_node("txtime_delay"), Node::Int(t.txtime_delay)));
    es.push((text_node("schedule"), Node::List(items)));
    Node::Dict(es)
}

fn write_child(c: &CbsChild) -> (e: (Node, Node))
    ensures
        (c.class == 'a' || c.class == 'b') ==> child_written(e, *c),
{
    proof {
        reveal_strlit("a");
        reveal_strlit("b");
    }
    let class = if c.class == 'a' {
        text_node("a")
    } else {
        text_node("b")
    };
    assert((c.class == 'a' || c.class == 'b') ==> (class matches Node::Text(t) && t@ =~= seq![
        c.class,
    ]));
    let mut fs: Vec<(Node, Node)> = Vec::new();
    fs.push((text_node("class"), class));
    fs.push((text_node("bandwidth"), Node::Int(c.bandwidth)));
    fs.push((text_node("max_frame"), Node::Int(c.max_frame)));
    (Node::Int(c.prio), Node::Dict(fs))
}

fn write_cbs(s: &CbsConfig) -> (n: Node)
    ensures
        s.wf() ==> cbs_written(n, s.streams@),
{
    let len: usize = s.streams.len();
    let mut es: Vec<(Node, Node)> = Vec::new();
    let mut i: usize = 0;
    while i < len
        invariant
            i <= len,
            len == s.streams@.len(),
            es@.len() == i,
            s.wf() ==> forall|j: int|
                0 <= j < i ==> child_written(#[trigger] es@[j], s.streams@[j]),
        decreases len - i,
    {
        assert(s.wf() ==> child_ok(s.streams@[i as int]));
        es.push(write_child(&s.streams[i]));
        i = i + 1;
    }
    Node::Dict(es)
}

/// Writes what a configuration holds of an interface as a document block:
/// the egress maps, and the shaper as it was given, before anything was
/// derived from it. Quantities are written as whole numbers of bits, bits
/// per second and nanoseconds.
pub fn serialise(c: &Config) -> (d: Node)
    ensures
        c.wf() ==> written(d, c.model()),
{
    let mut es: Vec<(Node, Node)> = Vec::new();
    es.push((text_node("egress-qos-map"), write_vlans(&c.egress_qos_map)));
    match &c.tas {
        Some(t) => {
            es.push((text_node("tas"), write_tas(t)));
        },
        None => {
            match &c.cbs {
                Some(s) => {
                    es.push((text_node("cbs"), write_cbs(s)));
                },
                None => {},
            }
        },
    }
    Node::Dict(es)
}

} // verus!
