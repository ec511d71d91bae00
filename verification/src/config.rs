use crate::cbs::normal_cbs;
use crate::cbs::normalise_cbs;
use crate::cbs::prios_of;
use crate::cbs::CbsChild;
use crate::cbs::CbsConfig;
use crate::document::get;
use crate::document::lookup;
use crate::document::Node;
use crate::error::TsnError;
use crate::socket::VLAN_ID_MAX;
use crate::socket::VLAN_ID_MIN;
use crate::tas::entries_view;
use crate::tas::listed;
use crate::tas::normalise_tas;
use crate::tas::tas_of;
use crate::tas::TasConfig;
use crate::tas::TasEntry;
use crate::tcmap::first_seen;
use crate::tcmap::is_priority;
use crate::tcmap::lemma_first_seen_len;
use crate::tcmap::lemma_tc_map_total;
use crate::tcmap::PRIORITIES;
use crate::text::texts;
use crate::units::report_view;
use vstd::prelude::*;

verus! {

/// Largest priority code point of a VLAN tag.
pub const PCP_MAX: i64 = 7;

/// One entry of an egress map: the code point that frames of a socket
/// priority are tagged with.
#[derive(Clone, Copy, Debug, PartialEq, Eq, Structural)]
pub struct QosEntry {
    pub prio: i64,
    pub pcp: i64,
}

/// The egress map of one VLAN, in the document's order.
#[derive(Clone, Debug, PartialEq, Eq)]
pub struct VlanQos {
    pub vlan: i64,
    pub map: Vec<QosEntry>,
}

/// The egress map of one VLAN, with its entries as a sequence.
pub struct VlanQosView {
    pub vlan: i64,
    pub map: Seq<QosEntry>,
}

impl View for VlanQos {
    type V = VlanQosView;

    open spec fn view(&self) -> VlanQosView {
        VlanQosView { vlan: self.vlan, map: self.map@ }
    }
}

/// The egress maps of an interface, each with its entries as a sequence.
pub open spec fn qos_view(v: Seq<VlanQos>) -> Seq<VlanQosView> {
    Seq::new(v.len(), |i: int| v[i]@)
}

/// The configuration of one interface.
#[derive(Clone, Debug, PartialEq, Eq)]
pub struct Config {
    /// For each VLAN, the code point of each socket priority.
    pub egress_qos_map: Vec<VlanQos>,
    pub tas: Option<TasConfig>,
    pub cbs: Option<CbsConfig>,
}

/// What a document says of one interface, before anything is derived.
pub struct NicModel {
    pub qos: Seq<VlanQosView>,
    /// The delay and the schedule of the time-aware shaper.
    pub tas: Option<(i64, Seq<TasEntry>)>,
    /// The streams of the credit-based shaper and the link's speed.
    pub cbs: Option<(Seq<CbsChild>, i64)>,
}

/// Whether a value is a VLAN id.
pub open spec fn is_vlan(v: i64) -> bool {
    VLAN_ID_MIN <= v <= VLAN_ID_MAX
}

/// Whether an entry's code point is one.
pub open spec fn qos_ok(e: QosEntry) -> bool {
    0 <= e.pcp <= PCP_MAX
}

/// Whether an egress map is that of a VLAN and holds code points only.
pub open spec fn vlan_ok(v: VlanQosView) -> bool {
    &&& is_vlan(v.vlan)
    &&& forall|k: int| 0 <= k < v.map.len() ==> qos_ok(#[trigger] v.map[k])
}

impl Config {
    /// What the configuration holds of the document.
    pub open spec fn model(&self) -> NicModel {
        NicModel {
            qos: qos_view(self.egress_qos_map@),
            tas: match self.tas {
                Some(t) => Some((t.txtime_delay, entries_view(t.schedule@))),
                None => None,
            },
            cbs: match self.cbs {
                Some(c) => Some((c.streams@, c.linkspeed)),
                None => None,
            },
        }
    }

    /// The egress maps are in order, each shaper is, and there is one shaper
    /// at most.
    pub open spec fn wf(&self) -> bool {
        &&& forall|i: int|
            0 <= i < self.egress_qos_map@.len() ==> vlan_ok(
                #[trigger] qos_view(self.egress_qos_map@)[i],
            )
        &&& self.tas matches Some(t) ==> t.wf()
        &&& self.cbs matches Some(c) ==> c.wf()
        &&& !(self.tas is Some && self.cbs is Some)
    }

    /// The configuration of an interface with these egress maps and no
    /// shaper.
    pub fn new(vlan_config: Vec<VlanQos>) -> (c: Config)
        ensures
            c.egress_qos_map == vlan_config,
            c.tas is None,
            c.cbs is None,
    {
        Config { egress_qos_map: vlan_config, tas: None, cbs: None }
    }
}

/// The entries that a mapping from socket priorities to code points gives.
pub open spec fn qos_entries_of(es: Seq<(Node, Node)>) -> Option<Seq<QosEntry>>
    decreases es.len(),
{
    if es.len() == 0 {
        Some(Seq::empty())
    } else {
        match (qos_entries_of(es.drop_last()), es.last().0, es.last().1) {
            (Some(r), Node::Int(prio), Node::Int(pcp)) => if 0 <= pcp <= PCP_MAX {
                Some(r.push(QosEntry { prio, pcp }))
            } else {
                None
            },
            _ => None,
        }
    }
}

/// The egress maps that a mapping from VLAN ids gives.
pub open spec fn vlans_of(es: Seq<(Node, Node)>) -> Option<Seq<VlanQosView>>
    decreases es.len(),
{
    if es.len() == 0 {
        Some(Seq::empty())
    } else {
        match (vlans_of(es.drop_last()), es.last().0, es.last().1) {
            (Some(r), Node::Int(vlan), Node::Dict(inner)) => match qos_entries_of(inner@) {
                Some(map) => if is_vlan(vlan) {
                    Some(r.push(VlanQosView { vlan, map }))
                } else {
                    None
                },
                None => None,
            },
            _ => None,
        }
    }
}

/// The egress maps that a node gives: a mapping from VLAN ids to mappings
/// from socket priorities to code points.
pub open spec fn qos_of(input: Node) -> Option<Seq<VlanQosView>> {
    match input {
        Node::Dict(es) => vlans_of(es@),
        _ => None,
    }
}

proof fn lemma_qos_entries_fail(es: Seq<(Node, Node)>, i: int)
    requires
        0 <= i < es.len(),
        qos_entries_of(es.take(i + 1)) is None,
    ensures
        qos_entries_of(es) is None,
    decreases es.len() - i,
{
    if i + 1 < es.len() {
        assert(es.take(i + 2).drop_last() =~= es.take(i + 1));
        lemma_qos_entries_fail(es, i + 1);
    } else {
        assert(es.take(i + 1) =~= es);
    }
}

proof fn lemma_vlans_fail(es: Seq<(Node, Node)>, i: int)
    requires
        0 <= i < es.len(),
        vlans_of(es.take(i + 1)) is None,
    ensures
        vlans_of(es) is None,
    decreases es.len() - i,
{
    if i + 1 < es.len() {
        assert(es.take(i + 2).drop_last() =~= es.take(i + 1));
        lemma_vlans_fail(es, i + 1);
    } else {
        assert(es.take(i + 1) =~= es);
    }
}

proof fn lemma_qos_entries_ok(es: Seq<(Node, Node)>)
    requires
        qos_entries_of(es) is Some,
    ensures
        forall|k: int|
            0 <= k < qos_entries_of(es)->0.len() ==> qos_ok(#[trigger] qos_entries_of(es)->0[k]),
    decreases es.len(),
{
    if es.len() > 0 {
        lemma_qos_entries_ok(es.drop_last());
    }
}

proof fn lemma_vlans_ok(es: Seq<(Node, Node)>)
    requires
        vlans_of(es) is Some,
    ensures
        forall|k: int| 0 <= k < vlans_of(es)->0.len() ==> vlan_ok(#[trigger] vlans_of(es)->0[k]),
    decreases es.len(),
{
    if es.len() > 0 {
        lemma_vlans_ok(es.drop_last());
        match es.last().1 {
            Node::Dict(inner) => {
                lemma_qos_entries_ok(inner@);
            },
            _ => {},
        }
    }
}

fn read_qos_entries(es: &Vec<(Node, Node)>) -> (r: Option<Vec<QosEntry>>)
    ensures
        match r {
            Some(v) => qos_entries_of(es@) == Some(v@),
            None => qos_entries_of(es@) is None,
        },
{
    let n: usize = es.len();
    let mut out: Vec<QosEntry> = Vec::new();
    let mut i: usize = 0;
    while i < n
        invariant
            i <= n,
            n == es@.len(),
            qos_entries_of(es@.take(i as int)) == Some(out@),
        decreases n - i,
    {
        assert(es@.take(i + 1).drop_last() =~= es@.take(i as int));
        assert(es@.take(i + 1).last() == es@[i as int]);
        let e: Option<QosEntry> = match (&es[i].0, &es[i].1) {
            (Node::Int(prio), Node::Int(pcp)) => if 0 <= *pcp && *pcp <= PCP_MAX {
                Some(QosEntry { prio: *prio, pcp: *pcp })
            } else {
                None
            },
            _ => None,
        };
        match e {
            Some(e) => {
                out.push(e);
            },
            None => {
                proof {
                    lemma_qos_entries_fail(es@, i as int);
                }
                return None;
            },
        }
        i = i + 1;
    }
    assert(es@.take(n as int) =~= es@);
    Some(out)
}

/// Normalises the egress maps of an interface. A node that is no mapping from
/// VLAN ids to mappings from socket priorities to code points is refused
/// with `InvalidConfig`; so is a VLAN id or a code point out of its range.
pub fn normalise_vlan(input: &Node) -> (r: Result<Vec<VlanQos>, TsnError>)
    ensures
        match r {
            Ok(v) => qos_of(*input) == Some(qos_view(v@)) && forall|i: int|
                0 <= i < v@.len() ==> vlan_ok(#[trigger] qos_view(v@)[i]),
            Err(e) => qos_of(*input) is None && e == TsnError::InvalidConfig,
        },
{
    let es = match input {
        Node::Dict(es) => es,
        _ => {
            return Err(TsnError::InvalidConfig);
        },
    };
    let n: usize = es.len();
    let mut out: Vec<VlanQos> = Vec::new();
    let mut i: usize = 0;
    assert(qos_view(out@) =~= Seq::<VlanQosView>::empty());
    while i < n
        invariant
            i <= n,
            n == es@.len(),
            qos_of(*input) == vlans_of(es@),
            vlans_of(es@.take(i as int)) == Some(qos_view(out@)),
        decreases n - i,
    {
        assert(es@.take(i + 1).drop_last() =~= es@.take(i as int));
        assert(es@.take(i + 1).last() == es@[i as int]);
        let e: Option<VlanQos> = match (&es[i].0, &es[i].1) {
            (Node::Int(vlan), Node::Dict(inner)) => match read_qos_entries(inner) {
                Some(map) => if VLAN_ID_MIN as i64 <= *vlan && *vlan <= VLAN_ID_MAX as i64 {
                    Some(VlanQos { vlan: *vlan, map })
                } else {
                    None
                },
                None => None,
            },
            _ => None,
        };
        match e {
            Some(e) => {
                let ghost before = qos_view(out@);
                let ghost ev = e@;
                out.push(e);
                assert(qos_view(out@) =~= before.push(ev));
            },
            None => {
                proof {
                    lemma_vlans_fail(es@, i as int);
                }
                return Err(TsnError::InvalidConfig);
            },
        }
        i = i + 1;
    }
    proof {
        assert(es@.take(n as int) =~= es@);
        lemma_vlans_ok(es@);
        let s = vlans_of(es@)->0;
        assert(s == qos_view(out@));
        assert forall|i: int| 0 <= i < out@.len() implies vlan_ok(
            #[trigger] qos_view(out@)[i],
        ) by {
            assert(vlan_ok(s[i]));
        }
    }
    Ok(out)
}

/// What a node says of one interface, given what the link inspector said of
/// it: a mapping with the egress maps under `egress-qos-map` and at most one
/// of a time-aware shaper under `tas` and a credit-based shaper under `cbs`.
pub open spec fn nic_of(block: Node, report: Option<Seq<char>>) -> Option<NicModel> {
    match block {
        Node::Dict(es) => match lookup(es@, "egress-qos-map"@, 0) {
            Some(q) => match qos_of(q) {
                Some(qos) => match (lookup(es@, "tas"@, 0), lookup(es@, "cbs"@, 0)) {
                    (None, None) => Some(NicModel { qos, tas: None, cbs: None }),
                    (Some(t), None) => match tas_of(t) {
                        Some(tas) => Some(NicModel { qos, tas: Some(tas), cbs: None }),
                        None => None,
                    },
                    (None, Some(c)) => match normal_cbs(c, report) {
                        Some(cbs) => Some(NicModel { qos, tas: None, cbs: Some(cbs) }),
                        None => None,
                    },
                    (Some(t), Some(c)) => None,
                },
                None => None,
            },
            None => None,
        },
        _ => None,
    }
}

/// Normalises what a document says of one interface. `report` is what the
/// link inspector said of the interface, if it said anything; it is read for
/// a credit-based shaper only. A block that is no mapping, that lacks the
/// egress maps, that holds both shapers, or a part of which is refused, is
/// refused with `InvalidConfig`.
pub fn normalise_nic(block: &Node, report: Option<&str>) -> (r: Result<Config, TsnError>)
    ensures
        match r {
            Ok(c) => nic_of(*block, report_view(report)) == Some(c.model()) && c.wf(),
            Err(e) => nic_of(*block, report_view(report)) is None && e == TsnError::InvalidConfig,
        },
{
    let es = match block {
        Node::Dict(es) => es,
        _ => {
            return Err(TsnError::InvalidConfig);
        },
    };
    let q = match get(es, "egress-qos-map") {
        Some(q) => q,
        None => {
            return Err(TsnError::InvalidConfig);
        },
    };
    let qos = match normalise_vlan(q) {
        Ok(v) => v,
        Err(e) => {
            return Err(e);
        },
    };
    let mut config = Config::new(qos);
    match (get(es, "tas"), get(es, "cbs")) {
        (None, None) => {},
        (Some(t), None) => {
            match normalise_tas(t) {
                Ok(tas) => {
                    config.tas = Some(tas);
                },
                Err(e) => {
                    return Err(e);
                },
            }
        },
        (None, Some(c)) => {
            match normalise_cbs(c, report) {
                Ok(cbs) => {
                    config.cbs = Some(cbs);
                },
                Err(e) => {
                    return Err(e);
                },
            }
        },
        (Some(_), Some(_)) => {
            return Err(TsnError::InvalidConfig);
        },
    }
    Ok(config)
}

/// The block of an interface in a document: the value of the interface's
/// name in the mapping under `nics`.
pub open spec fn block_of(doc: Node, ifname: Seq<char>) -> Option<Node> {
    match doc {
        Node::Dict(es) => match lookup(es@, "nics"@, 0) {
            Some(Node::Dict(nics)) => lookup(nics@, ifname, 0),
            _ => None,
        },
        _ => None,
    }
}

/// What reading the configuration of one interface out of a document gives:
/// `ConfigMissing` where the document has no block for the interface, else
/// what normalising the block gives.
pub open spec fn config_of(doc: Node, ifname: Seq<char>, report: Option<Seq<char>>) -> Result<
    NicModel,
    TsnError,
> {
    match block_of(doc, ifname) {
        None => Err(TsnError::ConfigMissing),
        Some(block) => match nic_of(block, report) {
            Some(m) => Ok(m),
            None => Err(TsnError::InvalidConfig),
        },
    }
}

/// Reads the configuration of one interface out of a document. `report` is
/// what the link inspector said of the interface, if it said anything.
pub fn read_config(doc: &Node, ifname: &str, report: Option<&str>) -> (r: Result<
    Config,
    TsnError,
>)
    ensures
        match r {
            Ok(c) => config_of(*doc, ifname@, report_view(report)) == Ok::<NicModel, TsnError>(
                c.model(),
            ) && c.wf(),
            Err(e) => config_of(*doc, ifname@, report_view(report)) == Err::<
                NicModel,
                TsnError,
            >(e),
        },
{
    let es = match doc {
        Node::Dict(es) => es,
        _ => {
            return Err(TsnError::ConfigMissing);
        },
    };
    let nics = match get(es, "nics") {
        Some(Node::Dict(nics)) => nics,
        _ => {
            return Err(TsnError::ConfigMissing);
        },
    };
    match get(nics, ifname) {
        Some(block) => normalise_nic(block, report),
        None => Err(TsnError::ConfigMissing),
    }
}

/// Whether the block of an interface asks for the speed of its link: it is a
/// mapping with a credit-based shaper.
pub open spec fn asks_link_speed(doc: Node, ifname: Seq<char>) -> bool {
    block_of(doc, ifname) matches Some(Node::Dict(es)) && lookup(es@, "cbs"@, 0) is Some
}

/// Tells whether normalising the block of an interface reads the speed of
/// its link, so that the link inspector need not be asked otherwise.
pub fn wants_link_speed(doc: &Node, ifname: &str) -> (b: bool)
    ensures
        b == asks_link_speed(*doc, ifname@),
{
    let es = match doc {
        Node::Dict(es) => es,
        _ => {
            return false;
        },
    };
    let nics = match get(es, "nics") {
        Some(Node::Dict(nics)) => nics,
        _ => {
            return false;
        },
    };
    match get(nics, ifname) {
        Some(Node::Dict(block)) => get(block, "cbs").is_some(),
        _ => false,
    }
}

/// The names of the interfaces that a document has blocks for, in order.
pub open spec fn names_of(nics: Seq<(Node, Node)>) -> Seq<Seq<char>>
    decreases nics.len(),
{
    if nics.len() == 0 {
        Seq::empty()
    } else {
        match nics.last().0 {
            Node::Text(t) => names_of(nics.drop_last()).push(t@),
            _ => names_of(nics.drop_last()),
        }
    }
}

/// Lists the interfaces that a document has blocks for, in the document's
/// order. A document without a mapping under `nics` has none.
pub fn nic_names(doc: &Node) -> (names: Vec<String>)
    ensures
        texts(names@) == match *doc {
            Node::Dict(es) => match lookup(es@, "nics"@, 0) {
                Some(Node::Dict(nics)) => names_of(nics@),
                _ => Seq::empty(),
            },
            _ => Seq::empty(),
        },
{
    let mut names: Vec<String> = Vec::new();
    assert(texts(names@) =~= Seq::<Seq<char>>::empty());
    let es = match doc {
        Node::Dict(es) => es,
        _ => {
            return names;
        },
    };
    let nics = match get(es, "nics") {
        Some(Node::Dict(nics)) => nics,
        _ => {
            return names;
        },
    };
    let n: usize = nics.len();
    let mut i: usize = 0;
    while i < n
        invariant
            i <= n,
            n == nics@.len(),
            texts(names@) == names_of(nics@.take(i as int)),
        decreases n - i,
    {
        assert(nics@.take(i + 1).drop_last() =~= nics@.take(i as int));
        assert(nics@.take(i + 1).last() == nics@[i as int]);
        match &nics[i].0 {
            Node::Text(t) => {
                let ghost before = texts(names@);
                names.push(t.clone());
                assert(texts(names@) =~= before.push(t@));
            },
            _ => {},
        }
        i = i + 1;
    }
    assert(nics@.take(n as int) =~= nics@);
    names
}

/// The priorities that a configuration lists: those of the schedule of its
/// time-aware shaper, or those of the streams of its credit-based shaper.
pub open spec fn listed_priorities(m: NicModel) -> Seq<i64> {
    match (m.tas, m.cbs) {
        (Some(t), _) => listed(t.1),
        (None, Some(c)) => prios_of(c.0),
        (None, None) => Seq::empty(),
    }
}

/// The traffic-class map of a configuration's shaper, if it has one.
pub open spec fn tc_map_in(c: Config) -> Option<(Seq<i64>, i64)> {
    match (c.tas, c.cbs) {
        (Some(t), _) => Some((t.tc_map@, t.num_tc)),
        (None, Some(s)) => Some((s.tc_map@, s.num_tc)),
        (None, None) => None,
    }
}

/// The traffic-class map of a configuration is a total function on the
/// sixteen priorities, each of its values is one of the classes, and so it
/// has no more values than there are classes.
pub proof fn lemma_tc_map_is_total(c: Config)
    requires
        c.wf(),
        tc_map_in(c) is Some,
    ensures
        ({
            let (map, num_tc) = tc_map_in(c)->0;
            &&& map.len() == PRIORITIES
            &&& forall|p: int| 0 <= p < PRIORITIES ==> 0 <= #[trigger] map[p] < num_tc
            &&& map.to_set().finite()
            &&& map.to_set().len() <= num_tc
        }),
{
    let order = first_seen(listed_priorities(c.model()));
    lemma_first_seen_len(listed_priorities(c.model()));
    lemma_tc_map_total(order);
}

/// The number of traffic classes of a configuration is one more than the
/// number of different priorities that its schedule or its streams list.
pub proof fn lemma_num_tc_counts_priorities(c: Config)
    requires
        c.wf(),
        tc_map_in(c) is Some,
    ensures
        ({
            let (map, num_tc) = tc_map_in(c)->0;
            num_tc == 1 + Set::new(
                |p: i64| is_priority(p) && listed_priorities(c.model()).contains(p),
            ).len()
        }),
{
    lemma_first_seen_len(listed_priorities(c.model()));
}

} // verus!
