use tsn::cbs::{calc_credits, normalise_cbs, CbsChild, CbsConfig, CbsCredit};
use tsn::config::{
    nic_names, normalise_nic, normalise_vlan, read_config, wants_link_speed, Config, QosEntry,
    VlanQos,
};
use tsn::document::Node;
use tsn::error::TsnError;
use tsn::serialise::serialise;
use tsn::tas::{normalise_tas, Queue, SchedEntry, TasConfig, TasSchedule};

fn text(s: &str) -> Node {
    Node::Text(s.to_string())
}

fn dict(entries: Vec<(&str, Node)>) -> Node {
    Node::Dict(entries.into_iter().map(|(k, v)| (text(k), v)).collect())
}

fn ints(values: &[i64]) -> Node {
    Node::List(values.iter().map(|v| Node::Int(*v)).collect())
}

fn entry(time: Node, prio: &[i64]) -> Node {
    dict(vec![("time", time), ("prio", ints(prio))])
}

fn tas_doc() -> Node {
    dict(vec![
        ("txtime_delay", text("400us")),
        (
            "schedule",
            Node::List(vec![
                entry(text("300us"), &[3]),
                entry(text("300us"), &[2, 3]),
                entry(Node::Int(400_000), &[-1]),
                entry(text("1ms"), &[0, 2]),
            ]),
        ),
    ])
}

fn stream(class: &str, bandwidth: Node, max_frame: Node) -> Node {
    dict(vec![("class", text(class)), ("bandwidth", bandwidth), ("max_frame", max_frame)])
}

fn cbs_doc() -> Node {
    Node::Dict(vec![
        (Node::Int(3), stream("a", text("7000kbps"), text("500B"))),
        (Node::Int(2), stream("b", text("7Mbps"), text("1000B"))),
        (Node::Int(5), stream("a", Node::Int(3_000_000), Node::Int(4_000))),
    ])
}

fn qos_doc() -> Node {
    Node::Dict(vec![
        (
            Node::Int(10),
            Node::Dict(vec![(Node::Int(3), Node::Int(5)), (Node::Int(7), Node::Int(1))]),
        ),
        (Node::Int(20), Node::Dict(vec![])),
    ])
}

#[test]
fn tas_is_normalised() {
    let c = normalise_tas(&tas_doc()).unwrap();
    assert_eq!(c.txtime_delay, 400_000);
    assert_eq!(c.base_time, 0);
    assert_eq!(
        c.schedule,
        vec![
            TasSchedule { time: 300_000, prio: vec![3] },
            TasSchedule { time: 300_000, prio: vec![2, 3] },
            TasSchedule { time: 400_000, prio: vec![-1] },
            TasSchedule { time: 1_000_000, prio: vec![0, 2] },
        ]
    );
    // first seen: 3 -> 0, 2 -> 1, 0 -> 2; best effort -> 3
    assert_eq!(c.tc_map, vec![2, 3, 1, 0, 3, 3, 3, 3, 3, 3, 3, 3, 3, 3, 3, 3]);
    assert_eq!(c.num_tc, 4);
    assert_eq!(c.queues, vec![Queue { count: 1, offset: 0 }; 4]);
    assert_eq!(
        c.sched_entries,
        vec![
            SchedEntry { mask: 0b0001, time: 300_000 },
            SchedEntry { mask: 0b0011, time: 300_000 },
            SchedEntry { mask: 0b1000, time: 400_000 },
            SchedEntry { mask: 0b0110, time: 1_000_000 },
        ]
    );
}

#[test]
fn a_priority_listed_twice_opens_one_bit() {
    let doc = dict(vec![("schedule", Node::List(vec![entry(Node::Int(5), &[4, 4, -1, 4])]))]);
    let c = normalise_tas(&doc).unwrap();
    assert_eq!(c.num_tc, 2);
    assert_eq!(c.sched_entries, vec![SchedEntry { mask: 0b11, time: 5 }]);
    assert_eq!(c.txtime_delay, 0);
}

#[test]
fn tc_map_is_total_and_counts_classes() {
    for prios in [vec![], vec![-1], vec![0], vec![15, 0, 15, 7], (0..16).collect::<Vec<i64>>()] {
        let doc = dict(vec![("schedule", Node::List(vec![entry(Node::Int(1), &prios)]))]);
        let c = normalise_tas(&doc).unwrap();
        let mut distinct: Vec<i64> = prios.iter().copied().filter(|p| *p >= 0).collect();
        distinct.sort();
        distinct.dedup();
        assert_eq!(c.num_tc, 1 + distinct.len() as i64);
        assert_eq!(c.tc_map.len(), 16);
        let mut image = c.tc_map.clone();
        image.sort();
        image.dedup();
        assert!(image.len() as i64 <= c.num_tc);
        assert!(c.tc_map.iter().all(|v| 0 <= *v && *v < c.num_tc));
        assert_eq!(c.queues.len() as i64, c.num_tc);
    }
}

#[test]
fn a_delay_that_cannot_be_read_is_zero() {
    let doc = dict(vec![
        ("schedule", Node::List(vec![])),
        ("txtime_delay", text("soon")),
    ]);
    let c = normalise_tas(&doc).unwrap();
    assert_eq!(c.txtime_delay, 0);
    assert_eq!(c.num_tc, 1);
    assert!(c.sched_entries.is_empty());
}

#[test]
fn bad_tas_is_invalid_config() {
    let bad = [
        Node::Null,
        dict(vec![]),
        dict(vec![("schedule", Node::Int(1))]),
        dict(vec![("schedule", Node::List(vec![Node::Int(1)]))]),
        dict(vec![("schedule", Node::List(vec![dict(vec![("time", Node::Int(1))])]))]),
        dict(vec![("schedule", Node::List(vec![dict(vec![("prio", ints(&[1]))])]))]),
        dict(vec![("schedule", Node::List(vec![entry(Node::Int(0), &[1])]))]),
        dict(vec![("schedule", Node::List(vec![entry(Node::Int(-5), &[1])]))]),
        dict(vec![("schedule", Node::List(vec![entry(text("1 week"), &[1])]))]),
        dict(vec![("schedule", Node::List(vec![entry(Node::Int(1), &[16])]))]),
        dict(vec![("schedule", Node::List(vec![entry(Node::Int(1), &[-2])]))]),
        dict(vec![(
            "schedule",
            Node::List(vec![dict(vec![
                ("time", Node::Int(1)),
                ("prio", Node::List(vec![text("3")])),
            ])]),
        )]),
        dict(vec![(
            "schedule",
            Node::List(vec![entry(Node::Int(1), &[1]), entry(Node::Other, &[1])]),
        )]),
    ];
    for doc in bad.iter() {
        assert_eq!(normalise_tas(doc), Err(TsnError::InvalidConfig), "{:?}", doc);
    }
}

#[test]
fn credits_follow_the_formulas() {
    let streams = vec![
        CbsChild { prio: 3, max_frame: 4_000, bandwidth: 7_000_000, class: 'a' },
        CbsChild { prio: 2, max_frame: 8_000, bandwidth: 7_000_000, class: 'b' },
        CbsChild { prio: 5, max_frame: 4_000, bandwidth: 3_000_000, class: 'a' },
    ];
    // class a: idle 10e6, frames 8000; class b: idle 7e6, frames 8000; link 1e9
    let (a, b) = calc_credits(&streams, 1_000_000_000).unwrap();
    assert_eq!(
        a,
        CbsCredit { sendslope: -990_000, idleslope: 10_000, hicredit: 80, locredit: -7_920 }
    );
    // hi_b = ceil(7e6 * (8000 / 990e6 + 8000 / 1e9)) = ceil(56.5656.. + 56) = 113
    assert_eq!(
        b,
        CbsCredit { sendslope: -993_000, idleslope: 7_000, hicredit: 113, locredit: -7_944 }
    );
}

#[test]
fn credits_round_up_and_slopes_round_down() {
    let streams = vec![CbsChild { prio: 1, max_frame: 3, bandwidth: 1_999, class: 'a' }];
    let (a, b) = calc_credits(&streams, 10_000).unwrap();
    // hi = ceil(1999 * 3 / 10000) = ceil(0.5997) = 1; lo = ceil(-8001 * 3 / 10000) = ceil(-2.4003) = -2
    assert_eq!(a, CbsCredit { sendslope: -9, idleslope: 1, hicredit: 1, locredit: -2 });
    assert_eq!(b, CbsCredit { sendslope: -10, idleslope: 0, hicredit: 0, locredit: 0 });
}

#[test]
fn credits_of_an_overbooked_class() {
    // class a asks for twice the link: what it leaves is negative
    let streams = vec![
        CbsChild { prio: 1, max_frame: 100, bandwidth: 2_000, class: 'a' },
        CbsChild { prio: 2, max_frame: 50, bandwidth: 300, class: 'b' },
    ];
    let (a, b) = calc_credits(&streams, 1_000).unwrap();
    assert_eq!(a, CbsCredit { sendslope: 1, idleslope: 2, hicredit: 200, locredit: 100 });
    // hi_b = ceil(300 * (50 / -1000 + 100 / 1000)) = ceil(15) = 15; lo_b = ceil(-700 * 50 / 1000) = -35
    assert_eq!(b, CbsCredit { sendslope: -1, idleslope: 0, hicredit: 15, locredit: -35 });
}

#[test]
fn credits_that_cannot_be_worked_out() {
    let one = vec![CbsChild { prio: 1, max_frame: 100, bandwidth: 1_000, class: 'a' }];
    assert_eq!(calc_credits(&one, 0), Err(TsnError::InvalidConfig));
    assert_eq!(calc_credits(&one, -5), Err(TsnError::InvalidConfig));
    assert_eq!(calc_credits(&one, 1_000), Err(TsnError::InvalidConfig));
    assert!(calc_credits(&one, 1_001).is_ok());
    let huge = vec![
        CbsChild { prio: 1, max_frame: i64::MAX, bandwidth: i64::MAX, class: 'a' },
        CbsChild { prio: 2, max_frame: i64::MAX, bandwidth: i64::MAX, class: 'b' },
    ];
    assert_eq!(calc_credits(&huge, 2), Err(TsnError::InvalidConfig));
    let twice = vec![
        CbsChild { prio: 1, max_frame: 1, bandwidth: i64::MAX, class: 'a' },
        CbsChild { prio: 2, max_frame: 1, bandwidth: i64::MAX, class: 'a' },
    ];
    assert_eq!(calc_credits(&twice, 1_000), Err(TsnError::InvalidConfig));
    assert!(calc_credits(&vec![], 1_000).is_ok());
}

#[test]
fn cbs_is_normalised() {
    let report = "Settings for eth0:\n\tSpeed: 100Mb/s\n";
    let c = normalise_cbs(&cbs_doc(), Some(report)).unwrap();
    assert_eq!(c.linkspeed, 100_000_000);
    assert_eq!(
        c.streams,
        vec![
            CbsChild { prio: 3, max_frame: 4_000, bandwidth: 7_000_000, class: 'a' },
            CbsChild { prio: 2, max_frame: 8_000, bandwidth: 7_000_000, class: 'b' },
            CbsChild { prio: 5, max_frame: 4_000, bandwidth: 3_000_000, class: 'a' },
        ]
    );
    assert_eq!(c.tc_map, vec![3, 3, 1, 0, 3, 2, 3, 3, 3, 3, 3, 3, 3, 3, 3, 3]);
    assert_eq!(c.num_tc, 4);
    assert_eq!(
        c.queues,
        vec![
            Queue { count: 1, offset: 0 },
            Queue { count: 1, offset: 1 },
            Queue { count: 1, offset: 2 },
            Queue { count: 1, offset: 3 },
        ]
    );
    assert_eq!(
        c.credit_a,
        CbsCredit { sendslope: -90_000, idleslope: 10_000, hicredit: 800, locredit: -7_200 }
    );
    // hi_b = ceil(7e6 * (8000 / 90e6 + 8000 / 100e6)) = ceil(622.22.. + 560) = 1183
    assert_eq!(
        c.credit_b,
        CbsCredit { sendslope: -93_000, idleslope: 7_000, hicredit: 1_183, locredit: -7_440 }
    );
    assert!(c.fits_link());
}

#[test]
fn cbs_without_a_report_takes_one_gigabit() {
    let c = normalise_cbs(&cbs_doc(), None).unwrap();
    assert_eq!(c.linkspeed, 1_000_000_000);
    let d = normalise_cbs(&cbs_doc(), Some("no speed here")).unwrap();
    assert_eq!(d.linkspeed, 1_000_000_000);
    assert_eq!(c, d);
}

#[test]
fn slopes_and_credits_keep_their_signs_within_the_link() {
    let docs = [
        cbs_doc(),
        Node::Dict(vec![]),
        Node::Dict(vec![(Node::Int(0), stream("b", text("999Mbps"), text("1500B")))]),
        Node::Dict(vec![
            (Node::Int(0), stream("a", text("1Mbps"), Node::Int(0))),
            (Node::Int(1), stream("b", Node::Int(0), text("64B"))),
        ]),
    ];
    for doc in docs.iter() {
        let c = normalise_cbs(doc, None).unwrap();
        assert!(c.fits_link());
        for k in [c.credit_a, c.credit_b] {
            assert!(k.idleslope >= 0 && k.sendslope <= 0, "{:?}", k);
            assert!(k.hicredit >= 0 && k.locredit <= 0, "{:?}", k);
        }
    }
}

#[test]
fn an_overbooked_link_is_told_apart() {
    let doc = Node::Dict(vec![(Node::Int(0), stream("a", text("2Gbps"), text("1500B")))]);
    let c = normalise_cbs(&doc, None).unwrap();
    assert!(!c.fits_link());
    assert_eq!(c.credit_a.sendslope, 1_000_000);
    assert!(c.credit_a.locredit > 0);
}

#[test]
fn bad_cbs_is_invalid_config() {
    let good = stream("a", text("1Mbps"), text("100B"));
    assert!(normalise_cbs(&Node::Dict(vec![(Node::Int(1), good)]), None).is_ok());
    let bad = [
        Node::List(vec![]),
        Node::Dict(vec![(text("1"), stream("a", text("1Mbps"), text("100B")))]),
        Node::Dict(vec![(Node::Int(16), stream("a", text("1Mbps"), text("100B")))]),
        Node::Dict(vec![(Node::Int(-1), stream("a", text("1Mbps"), text("100B")))]),
        Node::Dict(vec![(Node::Int(1), stream("c", text("1Mbps"), text("100B")))]),
        Node::Dict(vec![(Node::Int(1), stream("ab", text("1Mbps"), text("100B")))]),
        Node::Dict(vec![(Node::Int(1), stream("a", text("1Mb"), text("100B")))]),
        Node::Dict(vec![(Node::Int(1), stream("a", text("1Mbps"), text("100Bps")))]),
        Node::Dict(vec![(Node::Int(1), stream("a", Node::Int(-1), text("100B")))]),
        Node::Dict(vec![(Node::Int(1), dict(vec![("class", text("a"))]))]),
        Node::Dict(vec![(Node::Int(1), Node::Int(1))]),
        Node::Dict(vec![(Node::Int(1), stream("a", text("1Gbps"), text("100B")))]),
    ];
    for doc in bad.iter() {
        assert_eq!(normalise_cbs(doc, None), Err(TsnError::InvalidConfig), "{:?}", doc);
    }
    let doc = Node::Dict(vec![(Node::Int(1), stream("a", text("1Mbps"), text("100B")))]);
    assert_eq!(normalise_cbs(&doc, Some("Speed: 5bs")), Err(TsnError::InvalidConfig));
}

#[test]
fn egress_maps_are_normalised() {
    assert_eq!(
        normalise_vlan(&qos_doc()),
        Ok(vec![
            VlanQos {
                vlan: 10,
                map: vec![QosEntry { prio: 3, pcp: 5 }, QosEntry { prio: 7, pcp: 1 }],
            },
            VlanQos { vlan: 20, map: vec![] },
        ])
    );
}

#[test]
fn vlan_id_out_of_range_is_invalid_config() {
    for vlan in [0, 4095, -1, 65536] {
        let doc = Node::Dict(vec![(Node::Int(vlan), Node::Dict(vec![]))]);
        assert_eq!(normalise_vlan(&doc), Err(TsnError::InvalidConfig));
    }
    for vlan in [1, 4094] {
        let doc = Node::Dict(vec![(Node::Int(vlan), Node::Dict(vec![]))]);
        assert!(normalise_vlan(&doc).is_ok());
    }
}

#[test]
fn bad_egress_maps_are_invalid_config() {
    let bad = [
        Node::Null,
        Node::Dict(vec![(text("10"), Node::Dict(vec![]))]),
        Node::Dict(vec![(Node::Int(10), Node::List(vec![]))]),
        Node::Dict(vec![(Node::Int(10), Node::Dict(vec![(Node::Int(1), Node::Int(8))]))]),
        Node::Dict(vec![(Node::Int(10), Node::Dict(vec![(Node::Int(1), Node::Int(-1))]))]),
        Node::Dict(vec![(Node::Int(10), Node::Dict(vec![(Node::Int(1), text("2"))]))]),
    ];
    for doc in bad.iter() {
        assert_eq!(normalise_vlan(doc), Err(TsnError::InvalidConfig), "{:?}", doc);
    }
}

#[test]
fn an_interface_is_normalised() {
    let block = dict(vec![("egress-qos-map", qos_doc()), ("tas", tas_doc())]);
    let c = normalise_nic(&block, None).unwrap();
    assert_eq!(c.egress_qos_map.len(), 2);
    assert_eq!(c.tas, Some(normalise_tas(&tas_doc()).unwrap()));
    assert_eq!(c.cbs, None);
    let block = dict(vec![("cbs", cbs_doc()), ("egress-qos-map", qos_doc())]);
    let c = normalise_nic(&block, Some("Speed: 10Gb/s")).unwrap();
    assert_eq!(c.tas, None);
    assert_eq!(c.cbs, Some(normalise_cbs(&cbs_doc(), Some("Speed: 10Gb/s")).unwrap()));
    let block = dict(vec![("egress-qos-map", qos_doc())]);
    let c = normalise_nic(&block, None).unwrap();
    assert_eq!(c, Config::new(normalise_vlan(&qos_doc()).unwrap()));
}

#[test]
fn both_shapers_are_invalid_config() {
    let block = dict(vec![("egress-qos-map", qos_doc()), ("tas", tas_doc()), ("cbs", cbs_doc())]);
    assert_eq!(normalise_nic(&block, None), Err(TsnError::InvalidConfig));
}

#[test]
fn missing_keys_are_invalid_config() {
    assert_eq!(normalise_nic(&dict(vec![("tas", tas_doc())]), None), Err(TsnError::InvalidConfig));
    assert_eq!(normalise_nic(&dict(vec![]), None), Err(TsnError::InvalidConfig));
    assert_eq!(normalise_nic(&Node::List(vec![]), None), Err(TsnError::InvalidConfig));
    let block = dict(vec![("egress-qos-map", qos_doc()), ("tas", dict(vec![]))]);
    assert_eq!(normalise_nic(&block, None), Err(TsnError::InvalidConfig));
}

#[test]
fn a_document_is_read_by_interface() {
    let doc = dict(vec![(
        "nics",
        dict(vec![
            ("eth0", dict(vec![("egress-qos-map", qos_doc()), ("tas", tas_doc())])),
            ("eth1", dict(vec![("egress-qos-map", qos_doc()), ("cbs", cbs_doc())])),
            ("eth2", dict(vec![("tas", tas_doc())])),
        ]),
    )]);
    assert!(read_config(&doc, "eth0", None).unwrap().tas.is_some());
    assert!(read_config(&doc, "eth1", None).unwrap().cbs.is_some());
    assert_eq!(read_config(&doc, "eth2", None), Err(TsnError::InvalidConfig));
    assert_eq!(read_config(&doc, "eth3", None), Err(TsnError::ConfigMissing));
    assert_eq!(read_config(&dict(vec![]), "eth0", None), Err(TsnError::ConfigMissing));
    assert_eq!(read_config(&Node::Null, "eth0", None), Err(TsnError::ConfigMissing));
}

#[test]
fn normalising_is_idempotent() {
    let blocks = [
        dict(vec![("egress-qos-map", qos_doc()), ("tas", tas_doc())]),
        dict(vec![("cbs", cbs_doc()), ("egress-qos-map", qos_doc())]),
        dict(vec![("egress-qos-map", Node::Dict(vec![]))]),
    ];
    for block in blocks.iter() {
        for report in [None, Some("Speed: 100Mb/s")] {
            let once = normalise_nic(block, report).unwrap();
            let written = serialise(&once);
            let twice = normalise_nic(&written, report).unwrap();
            assert_eq!(once, twice);
            assert_eq!(serialise(&twice), written);
        }
    }
}

#[test]
fn a_written_shaper_holds_plain_numbers() {
    let block = dict(vec![("egress-qos-map", Node::Dict(vec![])), ("tas", tas_doc())]);
    let written = serialise(&normalise_nic(&block, None).unwrap());
    let want = dict(vec![
        ("egress-qos-map", Node::Dict(vec![])),
        (
            "tas",
            dict(vec![
                ("txtime_delay", Node::Int(400_000)),
                (
                    "schedule",
                    Node::List(vec![
                        dict(vec![("prio", ints(&[3])), ("time", Node::Int(300_000))]),
                        dict(vec![("prio", ints(&[2, 3])), ("time", Node::Int(300_000))]),
                        dict(vec![("prio", ints(&[-1])), ("time", Node::Int(400_000))]),
                        dict(vec![("prio", ints(&[0, 2])), ("time", Node::Int(1_000_000))]),
                    ]),
                ),
            ]),
        ),
    ]);
    assert_eq!(written, want);
}

#[test]
fn shapers_are_derived_from_plain_values() {
    let t = TasConfig::new(7, vec![TasSchedule { time: 9, prio: vec![1] }]);
    assert_eq!(t.txtime_delay, 7);
    assert_eq!(t.tc_map[1], 0);
    assert_eq!(t.sched_entries, vec![SchedEntry { mask: 1, time: 9 }]);
    let c = CbsConfig::new(vec![], 1_000).unwrap();
    assert_eq!(c.num_tc, 1);
    assert_eq!(c.tc_map, vec![0; 16]);
    assert_eq!(c.credit_a, CbsCredit { sendslope: -1, idleslope: 0, hicredit: 0, locredit: 0 });
    assert_eq!(CbsConfig::new(vec![], 0), Err(TsnError::InvalidConfig));
}

#[test]
fn interfaces_are_listed_in_order() {
    let doc = dict(vec![
        ("other", Node::Null),
        (
            "nics",
            Node::Dict(vec![
                (text("eth1"), dict(vec![("cbs", cbs_doc())])),
                (Node::Int(7), Node::Null),
                (text("eth0"), dict(vec![("tas", tas_doc())])),
                (text("eth2"), Node::List(vec![])),
            ]),
        ),
    ]);
    assert_eq!(nic_names(&doc), vec!["eth1", "eth0", "eth2"]);
    assert!(nic_names(&Node::Null).is_empty());
    assert!(nic_names(&dict(vec![("nics", Node::List(vec![]))])).is_empty());
    assert!(wants_link_speed(&doc, "eth1"));
    assert!(!wants_link_speed(&doc, "eth0"));
    assert!(!wants_link_speed(&doc, "eth2"));
    assert!(!wants_link_speed(&doc, "eth9"));
    assert!(!wants_link_speed(&Node::Other, "eth1"));
}
