use tsn::cbs::CbsConfig;
use tsn::cbs::CbsChild;
use tsn::config::{Config, QosEntry, VlanQos};
use tsn::error::TsnError;
use tsn::tas::{TasConfig, TasSchedule};
use tsn::vlan::{
    create_vlan, delete_vlan, get_shmem_name, get_vlan_name, run_cmd, setup_cbs, setup_tas,
    AdminNext,
};

fn qos() -> Vec<VlanQos> {
    vec![
        VlanQos { vlan: 5, map: vec![] },
        VlanQos {
            vlan: 10,
            map: vec![QosEntry { prio: 3, pcp: 5 }, QosEntry { prio: 7, pcp: 1 }],
        },
    ]
}

fn tas() -> TasConfig {
    TasConfig::new(
        400_000,
        vec![
            TasSchedule { time: 300_000, prio: vec![3] },
            TasSchedule { time: 700_000, prio: vec![2, -1] },
        ],
    )
}

fn cbs() -> CbsConfig {
    CbsConfig::new(
        vec![
            CbsChild { prio: 3, max_frame: 4_000, bandwidth: 7_000_000, class: 'a' },
            CbsChild { prio: 2, max_frame: 8_000, bandwidth: 7_000_000, class: 'b' },
            CbsChild { prio: 5, max_frame: 4_000, bandwidth: 3_000_000, class: 'a' },
        ],
        1_000_000_000,
    )
    .unwrap()
}

#[test]
fn short_names_are_kept() {
    assert_eq!(get_vlan_name("eth0", 10), "eth0.10");
    assert_eq!(get_vlan_name("enp0s31f6x", 4094), "enp0s31f6x.4094");
    assert_eq!(get_vlan_name("", 0), ".0");
}

#[test]
fn long_names_are_cut_to_ten_characters() {
    assert_eq!(get_vlan_name("enp0s31f6xy", 7), "enp0s31f6x.7");
    assert_eq!(get_vlan_name("a_very_long_interface_name", 100), "a_very_lon.100");
    assert!(get_vlan_name("a_very_long_interface_name", 4094).len() <= 15);
    assert_eq!(get_vlan_name("ääääääääääää", 1), "ääääääääää.1");
}

#[test]
fn segment_names() {
    assert_eq!(get_shmem_name("eth0", 10), "libtsn_vlan_eth0.10");
    assert_eq!(get_shmem_name("enp0s31f6xyz", 10), "libtsn_vlan_enp0s31f6x.10");
}

#[test]
fn taprio_command() {
    assert_eq!(
        setup_tas("enp0s31f6xyz", &tas()),
        "tc qdisc replace dev enp0s31f6xyz parent root handle 100 taprio num_tc 3 \
         map 2 2 1 0 2 2 2 2 2 2 2 2 2 2 2 2 queues 1@0 1@0 1@0 base-time 0 \
         sched-entry S 1 300000 sched-entry S 6 700000 flags 0x2 txtime-delay 400000"
    );
}

#[test]
fn mqprio_and_cbs_commands() {
    assert_eq!(
        setup_cbs("eth0", &cbs()),
        vec![
            "tc qdisc add dev eth0 parent root handle 100 mqprio num_tc 4 \
             map 3 3 1 0 3 2 3 3 3 3 3 3 3 3 3 3 queues 1@0 1@1 1@2 1@3 hw 0",
            "tc qdisc replace dev eth0 parent 100:1 handle 1111 cbs idleslope 10000 \
             sendslope -990000 hicredit 80 locredit -7920 offload 1",
            "tc qdisc replace dev eth0 parent 100:2 handle 2222 cbs idleslope 7000 \
             sendslope -993000 hicredit 113 locredit -7944 offload 1",
        ]
    );
}

#[test]
fn creating_a_vlan_with_a_time_aware_shaper() {
    let mut config = Config::new(qos());
    config.tas = Some(tas());
    let cmds = create_vlan(&config, "enp0s31f6xyz", 10).unwrap();
    assert_eq!(
        cmds,
        vec![
            "ip link add link enp0s31f6xyz name enp0s31f6x.10 type vlan id 10 egress-qos-map 3:5 7:1"
                .to_string(),
            "ip link set up enp0s31f6x.10".to_string(),
            setup_tas("enp0s31f6xyz", &tas()),
        ]
    );
}

#[test]
fn creating_a_vlan_with_a_credit_based_shaper() {
    let mut config = Config::new(qos());
    config.cbs = Some(cbs());
    let cmds = create_vlan(&config, "eth0", 5).unwrap();
    assert_eq!(cmds.len(), 5);
    assert_eq!(cmds[0], "ip link add link eth0 name eth0.5 type vlan id 5 egress-qos-map");
    assert_eq!(cmds[1], "ip link set up eth0.5");
    assert_eq!(cmds[2..].to_vec(), setup_cbs("eth0", &cbs()));
}

#[test]
fn creating_a_vlan_without_a_shaper() {
    let cmds = create_vlan(&Config::new(qos()), "eth0", 10).unwrap();
    assert_eq!(
        cmds,
        vec![
            "ip link add link eth0 name eth0.10 type vlan id 10 egress-qos-map 3:5 7:1",
            "ip link set up eth0.10",
        ]
    );
}

#[test]
fn creating_a_vlan_that_cannot_be() {
    let config = Config::new(qos());
    assert_eq!(create_vlan(&config, "eth0", 0), Err(TsnError::InvalidConfig));
    assert_eq!(create_vlan(&config, "eth0", 4095), Err(TsnError::InvalidConfig));
    assert_eq!(create_vlan(&config, "eth0", 65535), Err(TsnError::InvalidConfig));
    assert_eq!(create_vlan(&config, "eth0", 11), Err(TsnError::ConfigMissing));
    let mut both = Config::new(qos());
    both.tas = Some(tas());
    both.cbs = Some(cbs());
    assert_eq!(create_vlan(&both, "eth0", 10), Err(TsnError::InvalidConfig));
}

#[test]
fn deleting_a_vlan() {
    assert_eq!(
        delete_vlan("enp0s31f6xyz", 10),
        vec!["ip link del enp0s31f6x.10", "tc qdisc delete dev enp0s31f6xyz root"]
    );
}

#[test]
fn a_plan_stops_at_the_first_command_that_fails() {
    assert_eq!(run_cmd(0, 3, true), AdminNext::Run(1));
    assert_eq!(run_cmd(1, 3, true), AdminNext::Run(2));
    assert_eq!(run_cmd(2, 3, true), AdminNext::Done);
    assert_eq!(run_cmd(0, 3, false), AdminNext::Fail(TsnError::LinkAdminFailed));
    assert_eq!(run_cmd(2, 3, false), AdminNext::Fail(TsnError::LinkAdminFailed));
    assert_eq!(run_cmd(0, 0, true), AdminNext::Done);
    assert_eq!(run_cmd(usize::MAX, usize::MAX, true), AdminNext::Done);
}
