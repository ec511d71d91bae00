use tsn::cbs::{CbsChild, CbsConfig};
use tsn::config::Config;
use tsn::info::get_info;
use tsn::tas::{TasConfig, TasSchedule};
use tsn::vlan::command_words;

#[test]
fn a_configuration_without_shapers_says_nothing() {
    assert!(get_info(&Config::new(vec![])).is_empty());
}

#[test]
fn a_time_aware_shaper_is_described() {
    let mut c = Config::new(vec![]);
    c.tas = Some(TasConfig::new(
        400_000,
        vec![
            TasSchedule { time: 300_000, prio: vec![3] },
            TasSchedule { time: 700_000, prio: vec![2, -1, 0] },
            TasSchedule { time: 5, prio: vec![] },
        ],
    ));
    assert_eq!(
        get_info(&c),
        vec![
            "  tas:",
            "    base_time: 0",
            "    schedule:",
            "      - prio: [3]",
            "        time: 300000",
            "      - prio: [2, -1, 0]",
            "        time: 700000",
            "      - prio: []",
            "        time: 5",
            "    txtime_delay: 400000",
        ]
    );
}

#[test]
fn a_credit_based_shaper_is_described() {
    let mut c = Config::new(vec![]);
    c.cbs = Some(
        CbsConfig::new(
            vec![
                CbsChild { prio: 3, max_frame: 4_000, bandwidth: 7_000_000, class: 'a' },
                CbsChild { prio: 2, max_frame: 8_000, bandwidth: 7_000_000, class: 'b' },
                CbsChild { prio: 5, max_frame: 4_000, bandwidth: 3_000_000, class: 'a' },
            ],
            1_000_000_000,
        )
        .unwrap(),
    );
    assert_eq!(
        get_info(&c),
        vec![
            "  cbs:",
            "    a:",
            "      credits: {hicredit: 80, idleslope: 10000, locredit: -7920, sendslope: -990000}",
            "      prios:",
            "        3: {bandwidth: 7000000, class: a, max_frame: 4000}",
            "        5: {bandwidth: 3000000, class: a, max_frame: 4000}",
            "    b:",
            "      credits: {hicredit: 113, idleslope: 7000, locredit: -7944, sendslope: -993000}",
            "      prios:",
            "        2: {bandwidth: 7000000, class: b, max_frame: 8000}",
        ]
    );
}

#[test]
fn commands_are_split_at_white_space() {
    assert_eq!(command_words("ip link set up eth0.10"), vec!["ip", "link", "set", "up", "eth0.10"]);
    assert_eq!(command_words("tc"), vec!["tc"]);
    assert_eq!(command_words(""), vec![""]);
    assert_eq!(command_words("a  b\tc "), vec!["a", "", "b", "c", ""]);
    for cmd in ["ip link del x.1", " lead", "two  blanks", "tab\tand\nline", "nbsp\u{a0}here", ""] {
        let want: Vec<&str> = cmd.split(char::is_whitespace).collect();
        assert_eq!(command_words(cmd), want, "{:?}", cmd);
    }
}
