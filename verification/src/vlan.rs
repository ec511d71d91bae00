use crate::cbs::CbsConfig;
use crate::cbs::CbsCredit;
use crate::config::Config;
use crate::config::QosEntry;
use crate::config::VlanQos;
use crate::error::TsnError;
use crate::socket::VLAN_ID_MAX;
use crate::socket::VLAN_ID_MIN;
use crate::tas::Queue;
use crate::tas::SchedEntry;
use crate::tas::TasConfig;
use crate::text::append_decimal;
use crate::text::append_signed;
use crate::text::char_is_space;
use crate::text::is_space;
use crate::text::to_chars;
use crate::text::decimal;
use crate::text::signed_decimal;
use crate::text::texts;
use vstd::prelude::*;
use vstd::string::*;

verus! {

/// Characters of an interface's name that go into the name of a VLAN
/// sub-interface.
pub const NAME_PREFIX_LEN: usize = 10;

/// The handle of the root qdisc.
pub const ROOT_HANDLE: u64 = 100;

/// The name of a VLAN sub-interface: the first characters of the
/// interface's name, a dot, and the VLAN id.
pub open spec fn vlan_name(ifname: Seq<char>, vlanid: u16) -> Seq<char> {
    let head = if ifname.len() > NAME_PREFIX_LEN {
        ifname.take(NAME_PREFIX_LEN as int)
    } else {
        ifname
    };
    head + "."@ + decimal(vlanid as nat)
}

/// The name of the shared segment of a VLAN.
pub open spec fn shmem_name(ifname: Seq<char>, vlanid: u16) -> Seq<char> {
    "libtsn_vlan_"@ + vlan_name(ifname, vlanid)
}

fn append_vlan_name(out: &mut String, ifname: &str, vlanid: u16)
    ensures
        final(out)@ == old(out)@ + vlan_name(ifname@, vlanid),
{
    let n: usize = ifname.unicode_len();
    if n > NAME_PREFIX_LEN {
        let head = ifname.substring_char(0, NAME_PREFIX_LEN);
        assert(head@ =~= ifname@.take(NAME_PREFIX_LEN as int));
        out.append(head);
    } else {
        out.append(ifname);
    }
    out.append(".");
    append_decimal(out, vlanid as u128);
    assert(out@ =~= old(out)@ + vlan_name(ifname@, vlanid));
}

/// Names the VLAN sub-interface of an interface. An interface name of more
/// than ten characters is cut to ten.
pub fn get_vlan_name(ifname: &str, vlanid: u16) -> (name: String)
    ensures
        name@ == vlan_name(ifname@, vlanid),
{
    let mut out = String::new();
    append_vlan_name(&mut out, ifname, vlanid);
    assert(out@ =~= vlan_name(ifname@, vlanid));
    out
}

/// Names the shared segment that holds the users of a VLAN.
pub fn get_shmem_name(ifname: &str, vlanid: u16) -> (name: String)
    ensures
        name@ == shmem_name(ifname@, vlanid),
{
    let mut out = String::new();
    out.append("libtsn_vlan_");
    append_vlan_name(&mut out, ifname, vlanid);
    assert(out@ =~= shmem_name(ifname@, vlanid));
    out
}

/// The values of a traffic-class map, each after a blank.
pub open spec fn map_text(map: Seq<i64>) -> Seq<char>
    decreases map.len(),
{
    if map.len() == 0 {
        Seq::empty()
    } else {
        map_text(map.drop_last()) + " "@ + signed_decimal(map.last() as int)
    }
}

/// The queue ranges, each after a blank, as count, `@` and offset.
pub open spec fn queues_text(queues: Seq<Queue>) -> Seq<char>
    decreases queues.len(),
{
    if queues.len() == 0 {
        Seq::empty()
    } else {
        queues_text(queues.drop_last()) + " "@ + decimal(queues.last().count as nat) + "@"@
            + decimal(queues.last().offset as nat)
    }
}

/// The schedule entries, each as ` sched-entry S`, the bitmask and the
/// time.
pub open spec fn sched_text(entries: Seq<SchedEntry>) -> Seq<char>
    decreases entries.len(),
{
    if entries.len() == 0 {
        Seq::empty()
    } else {
        sched_text(entries.drop_last()) + " sched-entry S "@ + decimal(entries.last().mask as nat)
            + " "@ + signed_decimal(entries.last().time as int)
    }
}

/// The entries of an egress map, each after a blank, as socket priority,
/// colon and code point.
pub open spec fn qos_text(map: Seq<QosEntry>) -> Seq<char>
    decreases map.len(),
{
    if map.len() == 0 {
        Seq::empty()
    } else {
        qos_text(map.drop_last()) + " "@ + signed_decimal(map.last().prio as int) + ":"@
            + signed_decimal(map.last().pcp as int)
    }
}

fn append_map(out: &mut String, map: &Vec<i64>)
    ensures
        final(out)@ == old(out)@ + map_text(map@),
{
    let n: usize = map.len();
    let mut i: usize = 0;
    assert(out@ =~= old(out)@ + map_text(map@.take(0)));
    while i < n
        invariant
            i <= n,
            n == map@.len(),
            out@ == old(out)@ + map_text(map@.take(i as int)),
        decreases n - i,
    {
        assert(map@.take(i + 1).drop_last() =~= map@.take(i as int));
        out.append(" ");
        append_signed(out, map[i] as i128);
        i = i + 1;
        assert(out@ =~= old(out)@ + map_text(map@.take(i as int)));
    }
    assert(map@.take(n as int) =~= map@);
}

fn append_queues(out: &mut String, queues: &Vec<Queue>)
    ensures
        final(out)@ == old(out)@ + queues_text(queues@),
{
    let n: usize = queues.len();
    let mut i: usize = 0;
    assert(out@ =~= old(out)@ + queues_text(queues@.take(0)));
    while i < n
        invariant
            i <= n,
            n == queues@.len(),
            out@ == old(out)@ + queues_text(queues@.take(i as int)),
        decreases n - i,
    {
        assert(queues@.take(i + 1).drop_last() =~= queues@.take(i as int));
        out.append(" ");
        append_decimal(out, queues[i].count as u128);
        out.append("@");
        append_decimal(out, queues[i].offset as u128);
        i = i + 1;
        assert(out@ =~= old(out)@ + queues_text(queues@.take(i as int)));
    }
    assert(queues@.take(n as int) =~= queues@);
}

fn append_sched(out: &mut String, entries: &Vec<SchedEntry>)
    ensures
        final(out)@ == old(out)@ + sched_text(entries@),
{
    let n: usize = entries.len();
    let mut i: usize = 0;
    assert(out@ =~= old(out)@ + sched_text(entries@.take(0)));
    while i < n
        invariant
            i <= n,
            n == entries@.len(),
            out@ == old(out)@ + sched_text(entries@.take(i as int)),
        decreases n - i,
    {
        assert(entries@.take(i + 1).drop_last() =~= entries@.take(i as int));
        out.append(" sched-entry S ");
        append_decimal(out, entries[i].mask as u128);
        out.append(" ");
        append_signed(out, entries[i].time as i128);
        i = i + 1;
        assert(out@ =~= old(out)@ + sched_text(entries@.take(i as int)));
    }
    assert(entries@.take(n as int) =~= entries@);
}

fn append_qos(out: &mut String, map: &Vec<QosEntry>)
    ensures
        final(out)@ == old(out)@ + qos_text(map@),
{
    let n: usize = map.len();
    let mut i: usize = 0;
    assert(out@ =~= old(out)@ + qos_text(map@.take(0)));
    while i < n
        invariant
            i <= n,
            n == map@.len(),
            out@ == old(out)@ + qos_text(map@.take(i as int)),
        decreases n - i,
    {
        assert(map@.take(i + 1).drop_last() =~= map@.take(i as int));
        out.append(" ");
        append_signed(out, map[i].prio as i128);
        out.append(":");
        append_signed(out, map[i].pcp as i128);
        i = i + 1;
        assert(out@ =~= old(out)@ + qos_text(map@.take(i as int)));
    }
    assert(map@.take(n as int) =~= map@);
}

/// The command that installs a time-aware shaper on an interface.
pub open spec fn tas_command(ifname: Seq<char>, c: TasConfig) -> Seq<char> {
    "tc qdisc replace dev "@ + ifname + " parent root handle "@ + decimal(ROOT_HANDLE as nat)
        + " taprio num_tc "@ + signed_decimal(c.num_tc as int) + " map"@ + map_text(c.tc_map@)
        + " queues"@ + queues_text(c.queues@) + " base-time "@ + signed_decimal(
        c.base_time as int,
    ) + sched_text(c.sched_entries@) + " flags 0x2 txtime-delay "@ + signed_decimal(
        c.txtime_delay as int,
    )
}

/// The command that installs the root qdisc of a credit-based shaper.
pub open spec fn mqprio_command(ifname: Seq<char>, c: CbsConfig) -> Seq<char> {
    "tc qdisc add dev "@ + ifname + " parent root handle "@ + decimal(ROOT_HANDLE as nat)
        + " mqprio num_tc "@ + signed_decimal(c.num_tc as int) + " map"@ + map_text(c.tc_map@)
        + " queues"@ + queues_text(c.queues@) + " hw 0"@
}

/// The command that installs the child qdisc of class `k` with its credits.
pub open spec fn cbs_command(ifname: Seq<char>, k: u64, credit: CbsCredit) -> Seq<char> {
    "tc qdisc replace dev "@ + ifname + " parent "@ + decimal(ROOT_HANDLE as nat) + ":"@ + decimal(
        k as nat,
    ) + " handle "@ + decimal((k * 1111) as nat) + " cbs idleslope "@ + signed_decimal(
        credit.idleslope as int,
    ) + " sendslope "@ + signed_decimal(credit.sendslope as int) + " hicredit "@ + signed_decimal(
        credit.hicredit as int,
    ) + " locredit "@ + signed_decimal(credit.locredit as int) + " offload 1"@
}

/// The command that creates the VLAN sub-interface with its egress map.
pub open spec fn link_add_command(ifname: Seq<char>, vlanid: u16, map: Seq<QosEntry>) -> Seq<
    char,
> {
    "ip link add link "@ + ifname + " name "@ + vlan_name(ifname, vlanid) + " type vlan id "@
        + decimal(vlanid as nat) + " egress-qos-map"@ + qos_text(map)
}

/// The command that brings the VLAN sub-interface up.
pub open spec fn link_up_command(ifname: Seq<char>, vlanid: u16) -> Seq<char> {
    "ip link set up "@ + vlan_name(ifname, vlanid)
}

/// The command that deletes the VLAN sub-interface.
pub open spec fn link_del_command(ifname: Seq<char>, vlanid: u16) -> Seq<char> {
    "ip link del "@ + vlan_name(ifname, vlanid)
}

/// The command that deletes the root qdisc of an interface.
pub open spec fn qdisc_del_command(ifname: Seq<char>) -> Seq<char> {
    "tc qdisc delete dev "@ + ifname + " root"@
}

/// Writes the command that installs a time-aware shaper on an interface.
pub fn setup_tas(ifname: &str, config: &TasConfig) -> (cmd: String)
    ensures
        cmd@ == tas_command(ifname@, *config),
{
    let mut out = String::new();
    out.append("tc qdisc replace dev ");
    out.append(ifname);
    out.append(" parent root handle ");
    append_decimal(&mut out, ROOT_HANDLE as u128);
    out.append(" taprio num_tc ");
    append_signed(&mut out, config.num_tc as i128);
    out.append(" map");
    append_map(&mut out, &config.tc_map);
    out.append(" queues");
    append_queues(&mut out, &config.queues);
    out.append(" base-time ");
    append_signed(&mut out, config.base_time as i128);
    append_sched(&mut out, &config.sched_entries);
    out.append(" flags 0x2 txtime-delay ");
    append_signed(&mut out, config.txtime_delay as i128);
    assert(out@ =~= tas_command(ifname@, *config));
    out
}

fn cbs_child(ifname: &str, k: u64, credit: &CbsCredit) -> (cmd: String)
    requires
        k <= 2,
    ensures
        cmd@ == cbs_command(ifname@, k, *credit),
{
    let mut out = String::new();
    out.append("tc qdisc replace dev ");
    out.append(ifname);
    out.append(" parent ");
    append_decimal(&mut out, ROOT_HANDLE as u128);
    out.append(":");
    append_decimal(&mut out, k as u128);
    out.append(" handle ");
    append_decimal(&mut out, (k * 1111) as u128);
    out.append(" cbs idleslope ");
    append_signed(&mut out, credit.idleslope as i128);
    out.append(" sendslope ");
    append_signed(&mut out, credit.sendslope as i128);
    out.append(" hicredit ");
    append_signed(&mut out, credit.hicredit as i128);
    out.append(" locredit ");
    append_signed(&mut out, credit.locredit as i128);
    out.append(" offload 1");
    assert(out@ =~= cbs_command(ifname@, k, *credit));
    out
}

/// The commands of a credit-based shaper, in order: the root qdisc, then the
/// child qdisc of class `a`, then that of class `b`.
pub open spec fn cbs_commands(ifname: Seq<char>, c: CbsConfig) -> Seq<Seq<char>> {
    seq![
        mqprio_command(ifname, c),
        cbs_command(ifname, 1, c.credit_a),
        cbs_command(ifname, 2, c.credit_b),
    ]
}

/// Writes the commands that install a credit-based shaper on an interface.
pub fn setup_cbs(ifname: &str, config: &CbsConfig) -> (cmds: Vec<String>)
    ensures
        texts(cmds@) == cbs_commands(ifname@, *config),
{
    let mut out = String::new();
    out.append("tc qdisc add dev ");
    out.append(ifname);
    out.append(" parent root handle ");
    append_decimal(&mut out, ROOT_HANDLE as u128);
    out.append(" mqprio num_tc ");
    append_signed(&mut out, config.num_tc as i128);
    out.append(" map");
    append_map(&mut out, &config.tc_map);
    out.append(" queues");
    append_queues(&mut out, &config.queues);
    out.append(" hw 0");
    assert(out@ =~= mqprio_command(ifname@, *config));
    let mut cmds: Vec<String> = Vec::new();
    cmds.push(out);
    cmds.push(cbs_child(ifname, 1, &config.credit_a));
    cmds.push(cbs_child(ifname, 2, &config.credit_b));
    assert(texts(cmds@) =~= cbs_commands(ifname@, *config));
    cmds
}

/// The egress map of a VLAN among those of an interface: that of the first
/// entry for the VLAN, from position `from` on.
pub open spec fn qos_for(maps: Seq<VlanQos>, vlanid: u16, from: int) -> Option<Seq<QosEntry>>
    decreases maps.len() - from,
{
    if from < 0 || from >= maps.len() {
        None
    } else if maps[from].vlan == vlanid {
        Some(maps[from].map@)
    } else {
        qos_for(maps, vlanid, from + 1)
    }
}

/// The commands that realise a configuration on an interface, in order:
/// create the VLAN sub-interface, bring it up, install the shaper.
pub open spec fn create_commands(c: Config, ifname: Seq<char>, vlanid: u16) -> Seq<Seq<char>> {
    let head = seq![
        link_add_command(ifname, vlanid, qos_for(c.egress_qos_map@, vlanid, 0)->0),
        link_up_command(ifname, vlanid),
    ];
    match (c.tas, c.cbs) {
        (Some(t), _) => head.push(tas_command(ifname, t)),
        (None, Some(s)) => head + cbs_commands(ifname, s),
        (None, None) => head,
    }
}

/// What planning the creation of a VLAN gives: `InvalidConfig` for a VLAN id
/// out of range or a configuration with both shapers, `ConfigMissing` where
/// the configuration has no egress map for the VLAN, else the commands.
pub open spec fn create_plan(c: Config, ifname: Seq<char>, vlanid: u16) -> Result<
    Seq<Seq<char>>,
    TsnError,
> {
    if !(VLAN_ID_MIN <= vlanid <= VLAN_ID_MAX) || (c.tas is Some && c.cbs is Some) {
        Err(TsnError::InvalidConfig)
    } else if qos_for(c.egress_qos_map@, vlanid, 0) is None {
        Err(TsnError::ConfigMissing)
    } else {
        Ok(create_commands(c, ifname, vlanid))
    }
}

fn find_qos<'a>(maps: &'a Vec<VlanQos>, vlanid: u16) -> (r: Option<&'a Vec<QosEntry>>)
    ensures
        match r {
            Some(m) => qos_for(maps@, vlanid, 0) == Some(m@),
            None => qos_for(maps@, vlanid, 0) is None,
        },
{
    let n: usize = maps.len();
    let mut i: usize = 0;
    while i < n
        invariant
            i <= n,
            n == maps@.len(),
            qos_for(maps@, vlanid, 0) == qos_for(maps@, vlanid, i as int),
        decreases n - i,
    {
        if maps[i].vlan == vlanid as i64 {
            return Some(&maps[i].map);
        }
        i = i + 1;
    }
    None
}

/// Plans the creation of a VLAN on an interface: the commands for the link
/// administrator, in the order in which they are to run.
pub fn create_vlan(config: &Config, ifname: &str, vlan_id: u16) -> (r: Result<
    Vec<String>,
    TsnError,
>)
    ensures
        match r {
            Ok(cmds) => create_plan(*config, ifname@, vlan_id) == Ok::<Seq<Seq<char>>, TsnError>(
                texts(cmds@),
            ),
            Err(e) => create_plan(*config, ifname@, vlan_id) == Err::<Seq<Seq<char>>, TsnError>(
                e,
            ),
        },
{
    if vlan_id < VLAN_ID_MIN || vlan_id > VLAN_ID_MAX {
        return Err(TsnError::InvalidConfig);
    }
    if config.tas.is_some() && config.cbs.is_some() {
        return Err(TsnError::InvalidConfig);
    }
    let map = match find_qos(&config.egress_qos_map, vlan_id) {
        Some(m) => m,
        None => {
            return Err(TsnError::ConfigMissing);
        },
    };
    let mut add = String::new();
    add.append("ip link add link ");
    add.append(ifname);
    add.append(" name ");
    append_vlan_name(&mut add, ifname, vlan_id);
    add.append(" type vlan id ");
    append_decimal(&mut add, vlan_id as u128);
    add.append(" egress-qos-map");
    append_qos(&mut add, map);
    assert(add@ =~= link_add_command(ifname@, vlan_id, map@));
    let mut up = String::new();
    up.append("ip link set up ");
    append_vlan_name(&mut up, ifname, vlan_id);
    assert(up@ =~= link_up_command(ifname@, vlan_id));
    let mut cmds: Vec<String> = Vec::new();
    cmds.push(add);
    cmds.push(up);
    let ghost head = texts(cmds@);
    assert(head =~= seq![
        link_add_command(ifname@, vlan_id, map@),
        link_up_command(ifname@, vlan_id),
    ]);
    match &config.tas {
        Some(t) => {
            cmds.push(setup_tas(ifname, t));
            assert(texts(cmds@) =~= head.push(tas_command(ifname@, *t)));
        },
        None => {
            match &config.cbs {
                Some(s) => {
                    let mut more = setup_cbs(ifname, s);
                    let ghost extra = texts(more@);
                    cmds.append(&mut more);
                    assert(texts(cmds@) =~= head + extra);
                },
                None => {},
            }
        },
    }
    Ok(cmds)
}

/// The commands that take a VLAN off an interface, in order: delete the
/// sub-interface, then the root qdisc.
pub open spec fn delete_commands(ifname: Seq<char>, vlanid: u16) -> Seq<Seq<char>> {
    seq![link_del_command(ifname, vlanid), qdisc_del_command(ifname)]
}

/// Plans the deletion of a VLAN from an interface.
pub fn delete_vlan(ifname: &str, vlanid: u16) -> (cmds: Vec<String>)
    ensures
        texts(cmds@) == delete_commands(ifname@, vlanid),
{
    let mut del = String::new();
    del.append("ip link del ");
    append_vlan_name(&mut del, ifname, vlanid);
    assert(del@ =~= link_del_command(ifname@, vlanid));
    let mut root = String::new();
    root.append("tc qdisc delete dev ");
    root.append(ifname);
    root.append(" root");
    assert(root@ =~= qdisc_del_command(ifname@));
    let mut cmds: Vec<String> = Vec::new();
    cmds.push(del);
    cmds.push(root);
    assert(texts(cmds@) =~= delete_commands(ifname@, vlanid));
    cmds
}

/// The name of a VLAN sub-interface holds no more of the interface's name
/// than its first ten characters, while the commands on the interface itself
/// name it in full.
pub proof fn lemma_name_is_cut(ifname: Seq<char>, vlanid: u16)
    ensures
        vlan_name(ifname, vlanid).len() <= NAME_PREFIX_LEN + 1 + decimal(vlanid as nat).len(),
        ifname.len() > NAME_PREFIX_LEN ==> vlan_name(ifname, vlanid) == ifname.take(
            NAME_PREFIX_LEN as int,
        ) + "."@ + decimal(vlanid as nat),
        ifname.len() <= NAME_PREFIX_LEN ==> vlan_name(ifname, vlanid) == ifname + "."@ + decimal(
            vlanid as nat,
        ),
        qdisc_del_command(ifname) == "tc qdisc delete dev "@ + ifname + " root"@,
{
    reveal_strlit(".");
}

/// The words of a command, from the word that starts at `start` and has
/// been read up to `i`: what stands between one white space and the next.
/// Two in a row hold an empty word between them.
pub open spec fn words_from(s: Seq<char>, start: int, i: int) -> Seq<Seq<char>>
    decreases s.len() - i,
{
    if i < 0 || i >= s.len() {
        seq![s.subrange(start, s.len() as int)]
    } else if is_space(s[i]) {
        seq![s.subrange(start, i)] + words_from(s, i + 1, i + 1)
    } else {
        words_from(s, start, i + 1)
    }
}

/// The words of a command.
pub open spec fn words_of(s: Seq<char>) -> Seq<Seq<char>> {
    words_from(s, 0, 0)
}

/// Splits a command into the program and its arguments, at every white
/// space.
pub fn command_words(cmd: &str) -> (out: Vec<String>)
    ensures
        texts(out@) == words_of(cmd@),
{
    let chars = to_chars(cmd);
    let n: usize = chars.len();
    let mut out: Vec<String> = Vec::new();
    let mut start: usize = 0;
    let mut i: usize = 0;
    assert(texts(out@) =~= Seq::<Seq<char>>::empty());
    while i < n
        invariant
            start <= i <= n,
            n == chars@.len(),
            chars@ == cmd@,
            texts(out@) + words_from(cmd@, start as int, i as int) == words_of(cmd@),
        decreases n - i,
    {
        if char_is_space(chars[i]) {
            let w = cmd.substring_char(start, i);
            let ghost before = texts(out@);
            let ghost rest = words_from(cmd@, i + 1, i + 1);
            out.push(String::from_str(w));
            proof {
                assert(texts(out@) =~= before.push(cmd@.subrange(start as int, i as int)));
                assert(texts(out@) + rest =~= before + (seq![
                    cmd@.subrange(start as int, i as int),
                ] + rest));
            }
            start = i + 1;
        }
        i = i + 1;
    }
    let w = cmd.substring_char(start, n);
    let ghost before = texts(out@);
    out.push(String::from_str(w));
    proof {
        assert(texts(out@) =~= before.push(cmd@.subrange(start as int, n as int)));
        assert(texts(out@) =~= before + seq![cmd@.subrange(start as int, n as int)]);
    }
    out
}

/// What follows one command of a plan.
#[derive(Clone, Copy, Debug, PartialEq, Eq, Structural)]
pub enum AdminNext {
    /// Run the command at this place of the plan.
    Run(usize),
    /// The plan is through.
    Done,
    /// The plan is given up; what has run is not undone.
    Fail(TsnError),
}

/// What follows the command at place `at` of a plan of `count` commands,
/// given whether the link administrator took it: the next command, or the
/// end of the plan, or `LinkAdminFailed` at the first command that is
/// rejected.
pub open spec fn after_command(at: usize, count: usize, ok: bool) -> AdminNext {
    if !ok {
        AdminNext::Fail(TsnError::LinkAdminFailed)
    } else if at + 1 < count {
        AdminNext::Run((at + 1) as usize)
    } else {
        AdminNext::Done
    }
}

/// Decides what follows one command of a plan.
pub fn run_cmd(at: usize, count: usize, ok: bool) -> (next: AdminNext)
    ensures
        next == after_command(at, count, ok),
{
    if !ok {
        AdminNext::Fail(TsnError::LinkAdminFailed)
    } else if at < count && at + 1 < count {
        AdminNext::Run(at + 1)
    } else {
        AdminNext::Done
    }
}

} // verus!
