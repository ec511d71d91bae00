use crate::cbs::CbsChild;
use crate::cbs::CbsConfig;
use crate::cbs::CbsCredit;
use crate::config::Config;
use crate::tas::TasConfig;
use crate::tas::TasSchedule;
use crate::text::append_signed;
use crate::text::signed_decimal;
use crate::text::texts;
use vstd::prelude::*;
use vstd::string::*;

verus! {

/// Whole numbers, with a comma and a blank between one and the next.
pub open spec fn joined(values: Seq<i64>) -> Seq<char>
    decreases values.len(),
{
    if values.len() == 0 {
        Seq::empty()
    } else if values.len() == 1 {
        signed_decimal(values[0] as int)
    } else {
        joined(values.drop_last()) + ", "@ + signed_decimal(values.last() as int)
    }
}

/// The line that says the credits of a class.
pub open spec fn credit_line(k: CbsCredit) -> Seq<char> {
    "      credits: {hicredit: "@ + signed_decimal(k.hicredit as int) + ", idleslope: "@
        + signed_decimal(k.idleslope as int) + ", locredit: "@ + signed_decimal(
        k.locredit as int,
    ) + ", sendslope: "@ + signed_decimal(k.sendslope as int) + "}"@
}

/// The line that says one stream.
pub open spec fn stream_line(c: CbsChild, class: Seq<char>) -> Seq<char> {
    "        "@ + signed_decimal(c.prio as int) + ": {bandwidth: "@ + signed_decimal(
        c.bandwidth as int,
    ) + ", class: "@ + class + ", max_frame: "@ + signed_decimal(c.max_frame as int) + "}"@
}

/// The lines of the streams of a class, in order.
pub open spec fn stream_lines(streams: Seq<CbsChild>, class: char, name: Seq<char>) -> Seq<
    Seq<char>,
>
    decreases streams.len(),
{
    if streams.len() == 0 {
        Seq::empty()
    } else if streams.last().class == class {
        stream_lines(streams.drop_last(), class, name).push(stream_line(streams.last(), name))
    } else {
        stream_lines(streams.drop_last(), class, name)
    }
}

/// The lines of a class: its name, its credits, its streams.
pub open spec fn class_lines(
    streams: Seq<CbsChild>,
    class: char,
    name: Seq<char>,
    credit: CbsCredit,
) -> Seq<Seq<char>> {
    seq!["    "@ + name + ":"@, credit_line(credit), "      prios:"@] + stream_lines(
        streams,
        class,
        name,
    )
}

/// The lines of a credit-based shaper: class `a`, then class `b`.
pub open spec fn cbs_lines(c: CbsConfig) -> Seq<Seq<char>> {
    seq!["  cbs:"@] + class_lines(c.streams@, 'a', "a"@, c.credit_a) + class_lines(
        c.streams@,
        'b',
        "b"@,
        c.credit_b,
    )
}

/// The two lines of a schedule entry: its priorities and its time.
pub open spec fn entry_lines(e: TasSchedule) -> Seq<Seq<char>> {
    seq![
        "      - prio: ["@ + joined(e.prio@) + "]"@,
        "        time: "@ + signed_decimal(e.time as int),
    ]
}

/// The lines of a schedule, in order.
pub open spec fn schedule_lines(schedule: Seq<TasSchedule>) -> Seq<Seq<char>>
    decreases schedule.len(),
{
    if schedule.len() == 0 {
        Seq::empty()
    } else {
        schedule_lines(schedule.drop_last()) + entry_lines(schedule.last())
    }
}

/// The lines of a time-aware shaper.
pub open spec fn tas_lines(t: TasConfig) -> Seq<Seq<char>> {
    seq![
        "  tas:"@,
        "    base_time: "@ + signed_decimal(t.base_time as int),
        "    schedule:"@,
    ] + schedule_lines(t.schedule@) + seq![
        "    txtime_delay: "@ + signed_decimal(t.txtime_delay as int),
    ]
}

/// The lines that describe the shapers of a configuration: the credit-based
/// one first.
pub open spec fn info_lines(c: Config) -> Seq<Seq<char>> {
    (match c.cbs {
        Some(s) => cbs_lines(s),
        None => Seq::empty(),
    }) + (match c.tas {
        Some(t) => tas_lines(t),
        None => Seq::empty(),
    })
}

fn append_joined(out: &mut String, values: &Vec<i64>)
    ensures
        final(out)@ == old(out)@ + joined(values@),
{
    let n: usize = values.len();
    let mut i: usize = 0;
    assert(out@ =~= old(out)@ + joined(values@.take(0)));
    while i < n
        invariant
            i <= n,
            n == values@.len(),
            out@ == old(out)@ + joined(values@.take(i as int)),
        decreases n - i,
    {
        assert(values@.take(i + 1).drop_last() =~= values@.take(i as int));
        if i > 0 {
            out.append(", ");
        }
        append_signed(out, values[i] as i128);
        i = i + 1;
        assert(out@ =~= old(out)@ + joined(values@.take(i as int)));
    }
    assert(values@.take(n as int) =~= values@);
}

fn write_credit(k: &CbsCredit) -> (line: String)
    ensures
        line@ == credit_line(*k),
{
    let mut out = String::new();
    out.append("      credits: {hicredit: ");
    append_signed(&mut out, k.hicredit as i128);
    out.append(", idleslope: ");
    append_signed(&mut out, k.idleslope as i128);
    out.append(", locredit: ");
    append_signed(&mut out, k.locredit as i128);
    out.append(", sendslope: ");
    append_signed(&mut out, k.sendslope as i128);
    out.append("}");
    assert(out@ =~= credit_line(*k));
    out
}

fn write_stream(c: &CbsChild, name: &str) -> (line: String)
    ensures
        line@ == stream_line(*c, name@),
{
    let mut out = String::new();
    out.append("        ");
    append_signed(&mut out, c.prio as i128);
    out.append(": {bandwidth: ");
    append_signed(&mut out, c.bandwidth as i128);
    out.append(", class: ");
    out.append(name);
    out.append(", max_frame: ");
    append_signed(&mut out, c.max_frame as i128);
    out.append("}");
    assert(out@ =~= stream_line(*c, name@));
    out
}

fn push_class(
    out: &mut Vec<String>,
    streams: &Vec<CbsChild>,
    class: char,
    name: &str,
    credit: &CbsCredit,
)
    ensures
        texts(final(out)@) == texts(old(out)@) + class_lines(streams@, class, name@, *credit),
{
    let ghost before = texts(out@);
    let mut head = String::new();
    head.append("    ");
    head.append(name);
    head.append(":");
    assert(head@ =~= "    "@ + name@ + ":"@);
    out.push(head);
    out.push(write_credit(credit));
    out.push(String::from_str("      prios:"));
    let ghost first = seq!["    "@ + name@ + ":"@, credit_line(*credit), "      prios:"@];
    assert(texts(out@) =~= before + first);
    let n: usize = streams.len();
    let mut i: usize = 0;
    assert(stream_lines(streams@.take(0), class, name@) =~= Seq::<Seq<char>>::empty());
    while i < n
        invariant
            i <= n,
            n == streams@.len(),
            texts(out@) == before + first + stream_lines(streams@.take(i as int), class, name@),
        decreases n - i,
    {
        assert(streams@.take(i + 1).drop_last() =~= streams@.take(i as int));
        if streams[i].class == class {
            let ghost prev = texts(out@);
            let line = write_stream(&streams[i], name);
            let ghost lv = line@;
            out.push(line);
            assert(texts(out@) =~= prev.push(lv));
        }
        i = i + 1;
        assert(texts(out@) =~= before + first + stream_lines(
            streams@.take(i as int),
            class,
            name@,
        ));
    }
    assert(streams@.take(n as int) =~= streams@);
    assert(texts(out@) =~= before + class_lines(streams@, class, name@, *credit));
}

fn push_tas(out: &mut Vec<String>, t: &TasConfig)
    ensures
        texts(final(out)@) == texts(old(out)@) + tas_lines(*t),
{
    let ghost before = texts(out@);
    out.push(String::from_str("  tas:"));
    let mut base = String::new();
    base.append("    base_time: ");
    append_signed(&mut base, t.base_time as i128);
    assert(base@ =~= "    base_time: "@ + signed_decimal(t.base_time as int));
    out.push(base);
    out.push(String::from_str("    schedule:"));
    let ghost first = seq![
        "  tas:"@,
        "    base_time: "@ + signed_decimal(t.base_time as int),
        "    schedule:"@,
    ];
    assert(texts(out@) =~= before + first);
    let n: usize = t.schedule.len();
    let mut i: usize = 0;
    assert(schedule_lines(t.schedule@.take(0)) =~= Seq::<Seq<char>>::empty());
    while i < n
        invariant
            i <= n,
            n == t.schedule@.len(),
            texts(out@) == before + first + schedule_lines(t.schedule@.take(i as int)),
        decreases n - i,
    {
        assert(t.schedule@.take(i + 1).drop_last() =~= t.schedule@.take(i as int));
        let e = &t.schedule[i];
        let mut prio = String::new();
        prio.append("      - prio: [");
        append_joined(&mut prio, &e.prio);
        prio.append("]");
        assert(prio@ =~= "      - prio: ["@ + joined(e.prio@) + "]"@);
        let mut time = String::new();
        time.append("        time: ");
        append_signed(&mut time, e.time as i128);
        assert(time@ =~= "        time: "@ + signed_decimal(e.time as int));
        let ghost prev = texts(out@);
        let ghost pv = prio@;
        let ghost tv = time@;
        out.push(prio);
        out.push(time);
        assert(texts(out@) =~= prev + seq![pv, tv]);
        i = i + 1;
        assert(texts(out@) =~= before + first + schedule_lines(t.schedule@.take(i as int)));
    }
    assert(t.schedule@.take(n as int) =~= t.schedule@);
    let mut delay = String::new();
    delay.append("    txtime_delay: ");
    append_signed(&mut delay, t.txtime_delay as i128);
    assert(delay@ =~= "    txtime_delay: "@ + signed_decimal(t.txtime_delay as int));
    let ghost prev = texts(out@);
    let ghost dv = delay@;
    out.push(delay);
    assert(texts(out@) =~= prev.push(dv));
    assert(texts(out@) =~= before + tas_lines(*t));
}

/// Describes the shapers of a configuration, one line after the other.
pub fn get_info(config: &Config) -> (lines: Vec<String>)
    ensures
        texts(lines@) == info_lines(*config),
{
    let mut out: Vec<String> = Vec::new();
    assert(texts(out@) =~= Seq::<Seq<char>>::empty());
    match &config.cbs {
        Some(s) => {
            out.push(String::from_str("  cbs:"));
            assert(texts(out@) =~= seq!["  cbs:"@]);
            push_class(&mut out, &s.streams, 'a', "a", &s.credit_a);
            push_class(&mut out, &s.streams, 'b', "b", &s.credit_b);
            assert(texts(out@) =~= cbs_lines(*s));
        },
        None => {},
    }
    match &config.tas {
        Some(t) => {
            push_tas(&mut out, t);
        },
        None => {},
    }
    assert(texts(out@) =~= info_lines(*config));
    out
}

} // verus!
