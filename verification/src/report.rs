use crate::latency::Record;
use crate::latency::SyncReport;
use crate::text::append_decimal;
use crate::text::append_padded;
use crate::text::append_signed;
use crate::text::decimal;
use crate::text::signed_decimal;
use crate::text::zero_padded;
use crate::throughput::Summary;
use crate::time::Timespec;
use vstd::prelude::*;
use vstd::string::*;

verus! {

/// The whole seconds of a time in nanoseconds, rounded down.
pub open spec fn whole_seconds(nanos: int) -> int {
    if nanos >= 0 {
        nanos / 1_000_000_000
    } else {
        -((-nanos - 1) / 1_000_000_000) - 1
    }
}

/// A time as seconds, a point, and nine digits of nanoseconds.
pub open spec fn stamp_text(t: Timespec) -> Seq<char> {
    signed_decimal(whole_seconds(t.nanos())) + "."@ + zero_padded(
        (t.nanos() - whole_seconds(t.nanos()) * 1_000_000_000) as nat,
        9,
    )
}

/// The line of one one-way measurement: the probe's id, when it left, when
/// it arrived, and the nanoseconds between.
pub open spec fn sync_text(r: SyncReport) -> Seq<char> {
    decimal(r.id as nat) + ": "@ + stamp_text(r.tx) + " -> "@ + stamp_text(r.rx) + " = "@
        + signed_decimal(r.elapsed_ns as int) + " ns"@
}

fn append_stamp(out: &mut String, t: &Timespec)
    ensures
        final(out)@ == old(out)@ + stamp_text(*t),
{
    let total: i128 = t.total_nanos();
    let secs: i128 = if total >= 0 {
        total / 1_000_000_000
    } else {
        -((-total - 1) / 1_000_000_000) - 1
    };
    let sub: i128 = total - secs * 1_000_000_000;
    append_signed(out, secs);
    out.append(".");
    append_padded(out, sub as u128, 9);
    assert(out@ =~= old(out)@ + stamp_text(*t));
}

/// Writes the line of one one-way measurement.
pub fn sync_line(r: &SyncReport) -> (line: String)
    ensures
        line@ == sync_text(*r),
{
    let mut out = String::new();
    append_decimal(&mut out, r.id as u128);
    out.append(": ");
    append_stamp(&mut out, &r.tx);
    out.append(" -> ");
    append_stamp(&mut out, &r.rx);
    out.append(" = ");
    append_signed(&mut out, r.elapsed_ns);
    out.append(" ns");
    assert(out@ =~= sync_text(*r));
    out
}

/// The line of one round-trip probe: its id and the time the round trip
/// took in seconds, or that it was lost.
pub open spec fn record_text(r: Record) -> Seq<char> {
    match r {
        Record::Rtt { id, elapsed_ns } => decimal(id as nat) + ": "@ + elapsed_text(
            elapsed_ns as int,
        ) + " s"@,
        Record::Loss { id } => decimal(id as nat) + ": lost"@,
    }
}

/// A span of nanoseconds as seconds, a point, and nine digits, after a minus
/// sign where it is negative.
pub open spec fn elapsed_text(nanos: int) -> Seq<char> {
    let size = if nanos < 0 {
        -nanos
    } else {
        nanos
    };
    let sign = if nanos < 0 {
        "-"@
    } else {
        Seq::<char>::empty()
    };
    sign + decimal((size / 1_000_000_000) as nat) + "."@ + zero_padded(
        (size % 1_000_000_000) as nat,
        9,
    )
}

/// Writes the line of one round-trip probe.
pub fn record_line(r: &Record) -> (line: String)
    ensures
        line@ == record_text(*r),
{
    let mut out = String::new();
    match r {
        Record::Rtt { id, elapsed_ns } => {
            append_decimal(&mut out, *id as u128);
            out.append(": ");
            let size: u128 = if *elapsed_ns < 0 {
                out.append("-");
                (-(*elapsed_ns + 1)) as u128 + 1
            } else {
                *elapsed_ns as u128
            };
            append_decimal(&mut out, size / 1_000_000_000);
            out.append(".");
            append_padded(&mut out, size % 1_000_000_000, 9);
            out.append(" s");
        },
        Record::Loss { id } => {
            append_decimal(&mut out, *id as u128);
            out.append(": lost");
        },
    }
    assert(out@ =~= record_text(*r));
    out
}

/// The summary of a throughput session: packets, octets, and bits per
/// second; a session of no length has no rate and says `-` for it.
pub open spec fn summary_text(s: Summary) -> Seq<char> {
    decimal(s.pkt_count as nat) + " packets, "@ + decimal(s.total_bytes as nat) + " bytes "@
        + match s.bps {
        Some(v) => decimal(v as nat),
        None => "-"@,
    } + " bps"@
}

/// Writes the summary of a throughput session.
pub fn summary_line(s: &Summary) -> (line: String)
    ensures
        line@ == summary_text(*s),
{
    let mut out = String::new();
    append_decimal(&mut out, s.pkt_count as u128);
    out.append(" packets, ");
    append_decimal(&mut out, s.total_bytes as u128);
    out.append(" bytes ");
    match s.bps {
        Some(v) => {
            append_decimal(&mut out, v);
        },
        None => {
            out.append("-");
        },
    }
    out.append(" bps");
    assert(out@ =~= summary_text(*s));
    out
}

} // verus!
