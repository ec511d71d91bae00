use vstd::prelude::*;

verus! {

/// Nanoseconds in a second.
pub const NANOS_PER_SEC: i64 = 1_000_000_000;

/// A point in time, or a span of it, as seconds and nanoseconds.
#[derive(Clone, Copy, Debug, PartialEq, Eq, Structural)]
pub struct Timespec {
    pub tv_sec: i64,
    pub tv_nsec: i64,
}

impl Timespec {
    /// The nanosecond part lies within one second.
    pub open spec fn wf(self) -> bool {
        0 <= self.tv_nsec < NANOS_PER_SEC
    }

    /// The value in nanoseconds.
    pub open spec fn nanos(self) -> int {
        self.tv_sec * NANOS_PER_SEC + self.tv_nsec
    }

    /// The value that is zero seconds and zero nanoseconds.
    pub fn zero() -> (t: Timespec)
        ensures
            t.tv_sec == 0,
            t.tv_nsec == 0,
    {
        Timespec { tv_sec: 0, tv_nsec: 0 }
    }

    /// Tells whether both parts are zero.
    pub fn is_zero(&self) -> (b: bool)
        ensures
            b == (self.tv_sec == 0 && self.tv_nsec == 0),
    {
        self.tv_sec == 0 && self.tv_nsec == 0
    }

    /// Tells whether the nanosecond part lies within one second.
    pub fn is_wf(&self) -> (b: bool)
        ensures
            b == self.wf(),
    {
        0 <= self.tv_nsec && self.tv_nsec < NANOS_PER_SEC
    }

    /// The value in nanoseconds.
    pub fn total_nanos(&self) -> (n: i128)
        ensures
            n == self.nanos(),
    {
        let s: i128 = self.tv_sec as i128;
        let b: i128 = NANOS_PER_SEC as i128;
        assert(-0x8000_0000_0000_0000 * 1_000_000_000 <= s * b <= 0x8000_0000_0000_0000
            * 1_000_000_000) by (nonlinear_arith)
            requires
                -0x8000_0000_0000_0000 <= s < 0x8000_0000_0000_0000,
                b == 1_000_000_000,
        ;
        s * b + self.tv_nsec as i128
    }
}

/// Nanoseconds from `earlier` to `later`; negative when `later` lies before.
pub fn elapsed_nanos(earlier: &Timespec, later: &Timespec) -> (n: i128)
    ensures
        n == later.nanos() - earlier.nanos(),
{
    later.total_nanos() - earlier.total_nanos()
}

/// Whether the span from `start` to `stop` can be held in a `Timespec`.
pub open spec fn diff_fits(start: Timespec, stop: Timespec) -> bool {
    let borrow: int = if stop.tv_nsec < start.tv_nsec {
        1
    } else {
        0
    };
    &&& start.wf()
    &&& stop.wf()
    &&& i64::MIN <= stop.tv_sec - start.tv_sec - borrow <= i64::MAX
}

/// Stores in `result` the span from `start` to `stop`, with its nanosecond part
/// within one second, and returns `true`. Where an argument's nanosecond part
/// is out of range, or the span's seconds do not fit, `result` is left as it
/// was and `false` is returned.
pub fn timespecff_diff(start: &Timespec, stop: &Timespec, result: &mut Timespec) -> (ok: bool)
    ensures
        ok == diff_fits(*start, *stop),
        ok ==> final(result).wf() && final(result).nanos() == stop.nanos() - start.nanos(),
        !ok ==> *final(result) == *old(result),
{
    if !start.is_wf() || !stop.is_wf() {
        return false;
    }
    let mut sec: i128 = stop.tv_sec as i128 - start.tv_sec as i128;
    let mut nsec: i64 = stop.tv_nsec - start.tv_nsec;
    if nsec < 0 {
        sec = sec - 1;
        nsec = nsec + NANOS_PER_SEC;
    }
    if sec < i64::MIN as i128 || sec > i64::MAX as i128 {
        return false;
    }
    *result = Timespec { tv_sec: sec as i64, tv_nsec: nsec };
    true
}

/// The two errors that calibration measures, in nanoseconds.
#[derive(Clone, Copy, Debug, PartialEq, Eq, Structural)]
pub struct SleepErrors {
    /// Mean cost of one clock read.
    pub err_read: u64,
    /// Mean oversleep of one sleep.
    pub err_sleep: u64,
}

/// Number of samples that calibration averages over.
pub const CALIBRATION_COUNT: u64 = 10;

/// Mean cost of one clock read, from the time `CALIBRATION_COUNT` back-to-back
/// reads took.
pub fn mean_read_cost(total_nanos: u64) -> (mean: u64)
    ensures
        mean == total_nanos / CALIBRATION_COUNT,
{
    total_nanos / CALIBRATION_COUNT
}

/// Mean oversleep of one sleep, from the time that `CALIBRATION_COUNT` sleeps of
/// `requested_nanos` each took together. Sleeps that ended early count as
/// exact.
pub open spec fn oversleep_of(total_nanos: u64, requested_nanos: u64) -> u64 {
    if total_nanos >= requested_nanos * CALIBRATION_COUNT {
        ((total_nanos - requested_nanos * CALIBRATION_COUNT) / (CALIBRATION_COUNT as int)) as u64
    } else {
        0
    }
}

/// Works out the mean oversleep of one sleep.
pub fn mean_oversleep(total_nanos: u64, requested_nanos: u64) -> (mean: u64)
    ensures
        mean == oversleep_of(total_nanos, requested_nanos),
{
    let asked: u128 = requested_nanos as u128 * CALIBRATION_COUNT as u128;
    if total_nanos as u128 >= asked {
        ((total_nanos as u128 - asked) / CALIBRATION_COUNT as u128) as u64
    } else {
        0
    }
}

/// What a sleeper does next.
#[derive(Clone, Copy, Debug, PartialEq, Eq, Structural)]
pub enum SleepStep {
    /// The target is reached: return.
    Done,
    /// Sleep for this many nanoseconds, then read the clock again.
    Sleep(u64),
    /// Read the clock again at once.
    Spin,
}

/// The first step of sleeping until `target`, decided from the clock reading
/// `now` (both in nanoseconds since the epoch).
pub open spec fn first_step(now: u64, target: u64, errors: SleepErrors) -> SleepStep {
    if now >= target {
        SleepStep::Done
    } else if target - now > errors.err_sleep {
        SleepStep::Sleep((target - now - errors.err_sleep) as u64)
    } else if target - now < errors.err_read {
        SleepStep::Done
    } else {
        SleepStep::Spin
    }
}

/// A later step, decided from a clock reading taken after the first step.
pub open spec fn later_step(now: u64, target: u64, errors: SleepErrors) -> SleepStep {
    if now >= target || target - now < errors.err_read {
        SleepStep::Done
    } else {
        SleepStep::Spin
    }
}

/// Decides the first step of sleeping until `target`. A target that is not in
/// the future ends the sleep at once; a sleep is only ordered where the time
/// left exceeds the calibrated oversleep, and is shortened by it.
pub fn tsn_time_sleep_until(now: u64, target: u64, errors: &SleepErrors) -> (step: SleepStep)
    ensures
        step == first_step(now, target, *errors),
{
    if now >= target {
        SleepStep::Done
    } else if target - now > errors.err_sleep {
        SleepStep::Sleep(target - now - errors.err_sleep)
    } else if target - now < errors.err_read {
        SleepStep::Done
    } else {
        SleepStep::Spin
    }
}

/// Decides whether to read the clock once more or to return.
pub fn sleep_next(now: u64, target: u64, errors: &SleepErrors) -> (step: SleepStep)
    ensures
        step == later_step(now, target, *errors),
{
    if now >= target || target - now < errors.err_read {
        SleepStep::Done
    } else {
        SleepStep::Spin
    }
}

/// A sleep that is ordered never ends after the target, even when it oversleeps
/// by the calibrated error: the time slept plus that error is the time left.
pub proof fn lemma_sleep_never_passes_target(now: u64, target: u64, errors: SleepErrors)
    ensures
        first_step(now, target, errors) matches SleepStep::Sleep(d) ==> d > 0 && now + d
            + errors.err_sleep == target,
        now >= target ==> first_step(now, target, errors) == SleepStep::Done,
        later_step(now, target, errors) != SleepStep::Done ==> now < target,
{
}

/// Calibrates the two errors from measurements taken by the caller: the time
/// that `CALIBRATION_COUNT` back-to-back clock reads took, and the time that as many
/// sleeps of one second each took together.
pub fn tsn_time_analyze(reads_nanos: u64, sleeps_nanos: u64) -> (errors: SleepErrors)
    ensures
        errors.err_read == reads_nanos / CALIBRATION_COUNT,
        errors.err_sleep == oversleep_of(sleeps_nanos, NANOS_PER_SEC as u64),
{
    SleepErrors {
        err_read: mean_read_cost(reads_nanos),
        err_sleep: mean_oversleep(sleeps_nanos, NANOS_PER_SEC as u64),
    }
}

/// The next whole second after `now`, in nanoseconds since the epoch; none
/// where the clock's range ends before it.
pub fn next_second(now: u64) -> (t: Option<u64>)
    ensures
        t == if (now / 1_000_000_000 + 1) * 1_000_000_000 <= u64::MAX {
            Some(((now / 1_000_000_000 + 1) * 1_000_000_000) as u64)
        } else {
            None
        },
{
    let secs: u64 = now / 1_000_000_000 + 1;
    secs.checked_mul(1_000_000_000)
}

} // verus!
