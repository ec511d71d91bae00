use tsn::time::{
    elapsed_nanos, mean_oversleep, mean_read_cost, next_second, sleep_next, timespecff_diff,
    tsn_time_analyze, tsn_time_sleep_until, SleepErrors, SleepStep, Timespec,
};

fn at(sec: i64, nsec: i64) -> Timespec {
    Timespec { tv_sec: sec, tv_nsec: nsec }
}

const ERRORS: SleepErrors = SleepErrors { err_read: 40, err_sleep: 60_000 };

#[test]
fn precision_sleep() {
    let now: u64 = 1_700_000_000_250_000_000;
    // 750 ms ahead: sleep for what is left less the oversleep, then spin
    let target = now + 750_000_000;
    assert_eq!(
        tsn_time_sleep_until(now, target, &ERRORS),
        SleepStep::Sleep(750_000_000 - 60_000)
    );
    assert_eq!(sleep_next(target - 60_000, target, &ERRORS), SleepStep::Spin);
    assert_eq!(sleep_next(target - 40, target, &ERRORS), SleepStep::Spin);
    assert_eq!(sleep_next(target - 39, target, &ERRORS), SleepStep::Done);
    assert_eq!(sleep_next(target, target, &ERRORS), SleepStep::Done);
    assert_eq!(sleep_next(target + 1, target, &ERRORS), SleepStep::Done);
    // 1 ms in the past: return at once
    assert_eq!(tsn_time_sleep_until(now, now - 1_000_000, &ERRORS), SleepStep::Done);
    assert_eq!(tsn_time_sleep_until(now, now, &ERRORS), SleepStep::Done);
}

#[test]
fn a_sleep_never_passes_the_target() {
    for left in [1u64, 39, 40, 59_999, 60_000, 60_001, 1_000_000_000] {
        let now = 5_000_000_000u64;
        match tsn_time_sleep_until(now, now + left, &ERRORS) {
            SleepStep::Sleep(d) => {
                assert!(left > ERRORS.err_sleep);
                assert_eq!(now + d + ERRORS.err_sleep, now + left);
            }
            SleepStep::Spin => assert!(left >= ERRORS.err_read && left <= ERRORS.err_sleep),
            SleepStep::Done => assert!(left < ERRORS.err_read),
        }
    }
}

#[test]
fn calibration_takes_means() {
    assert_eq!(mean_read_cost(437), 43);
    assert_eq!(mean_read_cost(0), 0);
    assert_eq!(mean_oversleep(10_000_600_000, 1_000_000_000), 60_000);
    assert_eq!(mean_oversleep(9_999_999_999, 1_000_000_000), 0);
    assert_eq!(mean_oversleep(u64::MAX, u64::MAX), 0);
    assert_eq!(mean_oversleep(25, 2), 0);
    assert_eq!(mean_oversleep(57, 2), 3);
    assert_eq!(
        tsn_time_analyze(437, 10_000_600_009),
        SleepErrors { err_read: 43, err_sleep: 60_000 }
    );
    assert_eq!(tsn_time_analyze(9, 5), SleepErrors { err_read: 0, err_sleep: 0 });
}

#[test]
fn the_next_second() {
    assert_eq!(next_second(0), Some(1_000_000_000));
    assert_eq!(next_second(999_999_999), Some(1_000_000_000));
    assert_eq!(next_second(1_000_000_000), Some(2_000_000_000));
    assert_eq!(next_second(1_700_000_000_123_456_789), Some(1_700_000_001_000_000_000));
    assert_eq!(next_second(18_446_744_072_999_999_999), Some(18_446_744_073_000_000_000));
    assert_eq!(next_second(18_446_744_073_000_000_000), None);
    assert_eq!(next_second(u64::MAX), None);
}

#[test]
fn elapsed_time_is_later_less_earlier() {
    assert_eq!(elapsed_nanos(&at(1, 0), &at(1, 1)), 1);
    assert_eq!(elapsed_nanos(&at(1, 999_999_999), &at(2, 0)), 1);
    assert_eq!(elapsed_nanos(&at(2, 0), &at(1, 999_999_999)), -1);
    assert_eq!(
        elapsed_nanos(&at(i64::MIN, 0), &at(i64::MAX, 999_999_999)),
        (i64::MAX as i128 - i64::MIN as i128) * 1_000_000_000 + 999_999_999
    );
    assert_eq!(at(3, 5).total_nanos(), 3_000_000_005);
    assert_eq!(at(-1, 5).total_nanos(), -999_999_995);
    assert!(Timespec::zero().is_zero());
    assert!(!at(0, 1).is_zero());
    assert!(at(-7, 999_999_999).is_wf());
    assert!(!at(0, 1_000_000_000).is_wf());
    assert!(!at(0, -1).is_wf());
}

#[test]
fn differences_are_normalised() {
    let mut r = at(77, 77);
    assert!(timespecff_diff(&at(10, 900_000_000), &at(12, 100_000_000), &mut r));
    assert_eq!(r, at(1, 200_000_000));
    assert!(timespecff_diff(&at(10, 100_000_000), &at(12, 900_000_000), &mut r));
    assert_eq!(r, at(2, 800_000_000));
    // the start lies after the stop: the span is negative
    assert!(timespecff_diff(&at(12, 100_000_000), &at(10, 900_000_000), &mut r));
    assert_eq!(r, at(-2, 800_000_000));
    assert_eq!(r.total_nanos(), -1_200_000_000);
    assert!(timespecff_diff(&at(5, 5), &at(5, 5), &mut r));
    assert_eq!(r, at(0, 0));
}

#[test]
fn differences_that_cannot_be_held() {
    let mut r = at(77, 77);
    assert!(!timespecff_diff(&at(0, 1_000_000_000), &at(1, 0), &mut r));
    assert!(!timespecff_diff(&at(0, 0), &at(1, -1), &mut r));
    assert!(!timespecff_diff(&at(i64::MIN, 0), &at(0, 0), &mut r));
    assert!(!timespecff_diff(&at(1, 1), &at(i64::MIN, 0), &mut r));
    assert_eq!(r, at(77, 77));
    assert!(timespecff_diff(&at(i64::MIN, 0), &at(-1, 0), &mut r));
    assert_eq!(r, at(i64::MAX, 0));
}
