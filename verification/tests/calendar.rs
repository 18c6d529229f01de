use chrono::{DateTime, Datelike, NaiveDate, TimeDelta, TimeZone};
use pomodoro::clock::{DAY_MAX, DAY_MIN};
use pomodoro::commands::week_labels;
use pomodoro::models::Session;
use pomodoro::notify::done_body;
use pomodoro::recovery::{recover_running_session, Recovery};
use pomodoro::store::running_session;
use pomodoro::timer::{make_timer, poll, remaining_sec, Stamp, Tick};

fn chrono_weekday(d: i32) -> u32 {
    NaiveDate::from_num_days_from_ce_opt(d).unwrap().weekday().num_days_from_monday()
}

#[test]
fn calendar_range_matches_chrono() {
    assert_eq!(NaiveDate::MIN.num_days_from_ce(), DAY_MIN);
    assert_eq!(NaiveDate::MAX.num_days_from_ce(), DAY_MAX);
    assert!(NaiveDate::from_num_days_from_ce_opt(DAY_MIN - 1).is_none());
    assert!(NaiveDate::from_num_days_from_ce_opt(DAY_MAX + 1).is_none());
    assert!(week_labels(DAY_MAX).is_some());
    assert_eq!(week_labels(DAY_MAX + 1), None);
}

#[test]
fn weekday_counts_from_monday_day_one() {
    for d in [DAY_MIN + 6, -1, 0, 1, 2, 7, 8, 739_865, DAY_MAX - 1, DAY_MAX] {
        let expected = (d - 1).rem_euclid(7);
        assert_eq!(chrono_weekday(d) as i32, expected, "day {d}");
        assert_eq!(week_labels(d).unwrap().len() as i32, expected + 1, "day {d}");
    }
}

#[test]
fn iso_date_labels() {
    assert_eq!(week_labels(1).unwrap(), vec!["0001-01-01"]);
    assert_eq!(week_labels(3).unwrap(), vec!["0001-01-01", "0001-01-02", "0001-01-03"]);
    let last = week_labels(DAY_MAX).unwrap();
    assert_eq!(last.last().unwrap(), &NaiveDate::MAX.format("%Y-%m-%d").to_string());
    // the first Monday that chrono can hold
    let first_monday = (DAY_MIN..DAY_MIN + 7).find(|d| chrono_weekday(*d) == 0).unwrap();
    let first = week_labels(first_monday).unwrap();
    assert_eq!(first, vec![NaiveDate::from_num_days_from_ce_opt(first_monday).unwrap().format("%Y-%m-%d").to_string()]);
    assert_eq!(week_labels(first_monday - 1), None);
}

fn stamp<Tz: TimeZone>(t: &DateTime<Tz>) -> Stamp {
    Stamp { secs: t.timestamp(), nanos: t.timestamp_subsec_nanos() }
}

fn epoch(secs: i64) -> Stamp {
    Stamp { secs, nanos: 0 }
}

fn start_of(text: &str, now: Stamp) -> Stamp {
    let s: Session = running_session(1, "", 60, text);
    match recover_running_session(Some(&s), now) {
        Recovery::Resume(t) => t.started_at,
        other => panic!("unexpected {:?}", other),
    }
}

#[test]
fn rfc3339_start_times() {
    let zero = epoch(0);
    assert_eq!(start_of("1970-01-01T00:00:01+00:00", zero), epoch(1));
    assert_eq!(start_of("1970-01-01T08:00:00.5+08:00", zero), Stamp { secs: 0, nanos: 500_000_000 });
    assert_eq!(start_of("yesterday", zero), zero);
    assert_eq!(start_of("1969-12-31T23:59:59.25Z", epoch(-5)), Stamp { secs: -1, nanos: 250_000_000 });
    // a leap second stays in the nanoseconds of the second before it
    assert_eq!(start_of("2016-12-31T23:59:60Z", zero), Stamp { secs: 1_483_228_799, nanos: 1_000_000_000 });
    assert_eq!(start_of("9999-12-31T23:59:59-23:59", zero), epoch(253_402_387_139));
    assert_eq!(start_of("3000-01-01T00:00:00Z", zero), epoch(32_503_680_000));
    let s = running_session(2, "", 60, "1970-01-01T00:00:00Z");
    assert_eq!(recover_running_session(Some(&s), epoch(60)), Recovery::Complete { session_id: 2, planned_sec: 60 });
    assert_eq!(
        recover_running_session(Some(&s), Stamp { secs: 59, nanos: 999_999_999 }),
        Recovery::Resume(make_timer(2, 60, zero))
    );
}

#[test]
fn leap_second_start_completes_when_chrono_says() {
    // a 60 s session started in a leap second ends at 00:00:59, not 00:01:00
    let s = running_session(3, "", 60, "2016-12-31T23:59:60Z");
    let end = DateTime::parse_from_rfc3339("2017-01-01T00:00:59Z").unwrap();
    assert_eq!(recover_running_session(Some(&s), stamp(&end)), Recovery::Complete { session_id: 3, planned_sec: 60 });
    let before = DateTime::parse_from_rfc3339("2017-01-01T00:00:58.999Z").unwrap();
    assert!(matches!(recover_running_session(Some(&s), stamp(&before)), Recovery::Resume(_)));
}

#[test]
fn countdown_matches_chrono_around_leap_seconds() {
    let starts = ["2016-12-31T23:59:60Z", "2016-12-31T23:59:60.75Z", "2015-06-30T23:59:59.5Z", "2026-09-06T10:00:00Z"];
    let plans: [i64; 6] = [0, 1, 60, 86_400, -1, -90_000];
    for text in starts {
        let start = DateTime::parse_from_rfc3339(text).unwrap();
        for plan in plans {
            let t = make_timer(1, plan, stamp(&start));
            let deadline = start + TimeDelta::seconds(plan);
            assert_eq!(t.deadline, stamp(&deadline), "{text} {plan}");
            for offset_ms in [-90_000_000i64, -86_400_500, -2_000, -1_000, -250, 0, 250, 999, 1_000, 1_500, 2_000, 61_000, 86_400_250] {
                let now = start + TimeDelta::milliseconds(offset_ms);
                let expected = (deadline - now).num_seconds().max(0);
                assert_eq!(remaining_sec(&t, stamp(&now)), expected, "{text} {plan} {offset_ms}");
                let finished = now >= deadline;
                assert_eq!(poll(&t, stamp(&now)) == Tick::Finished, finished, "{text} {plan} {offset_ms}");
            }
        }
    }
}

#[test]
fn minutes_written_in_plain_decimal() {
    assert_eq!(done_body("", 0), "专注 0 分钟，备注 0 字");
    assert_eq!(done_body("", -420), "专注 -7 分钟，备注 0 字");
    assert_eq!(done_body("", 74_073_420), "专注 1234557 分钟，备注 0 字");
    assert_eq!(done_body("", i64::MIN), "专注 -153722867280912930 分钟，备注 0 字");
    assert_eq!(done_body("", i64::MAX), "专注 153722867280912930 分钟，备注 0 字");
}
