use chrono::{DateTime, Local, TimeZone};
use pomodoro::commands::build_done_payload;
use pomodoro::models::{Session, Unit};
use pomodoro::notify::truncate;
use pomodoro::outcome_label;
use pomodoro::settings::Settings;
use pomodoro::store::OpenOutcome;
use pomodoro::timer::{make_timer, poll, remaining_sec, Stamp, Tick};

fn at(h: u32, m: u32) -> DateTime<Local> {
    Local.with_ymd_and_hms(2026, 9, 6, h, m, 0).unwrap()
}

fn nanos(t: DateTime<Local>) -> Stamp {
    Stamp { secs: t.timestamp(), nanos: t.timestamp_subsec_nanos() }
}

#[test]
fn done_payload_carries_sound_flag() {
    let session = Session {
        id: 7,
        note: "写周报".into(),
        note_len: 3,
        planned_sec: 1500,
        actual_sec: Some(1500),
        started_at: "2026-09-06T09:00:00+08:00".into(),
        ended_at: Some("2026-09-06T09:25:00+08:00".into()),
        status: "completed".into(),
    };
    let mut settings = Settings::default();
    settings.sound = false;
    let p = build_done_payload(Some(&session), 1500, settings.sound);
    assert_eq!(p.session_id, 7);
    assert!(!p.sound, "sound=false 时 payload 不应触发提示音");
    settings.sound = true;
    let p = build_done_payload(Some(&session), 1500, settings.sound);
    assert!(p.sound, "sound=true 时 payload 应携带提示音标记");
}

#[test]
fn outcome_label_maps_all_variants() {
    assert_eq!(outcome_label(OpenOutcome::Opened), "opened");
    assert_eq!(outcome_label(OpenOutcome::Recovered), "recovered");
    assert_eq!(outcome_label(OpenOutcome::Reset), "reset");
}

#[test]
fn note_len_counts_chars_not_bytes() {
    assert_eq!(Session::note_len_of(""), 0);
    assert_eq!(Session::note_len_of("abc"), 3);
    assert_eq!(Session::note_len_of("番茄钟"), 3);
    assert_eq!(Session::note_len_of("😀"), 1);
}

#[test]
fn unit_seconds_conversion() {
    assert_eq!(Unit::Minute.seconds(25), 1500);
    assert_eq!(Unit::Hour.seconds(2), 7200);
    assert_eq!(Unit::Day.seconds(1), 86400);
}

#[test]
fn unit_clamp_domains() {
    assert_eq!(Unit::Minute.clamp_amount(0), 1);
    assert_eq!(Unit::Minute.clamp_amount(60), 59);
    assert_eq!(Unit::Hour.clamp_amount(24), 23);
    assert_eq!(Unit::Day.clamp_amount(31), 30);
    assert_eq!(Unit::Day.clamp_amount(1), 1);
}

#[test]
fn truncate_adds_ellipsis() {
    assert_eq!(truncate("短", 10), "短");
    assert_eq!(truncate("一二三四五", 3), "一二三…");
}

#[test]
fn rest_rest_secs_is_one_minute() {
    assert_eq!(pomodoro::rest::REST_SECS, 60);
}

#[test]
fn screen_rest_secs_is_one_minute() {
    assert_eq!(pomodoro::screen::REST_SECS, 60);
}

#[test]
fn fresh_timer_remaining_equals_planned() {
    let t = make_timer(1, 3600, nanos(at(10, 0)));
    assert_eq!(remaining_sec(&t, nanos(at(10, 0))), 3600);
    assert_eq!(poll(&t, nanos(at(10, 0))), Tick::Running(3600));
}

#[test]
fn halfway_and_finish() {
    let t = make_timer(1, 3600, nanos(at(10, 0)));
    assert_eq!(poll(&t, nanos(at(10, 30))), Tick::Running(1800));
    assert_eq!(poll(&t, nanos(at(11, 0))), Tick::Finished);
    assert_eq!(poll(&t, nanos(at(11, 5))), Tick::Finished);
}

#[test]
fn remaining_never_negative() {
    let t = make_timer(1, 60, nanos(at(10, 0)));
    assert_eq!(remaining_sec(&t, nanos(at(10, 10))), 0);
}
