use vstd::prelude::*;
use vstd::string::*;
use crate::clock::{day_in_range, format_iso_date, iso_date, weekday_from_monday, weekday_of, DAY_MAX, DAY_MIN};
use crate::screen::REST_SECS;
use crate::models::{Session, Unit};
use crate::settings::Settings;
use crate::text::{prefix, prefix_chars};
use crate::timer::{at_or_after, in_calendar, is_leap, nanos_of, poll, remaining_sec, seconds_left, tick_at, ActiveTimer, Stamp, Tick};

verus! {

/// Hard cap on the characters of a note; longer notes are cut silently.
pub const NOTE_HARD_LIMIT: usize = 5000;

/// Characters of the note shown beside the countdown.
pub const NOTE_SHORT_CHARS: usize = 8;

/// Sent every second while a countdown runs.
#[derive(Debug, Clone, PartialEq)]
pub struct TickPayload {
    pub session_id: i64,
    pub remaining_sec: i64,
    pub planned_sec: i64,
    pub note_short: String,
}

/// Sent once when a countdown completes.
#[derive(Debug, Clone, PartialEq)]
pub struct DonePayload {
    pub session_id: i64,
    pub note: String,
    pub planned_sec: i64,
    pub note_len: i64,
    pub sound: bool,
}

/// Sent when a session is given up.
#[derive(Debug, Clone, PartialEq)]
pub struct AbortPayload {
    pub session_id: i64,
}

/// Focus seconds of one calendar day.
#[derive(Debug, Clone, PartialEq)]
pub struct DayFocus {
    pub day: String,
    pub focus_sec: i64,
}

/// The figures of the statistics view.
#[derive(Debug, Clone, PartialEq)]
pub struct StatsPayload {
    pub today_sec: i64,
    pub week_sec: i64,
    pub completed_count: i64,
    pub by_day: Vec<DayFocus>,
}

/// `p` describes the completion of `session` (or of an unknown session, with id 0 and
/// an empty note) planned for `planned_sec` seconds, with the sound flag `sound`.
pub open spec fn describes_done(p: DonePayload, session: Option<&Session>, planned_sec: i64, sound: bool) -> bool {
    &&& p.planned_sec == planned_sec
    &&& p.sound == sound
    &&& match session {
        Some(s) => p.session_id == s.id && p.note@ == s.note@ && p.note_len == s.note_len,
        None => p.session_id == 0 && p.note@ == Seq::<char>::empty() && p.note_len == 0,
    }
}

/// The completion payload; the sound flag follows the user's setting.
pub fn build_done_payload(session: Option<&Session>, planned_sec: i64, sound: bool) -> (p: DonePayload)
    ensures
        describes_done(p, session, planned_sec, sound),
        p.planned_sec == planned_sec,
        p.sound == sound,
        session matches Some(s) ==> p.session_id == s.id && p.note@ == s.note@ && p.note_len == s.note_len,
        session is None ==> p.session_id == 0 && p.note@.len() == 0 && p.note_len == 0,
{
    match session {
        Some(s) => DonePayload {
            session_id: s.id,
            note: s.note.clone(),
            planned_sec,
            note_len: s.note_len,
            sound,
        },
        None => DonePayload { session_id: 0, note: String::new(), planned_sec, note_len: 0, sound },
    }
}

/// The payload announcing that session `session_id` was given up.
pub fn build_abort_payload(session_id: i64) -> (p: AbortPayload)
    ensures
        p.session_id == session_id,
{
    AbortPayload { session_id }
}

/// The per-second payload; `note` is the session's note when it could be read.
pub fn build_tick_payload(session_id: i64, remaining: i64, planned_sec: i64, note: Option<&str>) -> (p: TickPayload)
    ensures
        p.session_id == session_id,
        p.remaining_sec == remaining,
        p.planned_sec == planned_sec,
        p.note_short@ == match note {
            Some(n) => prefix(n@, NOTE_SHORT_CHARS as int),
            None => Seq::<char>::empty(),
        },
{
    let note_short = match note {
        Some(n) => prefix_chars(n, NOTE_SHORT_CHARS),
        None => String::new(),
    };
    TickPayload { session_id, remaining_sec: remaining, planned_sec, note_short }
}

/// What the once-a-second loop does next.
#[derive(Debug, Clone, Copy, PartialEq, Eq, Structural)]
pub enum TickStep {
    /// The watched countdown is gone (given up or replaced): the loop ends.
    Stop,
    /// Still counting down: report the seconds left.
    Running { session_id: i64, remaining_sec: i64, planned_sec: i64 },
    /// The deadline is reached: record the session as completed, announce it, and
    /// switch the screen off for a rest of `rest_secs` seconds.
    Finished { session_id: i64, planned_sec: i64, rest_secs: u64 },
}

/// The step of the loop watching session `watched` when the current countdown is `current`.
pub open spec fn step_of(current: Option<ActiveTimer>, watched: i64, now: Stamp) -> TickStep {
    match current {
        None => TickStep::Stop,
        Some(a) => if a.session_id != watched {
            TickStep::Stop
        } else {
            match tick_at(a.deadline, now) {
                Tick::Finished => TickStep::Finished {
                    session_id: a.session_id,
                    planned_sec: a.planned_sec,
                    rest_secs: REST_SECS,
                },
                Tick::Running(r) => TickStep::Running {
                    session_id: a.session_id,
                    remaining_sec: r,
                    planned_sec: a.planned_sec,
                },
            }
        },
    }
}

/// One turn of the loop that watches session `watched`, given the countdown now current.
pub fn tick_step(current: Option<ActiveTimer>, watched: i64, now: Stamp) -> (s: TickStep)
    requires
        in_calendar(now),
        current matches Some(a) ==> a.valid(),
    ensures
        s == step_of(current, watched, now),
        current is None ==> s == TickStep::Stop,
        current matches Some(a) && a.session_id != watched ==> s == TickStep::Stop,
        s matches TickStep::Running { session_id, remaining_sec, planned_sec } ==> {
            &&& current matches Some(a)
            &&& session_id == watched
            &&& a.session_id == watched
            &&& planned_sec == a.planned_sec
            &&& remaining_sec == seconds_left(a.deadline, now)
            &&& !at_or_after(now, a.deadline)
        },
        s matches TickStep::Finished { session_id, planned_sec, rest_secs } ==> {
            &&& current matches Some(a)
            &&& session_id == watched
            &&& a.session_id == watched
            &&& planned_sec == a.planned_sec
            &&& rest_secs == 60
            &&& at_or_after(now, a.deadline)
        },
{
    match current {
        None => TickStep::Stop,
        Some(a) => {
            if a.session_id != watched {
                TickStep::Stop
            } else {
                match poll(&a, now) {
                    Tick::Finished => TickStep::Finished {
                        session_id: a.session_id,
                        planned_sec: a.planned_sec,
                        rest_secs: REST_SECS,
                    },
                    Tick::Running(r) => TickStep::Running {
                        session_id: a.session_id,
                        remaining_sec: r,
                        planned_sec: a.planned_sec,
                    },
                }
            }
        },
    }
}

/// What to announce when a countdown completes.
#[derive(Debug, Clone, PartialEq)]
pub struct Completion {
    pub payload: DonePayload,
    /// Whether to show a system notification.
    pub notify: bool,
}

/// The announcement of a completed session: the sound flag and the notification
/// follow the settings.
pub fn complete_session(session: Option<&Session>, planned_sec: i64, settings: &Settings) -> (c: Completion)
    ensures
        describes_done(c.payload, session, planned_sec, settings.sound),
        c.payload.planned_sec == planned_sec,
        c.payload.sound == settings.sound,
        c.notify == settings.notification,
{
    Completion { payload: build_done_payload(session, planned_sec, settings.sound), notify: settings.notification }
}

/// Seconds credited to a session given up at `now`: planned minus left, never negative.
pub open spec fn credit(t: ActiveTimer, now: Stamp) -> int {
    let used: int = t.planned_sec - seconds_left(t.deadline, now);
    if used < 0 { 0 } else { used }
}

/// The seconds credited when session `id` is given up at `now`: the time used of the
/// current countdown when it is that session's, else zero.
pub open spec fn abort_credit(current: Option<&ActiveTimer>, id: i64, now: Stamp) -> int {
    match current {
        Some(t) => if t.session_id == id { credit(*t, now) } else { 0 },
        None => 0,
    }
}

/// Actual seconds recorded for session `id` given up at `now`.
pub fn aborted_actual_sec(current: Option<&ActiveTimer>, id: i64, now: Stamp) -> (actual: i64)
    requires
        in_calendar(now),
        current matches Some(t) ==> t.valid(),
    ensures
        actual == abort_credit(current, id, now),
        actual >= 0,
        match current {
            Some(t) => if t.session_id == id {
                &&& actual >= t.planned_sec - seconds_left(t.deadline, now)
                &&& (actual == 0 || actual == t.planned_sec - seconds_left(t.deadline, now))
            } else {
                actual == 0
            },
            None => actual == 0,
        },
{
    match current {
        Some(t) => {
            if t.session_id == id {
                let used: i64 = t.planned_sec - remaining_sec(t, now);
                if used < 0 { 0 } else { used }
            } else {
                0
            }
        },
        None => 0,
    }
}

/// The note kept and the seconds planned when a session is started.
#[derive(Debug, Clone, PartialEq)]
pub struct StartPlan {
    pub note: String,
    pub planned_sec: i64,
}

/// Starting a session: the note is cut to its first 5000 characters and the amount is
/// clamped to the unit's range before being turned into seconds.
pub fn plan_start(note: &str, unit: Unit, amount: i64) -> (p: StartPlan)
    ensures
        p.note@ == prefix(note@, NOTE_HARD_LIMIT as int),
        p.planned_sec == unit.clamped(amount as int) * unit.factor(),
{
    let kept = prefix_chars(note, NOTE_HARD_LIMIT);
    let amount: i64 = unit.clamp_amount(amount);
    let planned_sec: i64 = unit.seconds(amount);
    StartPlan { note: kept, planned_sec }
}

/// Sum of a sequence of seconds.
pub open spec fn sum_of(s: Seq<i64>) -> int
    decreases s.len(),
{
    if s.len() == 0 {
        0
    } else {
        sum_of(s.drop_last()) + s.last()
    }
}

/// Every running total of `s` fits in an `i64`.
pub open spec fn running_sums_fit(s: Seq<i64>) -> bool {
    forall|k: int| 0 <= k <= s.len() ==> i64::MIN <= #[trigger] sum_of(s.take(k)) <= i64::MAX
}

/// Days shown in the daily focus chart, today included.
pub const CHART_DAYS: usize = 7;

/// The statistics view. `day_labels` and `day_focus` are the chart's days, oldest first
/// and today last, with their focus seconds; `week_focus` holds the focus of each day of
/// the week so far. Today's figure is the chart's last, the week total is the sum.
pub fn build_stats(
    day_labels: &Vec<String>,
    day_focus: &Vec<i64>,
    completed_count: i64,
    week_focus: &Vec<i64>,
) -> (p: StatsPayload)
    requires
        day_labels.len() == CHART_DAYS,
        day_focus.len() == CHART_DAYS,
        running_sums_fit(week_focus@),
    ensures
        p.by_day.len() == CHART_DAYS,
        forall|i: int| 0 <= i < CHART_DAYS ==> {
            &&& (#[trigger] p.by_day[i]).day@ == day_labels[i]@
            &&& p.by_day[i].focus_sec == day_focus[i]
        },
        p.today_sec == day_focus[CHART_DAYS - 1],
        p.completed_count == completed_count,
        p.week_sec == sum_of(week_focus@),
{
    let mut by_day: Vec<DayFocus> = Vec::new();
    let mut k: usize = 0;
    while k < CHART_DAYS
        invariant
            k <= CHART_DAYS,
            day_labels.len() == CHART_DAYS,
            day_focus.len() == CHART_DAYS,
            by_day.len() == k,
            forall|i: int| 0 <= i < k ==> {
                &&& (#[trigger] by_day[i]).day@ == day_labels[i]@
                &&& by_day[i].focus_sec == day_focus[i]
            },
        decreases CHART_DAYS - k,
    {
        by_day.push(DayFocus { day: day_labels[k].clone(), focus_sec: day_focus[k] });
        k = k + 1;
    }
    let mut week_sec: i64 = 0;
    let mut i: usize = 0;
    while i < week_focus.len()
        invariant
            i <= week_focus.len(),
            running_sums_fit(week_focus@),
            week_sec == sum_of(week_focus@.take(i as int)),
        decreases week_focus.len() - i,
    {
        assert(week_focus@.take(i + 1).drop_last() =~= week_focus@.take(i as int));
        assert(i64::MIN <= sum_of(week_focus@.take(i + 1)) <= i64::MAX);
        week_sec = week_sec + week_focus[i];
        i = i + 1;
    }
    assert(week_focus@.take(week_focus.len() as int) =~= week_focus@);
    StatsPayload { today_sec: day_focus[CHART_DAYS - 1], week_sec, completed_count, by_day }
}

/// The label of the chart's day `i` (0 the oldest, 6 today).
pub open spec fn chart_label(today: int, i: int) -> Seq<char> {
    iso_date((today - 6 + i) as i32)
}

/// Labels `YYYY-MM-DD` of the chart's days: the six days before `today` (a day number
/// from the Common Era) and `today` itself, oldest first. `None` when any of them lies
/// outside the calendar that chrono can hold.
pub fn last_seven_day_labels(today: i32) -> (r: Option<Vec<String>>)
    ensures
        r is Some <==> (day_in_range(today - 6) && day_in_range(today as int)),
        r matches Some(v) ==> {
            &&& v.len() == CHART_DAYS
            &&& forall|i: int| 0 <= i < CHART_DAYS ==> #[trigger] v[i]@ == chart_label(today as int, i)
        },
{
    if today > DAY_MAX || today < DAY_MIN + 6 {
        return None;
    }
    let first: i32 = today - 6;
    let mut labels: Vec<String> = Vec::new();
    let mut k: i32 = 0;
    while k < 7
        invariant
            0 <= k <= 7,
            first == today - 6,
            DAY_MIN <= first,
            today <= DAY_MAX,
            labels.len() == k,
            forall|i: int| 0 <= i < k ==> #[trigger] labels[i]@ == chart_label(today as int, i),
        decreases 7 - k,
    {
        labels.push(format_iso_date(first + k));
        k = k + 1;
    }
    Some(labels)
}

/// The labels of the days of the current week up to `today` (day numbers from the
/// Common Era): Monday first, `today` last.
pub open spec fn week_label(today: int, i: int) -> Seq<char> {
    iso_date((today - weekday_of(today) + i) as i32)
}

/// Labels `YYYY-MM-DD` of the days from this week's Monday to `today`, oldest first.
/// `None` when `today` or that Monday lies outside the calendar that chrono can hold.
pub fn week_labels(today: i32) -> (r: Option<Vec<String>>)
    ensures
        r is Some <==> (day_in_range(today as int) && day_in_range(today - weekday_of(today as int))),
        r matches Some(v) ==> {
            &&& v.len() == weekday_of(today as int) + 1
            &&& 1 <= v.len() <= 7
            &&& weekday_of(today - weekday_of(today as int)) == 0
            &&& forall|i: int| 0 <= i < v.len() ==> #[trigger] v[i]@ == week_label(today as int, i)
        },
{
    if today < DAY_MIN || today > DAY_MAX {
        return None;
    }
    let wd: u32 = weekday_from_monday(today);
    let wd: i32 = wd as i32;
    if today - wd < DAY_MIN {
        return None;
    }
    let monday: i32 = today - wd;
    let mut labels: Vec<String> = Vec::new();
    let mut k: i32 = 0;
    while k <= wd
        invariant
            0 <= k <= wd + 1,
            wd == weekday_of(today as int),
            monday == today - wd,
            DAY_MIN <= monday <= today <= DAY_MAX,
            labels.len() == k,
            forall|i: int| 0 <= i < k ==> #[trigger] labels[i]@ == week_label(today as int, i),
        decreases wd + 1 - k,
    {
        labels.push(format_iso_date(monday + k));
        k = k + 1;
    }
    Some(labels)
}

/// A session given up at any moment is credited between none and all of its planned
/// seconds; given up after a start outside a leap second, it is credited the seconds
/// used, rounded up, up to the plan.
pub proof fn lemma_abort_credit_is_time_used(t: ActiveTimer, now: Stamp)
    requires
        t.valid(),
        t.planned_sec >= 0,
    ensures
        0 <= credit(t, now) <= t.planned_sec,
        !is_leap(t.started_at) && !is_leap(now) && at_or_after(now, t.started_at) ==> credit(t, now) == if nanos_of(now)
            - nanos_of(t.started_at) >= t.planned_sec * 1_000_000_000 {
            t.planned_sec as int
        } else {
            (nanos_of(now) - nanos_of(t.started_at) + 999_999_999) / 1_000_000_000
        },
{
    let p: int = t.planned_sec as int;
    let n: int = 1_000_000_000;
    let sp = crate::timer::span_nanos(t.deadline, now);
    if sp > 0 {
        assert(0 <= sp / n) by (nonlinear_arith) requires sp > 0, n == 1_000_000_000;
    }
    if !is_leap(t.started_at) && !is_leap(now) && at_or_after(now, t.started_at) {
        crate::timer::lemma_remaining_within_plan(t, now);
        crate::timer::lemma_plain_instants(t.deadline, now);
        crate::timer::lemma_plain_instants(now, t.started_at);
        let st = nanos_of(t.started_at);
        let nw = nanos_of(now);
        let d = nanos_of(t.deadline);
        assert(d == st + p * n) by (nonlinear_arith)
            requires
                t.deadline.secs == t.started_at.secs + p,
                t.deadline.nanos == t.started_at.nanos,
                d == t.deadline.secs * 1_000_000_000 + t.deadline.nanos,
                st == t.started_at.secs * 1_000_000_000 + t.started_at.nanos,
                n == 1_000_000_000,
        ;
        let e: int = nw - st;
        if e < p * n {
            let c: int = (e + n - 1) / n;
            assert(c * n - n < e <= c * n && c >= 0) by (nonlinear_arith)
                requires e >= 0, c == (e + n - 1) / n, n == 1_000_000_000;
            let r: int = d - nw;
            assert(r == (p - c) * n + (c * n - e)) by (nonlinear_arith)
                requires d == st + p * n, r == d - nw, e == nw - st;
            vstd::arithmetic::div_mod::lemma_fundamental_div_mod_converse(r, n, p - c, c * n - e);
        }
    }
}

/// A session started from any note, unit and amount counts down from its whole
/// planned length (between one minute and thirty days) at the moment it starts.
pub proof fn lemma_started_session_counts_from_plan(unit: Unit, amount: int, t: ActiveTimer)
    requires
        t.valid(),
        !is_leap(t.started_at),
        t.planned_sec == unit.clamped(amount) * unit.factor(),
    ensures
        60 <= t.planned_sec <= 2_592_000,
        tick_at(t.deadline, t.started_at) == Tick::Running(t.planned_sec),
        step_of(Some(t), t.session_id, t.started_at) == (TickStep::Running {
            session_id: t.session_id,
            remaining_sec: t.planned_sec,
            planned_sec: t.planned_sec,
        }),
{
    crate::models::lemma_clamped_duration_bounds(unit, amount);
    crate::timer::lemma_fresh_timer_reports_planned(t);
}

/// A completion payload keeps the planned seconds and the sound flag it was given, and
/// the id, note and note length of the session it announces.
pub proof fn lemma_done_payload_keeps_plan(p: DonePayload, session: Option<&Session>, planned_sec: i64, sound: bool)
    requires
        describes_done(p, session, planned_sec, sound),
    ensures
        p.planned_sec == planned_sec,
        p.sound == sound,
        session matches Some(s) ==> p.session_id == s.id && p.note_len == s.note_len && p.note@ == s.note@,
{
}

/// The loop watching one session stops as soon as the current countdown belongs to any
/// other session (given up and replaced), or there is none; it only ever reports or
/// finishes the session it watches.
pub proof fn lemma_loop_only_drives_its_session(current: Option<ActiveTimer>, watched: i64, now: Stamp)
    ensures
        current is None ==> step_of(current, watched, now) == TickStep::Stop,
        current matches Some(a) && a.session_id != watched ==> step_of(current, watched, now) == TickStep::Stop,
        step_of(current, watched, now) matches TickStep::Running { session_id, .. } ==> session_id == watched,
        step_of(current, watched, now) matches TickStep::Finished { session_id, .. } ==> session_id == watched,
{
}

/// Giving up the current session credits the seconds actually used: after a start and a
/// moment outside leap seconds, the elapsed time rounded up to whole seconds, capped at
/// the plan; giving up any other session credits nothing.
pub proof fn lemma_give_up_credits_time_used(t: ActiveTimer, other: i64, now: Stamp)
    requires
        t.valid(),
        t.planned_sec >= 0,
        other != t.session_id,
    ensures
        0 <= abort_credit(Some(&t), t.session_id, now) <= t.planned_sec,
        abort_credit(Some(&t), other, now) == 0,
        abort_credit(None, t.session_id, now) == 0,
        !is_leap(t.started_at) && !is_leap(now) && at_or_after(now, t.started_at)
            ==> abort_credit(Some(&t), t.session_id, now) == if nanos_of(now) - nanos_of(t.started_at)
            >= t.planned_sec * 1_000_000_000 {
            t.planned_sec as int
        } else {
            (nanos_of(now) - nanos_of(t.started_at) + 999_999_999) / 1_000_000_000
        },
{
    lemma_abort_credit_is_time_used(t, now);
}

/// Every completed countdown is followed by a one-minute screen rest.
pub proof fn lemma_completion_rests_one_minute(current: Option<ActiveTimer>, watched: i64, now: Stamp)
    ensures
        step_of(current, watched, now) matches TickStep::Finished { rest_secs, .. } ==> rest_secs == 60,
{
}

/// When every day's focus is read from the same record `focus_of`, the week total equals
/// the sum of the last days of the seven-day chart: the week's days, Monday to today, are
/// the chart's last days.
pub proof fn lemma_week_total_is_chart_tail(today: int, focus_of: spec_fn(Seq<char>) -> i64)
    requires
        i32::MIN + 6 <= today <= i32::MAX,
    ensures
        ({
            let wd = weekday_of(today);
            let week = Seq::new((wd + 1) as nat, |i: int| focus_of(week_label(today, i)));
            let chart = Seq::new(CHART_DAYS as nat, |i: int| focus_of(chart_label(today, i)));
            week == chart.subrange(CHART_DAYS - 1 - wd, CHART_DAYS as int)
        }),
{
    let wd = weekday_of(today);
    let week = Seq::new((wd + 1) as nat, |i: int| focus_of(week_label(today, i)));
    let chart = Seq::new(CHART_DAYS as nat, |i: int| focus_of(chart_label(today, i)));
    assert(0 <= wd < 7);
    assert(week =~= chart.subrange(CHART_DAYS - 1 - wd, CHART_DAYS as int));
}

/// The note kept at start is the beginning of the typed note and never longer than the
/// hard limit; a note within the limit is kept whole.
pub proof fn lemma_note_hard_limit(note: Seq<char>)
    ensures
        prefix(note, NOTE_HARD_LIMIT as int).len() <= NOTE_HARD_LIMIT,
        prefix(note, NOTE_HARD_LIMIT as int).is_prefix_of(note),
        note.len() <= NOTE_HARD_LIMIT ==> prefix(note, NOTE_HARD_LIMIT as int) == note,
{
}

} // verus!
