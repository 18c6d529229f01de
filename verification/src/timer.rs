use vstd::prelude::*;

verus! {

/// Nanoseconds in one second.
pub const NANOS_PER_SEC: u32 = 1_000_000_000;

/// Every instant chrono's calendar can hold lies within this many seconds of the Unix
/// epoch (its dates run from year -262143 to year 262142).
pub const CALENDAR_LIMIT_SECS: i64 = 10_000_000_000_000;

/// The longest span, in whole seconds, that chrono's `TimeDelta::seconds` accepts
/// (`i64::MAX` milliseconds, rounded down to whole seconds).
pub const MAX_SPAN_SECS: i64 = 9_223_372_036_854_775;

/// Seconds in a day.
pub const SECS_PER_DAY: i64 = 86_400;

/// An instant as chrono holds it: the Unix timestamp in whole seconds and the
/// nanoseconds past it. `nanos` reaches one second or more only inside a leap second,
/// which chrono keeps as a second copy of the second before it.
#[derive(Debug, Clone, Copy, PartialEq, Eq, Structural)]
pub struct Stamp {
    pub secs: i64,
    pub nanos: u32,
}

/// A running countdown. The deadline is the single source of truth, so sleeping,
/// waking or resetting the wall clock never makes the countdown drift.
#[derive(Debug, Clone, Copy, PartialEq, Eq, Structural)]
pub struct ActiveTimer {
    pub session_id: i64,
    pub planned_sec: i64,
    pub started_at: Stamp,
    pub deadline: Stamp,
}

/// What one look at the clock reports.
#[derive(Debug, Clone, Copy, PartialEq, Eq, Structural)]
pub enum Tick {
    /// Whole seconds left.
    Running(i64),
    Finished,
}

/// Whether `x` is an instant of the calendar.
pub open spec fn in_calendar(x: Stamp) -> bool {
    &&& -CALENDAR_LIMIT_SECS <= x.secs <= CALENDAR_LIMIT_SECS
    &&& x.nanos < 2_000_000_000
}

/// Whether `x` lies inside a leap second.
pub open spec fn is_leap(x: Stamp) -> bool {
    x.nanos >= 1_000_000_000
}

/// Nanoseconds since the Unix epoch of an instant outside a leap second.
pub open spec fn nanos_of(x: Stamp) -> int {
    x.secs * 1_000_000_000 + x.nanos
}

/// Whether a span of `secs` seconds can be made (chrono panics beyond this).
pub open spec fn span_ok(secs: int) -> bool {
    -MAX_SPAN_SECS <= secs <= MAX_SPAN_SECS
}

/// `a` is at or after `b`: chrono orders instants by second, then by nanoseconds.
pub open spec fn at_or_after(a: Stamp, b: Stamp) -> bool {
    a.secs > b.secs || (a.secs == b.secs && a.nanos >= b.nanos)
}

/// The second of the (UTC) day of `x`.
pub open spec fn second_of_day(x: Stamp) -> int {
    (x.secs as int) % 86_400
}

/// `x` moved by `secs` whole seconds, as chrono's `DateTime + TimeDelta::seconds` does:
/// leaving a leap second forward drops its extra second, leaving it backward counts
/// from the second after it, and adding nothing keeps it.
pub open spec fn add_secs(x: Stamp, secs: int) -> Stamp {
    if is_leap(x) {
        if secs > 0 {
            Stamp { secs: (x.secs + secs) as i64, nanos: (x.nanos - 1_000_000_000) as u32 }
        } else if secs < 0 {
            Stamp { secs: (x.secs + 1 + secs) as i64, nanos: (x.nanos - 1_000_000_000) as u32 }
        } else {
            x
        }
    } else {
        Stamp { secs: (x.secs + secs) as i64, nanos: x.nanos }
    }
}

/// Nanoseconds from `b` to `a`, as chrono's `a - b` counts them: whole seconds apart plus
/// the nanosecond difference, with a leap second counted once when the time of day passes it.
pub open spec fn span_nanos(a: Stamp, b: Stamp) -> int {
    let base = (a.secs - b.secs) * 1_000_000_000 + a.nanos - b.nanos;
    if second_of_day(a) > second_of_day(b) && is_leap(b) {
        base + 1_000_000_000
    } else if second_of_day(a) < second_of_day(b) && is_leap(a) {
        base - 1_000_000_000
    } else {
        base
    }
}

/// Whole seconds left before `deadline` at `now`, never below zero.
pub open spec fn seconds_left(deadline: Stamp, now: Stamp) -> int {
    let span = span_nanos(deadline, now);
    if span > 0 {
        span / 1_000_000_000
    } else {
        0
    }
}

/// The report of `poll` at `now`.
pub open spec fn tick_at(deadline: Stamp, now: Stamp) -> Tick {
    if at_or_after(now, deadline) {
        Tick::Finished
    } else {
        Tick::Running(seconds_left(deadline, now) as i64)
    }
}

impl ActiveTimer {
    /// The deadline lies `planned_sec` seconds after the start.
    pub open spec fn wf(self) -> bool {
        self.deadline == add_secs(self.started_at, self.planned_sec as int)
    }

    /// A countdown as `make_timer` builds it: started at a calendar instant, for a
    /// span chrono can make.
    pub open spec fn valid(self) -> bool {
        &&& self.wf()
        &&& in_calendar(self.started_at)
        &&& span_ok(self.planned_sec as int)
    }
}

/// Starts a countdown of `planned_sec` seconds at `started_at`.
pub fn make_timer(session_id: i64, planned_sec: i64, started_at: Stamp) -> (t: ActiveTimer)
    requires
        in_calendar(started_at),
        span_ok(planned_sec as int),
    ensures
        t.valid(),
        t.session_id == session_id,
        t.planned_sec == planned_sec,
        t.started_at == started_at,
{
    let deadline = if started_at.nanos >= NANOS_PER_SEC {
        if planned_sec > 0 {
            Stamp { secs: started_at.secs + planned_sec, nanos: started_at.nanos - NANOS_PER_SEC }
        } else if planned_sec < 0 {
            Stamp { secs: started_at.secs + 1 + planned_sec, nanos: started_at.nanos - NANOS_PER_SEC }
        } else {
            started_at
        }
    } else {
        Stamp { secs: started_at.secs + planned_sec, nanos: started_at.nanos }
    };
    ActiveTimer { session_id, planned_sec, started_at, deadline }
}

/// The second of the (UTC) day of the timestamp `secs`.
fn day_second(secs: i64) -> (r: i64)
    ensures
        r == (secs as int) % 86_400,
{
    if secs >= 0 {
        secs % SECS_PER_DAY
    } else {
        let back: i64 = -(secs + 1);
        let m: i64 = back % SECS_PER_DAY;
        proof {
            let q = (back as int) / 86_400;
            vstd::arithmetic::div_mod::lemma_fundamental_div_mod(back as int, 86_400);
            assert(secs as int == 86_400 * (-(q + 1)) + (86_399 - m)) by (nonlinear_arith)
                requires back == -(secs + 1), back as int == 86_400 * q + m;
            vstd::arithmetic::div_mod::lemma_fundamental_div_mod_converse(secs as int, 86_400, -(q + 1), 86_399 - m);
        }
        86_399 - m
    }
}

/// Whole seconds left at `now`; zero once the deadline has passed.
pub fn remaining_sec(t: &ActiveTimer, now: Stamp) -> (r: i64)
    requires
        t.valid(),
        in_calendar(now),
    ensures
        r == seconds_left(t.deadline, now),
        0 <= r <= 9_400_000_000_000_000,
{
    let d = t.deadline;
    let base: i128 = ((d.secs as i128) - (now.secs as i128)) * (NANOS_PER_SEC as i128)
        + (d.nanos as i128) - (now.nanos as i128);
    let d_sod: i64 = day_second(d.secs);
    let n_sod: i64 = day_second(now.secs);
    let span: i128 = if d_sod > n_sod && now.nanos >= NANOS_PER_SEC {
        base + (NANOS_PER_SEC as i128)
    } else if d_sod < n_sod && d.nanos >= NANOS_PER_SEC {
        base - (NANOS_PER_SEC as i128)
    } else {
        base
    };
    if span > 0 {
        let secs: i128 = span / (NANOS_PER_SEC as i128);
        assert(0 <= secs <= 9_400_000_000_000_000) by (nonlinear_arith)
            requires
                0 < span <= 9_300_000_000_000_000_000_000_000,
                secs == span / 1_000_000_000,
        ;
        secs as i64
    } else {
        0
    }
}

/// Reports `Finished` once `now` has reached the deadline, else the seconds left.
pub fn poll(t: &ActiveTimer, now: Stamp) -> (k: Tick)
    requires
        t.valid(),
        in_calendar(now),
    ensures
        k == tick_at(t.deadline, now),
{
    if now.secs > t.deadline.secs || (now.secs == t.deadline.secs && now.nanos >= t.deadline.nanos) {
        Tick::Finished
    } else {
        Tick::Running(remaining_sec(t, now))
    }
}

/// Outside leap seconds, chrono's span between two instants is the plain difference of
/// their nanosecond counts, and its order is the order of those counts.
pub proof fn lemma_plain_instants(a: Stamp, b: Stamp)
    requires
        !is_leap(a),
        !is_leap(b),
    ensures
        span_nanos(a, b) == nanos_of(a) - nanos_of(b),
        at_or_after(a, b) <==> nanos_of(a) >= nanos_of(b),
{
    assert(at_or_after(a, b) <==> nanos_of(a) >= nanos_of(b)) by (nonlinear_arith)
        requires
            a.nanos < 1_000_000_000,
            b.nanos < 1_000_000_000,
            nanos_of(a) == a.secs * 1_000_000_000 + a.nanos,
            nanos_of(b) == b.secs * 1_000_000_000 + b.nanos,
            at_or_after(a, b) == (a.secs > b.secs || (a.secs == b.secs && a.nanos >= b.nanos)),
    ;
}

/// A countdown started outside a leap second and looked at the moment it starts
/// reports its whole planned length.
pub proof fn lemma_fresh_timer_reports_planned(t: ActiveTimer)
    requires
        t.valid(),
        t.planned_sec > 0,
        !is_leap(t.started_at),
    ensures
        seconds_left(t.deadline, t.started_at) == t.planned_sec,
        tick_at(t.deadline, t.started_at) == Tick::Running(t.planned_sec),
{
    lemma_plain_instants(t.deadline, t.started_at);
    let p = t.planned_sec as int;
    assert(nanos_of(t.deadline) - nanos_of(t.started_at) == p * 1_000_000_000) by (nonlinear_arith)
        requires
            t.deadline.secs == t.started_at.secs + p,
            t.deadline.nanos == t.started_at.nanos,
            nanos_of(t.deadline) == t.deadline.secs * 1_000_000_000 + t.deadline.nanos,
            nanos_of(t.started_at) == t.started_at.secs * 1_000_000_000 + t.started_at.nanos,
    ;
    assert((p * 1_000_000_000) / 1_000_000_000 == p) by (nonlinear_arith)
        requires p > 0;
}

/// Once a countdown has finished, every later look also reports it finished.
pub proof fn lemma_finished_is_final(t: ActiveTimer, earlier: Stamp, later: Stamp)
    requires
        tick_at(t.deadline, earlier) == Tick::Finished,
        at_or_after(later, earlier),
    ensures
        tick_at(t.deadline, later) == Tick::Finished,
{
}

/// Outside leap seconds, the seconds left never grow as time moves on.
pub proof fn lemma_remaining_never_grows(t: ActiveTimer, earlier: Stamp, later: Stamp)
    requires
        !is_leap(t.deadline),
        !is_leap(earlier),
        !is_leap(later),
        at_or_after(later, earlier),
    ensures
        0 <= seconds_left(t.deadline, later) <= seconds_left(t.deadline, earlier),
{
    lemma_plain_instants(t.deadline, later);
    lemma_plain_instants(t.deadline, earlier);
    lemma_plain_instants(later, earlier);
    let d = nanos_of(t.deadline);
    let e = nanos_of(earlier);
    let l = nanos_of(later);
    if d - l > 0 {
        assert((d - l) / 1_000_000_000 <= (d - e) / 1_000_000_000) by (nonlinear_arith)
            requires e <= l, l < d;
        assert(0 <= (d - l) / 1_000_000_000) by (nonlinear_arith)
            requires l < d;
    } else if d - e > 0 {
        assert(0 <= (d - e) / 1_000_000_000) by (nonlinear_arith)
            requires e < d;
    }
}

/// For a countdown started outside a leap second, the seconds left at any later moment
/// stay between zero and the planned length.
pub proof fn lemma_remaining_within_plan(t: ActiveTimer, now: Stamp)
    requires
        t.valid(),
        t.planned_sec >= 0,
        !is_leap(t.started_at),
        !is_leap(now),
        at_or_after(now, t.started_at),
    ensures
        0 <= seconds_left(t.deadline, now) <= t.planned_sec,
{
    lemma_remaining_never_grows(t, t.started_at, now);
    lemma_plain_instants(t.deadline, t.started_at);
    let p = t.planned_sec as int;
    assert(nanos_of(t.deadline) - nanos_of(t.started_at) == p * 1_000_000_000) by (nonlinear_arith)
        requires
            t.deadline.secs == t.started_at.secs + p,
            t.deadline.nanos == t.started_at.nanos,
            nanos_of(t.deadline) == t.deadline.secs * 1_000_000_000 + t.deadline.nanos,
            nanos_of(t.started_at) == t.started_at.secs * 1_000_000_000 + t.started_at.nanos,
    ;
    assert((p * 1_000_000_000) / 1_000_000_000 == p) by (nonlinear_arith)
        requires p >= 0;
}

/// Recomputed from the wall clock, `k` whole seconds after a start outside a leap second
/// (after a sleep, say) the countdown shows exactly `k` seconds fewer, and reports
/// finished at the end.
pub proof fn lemma_wall_clock_recompute(t: ActiveTimer, k: int)
    requires
        t.valid(),
        !is_leap(t.started_at),
        0 <= k <= t.planned_sec,
    ensures
        ({
            let now = Stamp { secs: (t.started_at.secs + k) as i64, nanos: t.started_at.nanos };
            &&& seconds_left(t.deadline, now) == t.planned_sec - k
            &&& k < t.planned_sec ==> tick_at(t.deadline, now) == Tick::Running((t.planned_sec - k) as i64)
            &&& k == t.planned_sec ==> tick_at(t.deadline, now) == Tick::Finished
        }),
{
    let now = Stamp { secs: (t.started_at.secs + k) as i64, nanos: t.started_at.nanos };
    let p = t.planned_sec as int;
    lemma_plain_instants(t.deadline, now);
    assert(nanos_of(t.deadline) - nanos_of(now) == (p - k) * 1_000_000_000) by (nonlinear_arith)
        requires
            t.deadline.secs == t.started_at.secs + p,
            now.secs == t.started_at.secs + k,
            t.deadline.nanos == now.nanos,
            nanos_of(t.deadline) == t.deadline.secs * 1_000_000_000 + t.deadline.nanos,
            nanos_of(now) == now.secs * 1_000_000_000 + now.nanos,
    ;
    assert(((p - k) * 1_000_000_000) / 1_000_000_000 == p - k) by (nonlinear_arith)
        requires p - k >= 0;
    assert(k < p ==> (p - k) * 1_000_000_000 > 0) by (nonlinear_arith);
}

} // verus!
