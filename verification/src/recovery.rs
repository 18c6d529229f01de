use vstd::prelude::*;
use crate::clock::{parse_rfc3339_instant, rfc3339_instant, RFC3339_SECS_MAX, RFC3339_SECS_MIN};
use crate::models::Session;
use crate::timer::{add_secs, at_or_after, in_calendar, make_timer, span_ok, tick_at, ActiveTimer, Stamp, Tick};

verus! {

/// What to do at start-up about the session left running by an earlier run.
#[derive(Debug, Clone, Copy, PartialEq, Eq, Structural)]
pub enum Recovery {
    /// No session was left running.
    Idle,
    /// Its deadline has passed while the program was away: record it as completed
    /// with its planned seconds, and remind the user.
    Complete { session_id: i64, planned_sec: i64 },
    /// Its deadline is still ahead: resume this countdown.
    Resume(ActiveTimer),
}

/// What an RFC 3339 parse can give: seconds within the four-digit-year range and
/// nanoseconds under two seconds.
pub open spec fn parsed_in_range(parsed: Option<(i64, u32)>) -> bool {
    parsed matches Some(p) ==> RFC3339_SECS_MIN <= p.0 <= RFC3339_SECS_MAX && p.1 < 2_000_000_000
}

/// The start used for a session whose start text parsed to `parsed`: the parsed
/// instant, or `now` when the text could not be parsed.
pub open spec fn start_stamp(parsed: Option<(i64, u32)>, now: Stamp) -> Stamp {
    match parsed {
        None => now,
        Some(p) => Stamp { secs: p.0, nanos: p.1 },
    }
}

/// The recovery for `active` started at `start`: complete once `now` has reached the
/// start plus the plan (added as chrono adds it), else resume.
pub open spec fn recovery_of(active: Option<&Session>, start: Stamp, now: Stamp) -> Recovery {
    match active {
        None => Recovery::Idle,
        Some(s) => {
            let deadline = add_secs(start, s.planned_sec as int);
            if at_or_after(now, deadline) {
                Recovery::Complete { session_id: s.id, planned_sec: s.planned_sec }
            } else {
                Recovery::Resume(ActiveTimer {
                    session_id: s.id,
                    planned_sec: s.planned_sec,
                    started_at: start,
                    deadline,
                })
            }
        },
    }
}

/// The recovery decision, given what the start text of `active` parsed to.
pub fn plan_recovery(active: Option<&Session>, parsed: Option<(i64, u32)>, now: Stamp) -> (r: Recovery)
    requires
        in_calendar(now),
        parsed_in_range(parsed),
        active matches Some(s) ==> span_ok(s.planned_sec as int),
    ensures
        r == recovery_of(active, start_stamp(parsed, now), now),
        r matches Recovery::Resume(t) ==> t.valid() && !at_or_after(now, t.deadline),
{
    match active {
        None => Recovery::Idle,
        Some(s) => {
            let start: Stamp = match parsed {
                None => now,
                Some(p) => Stamp { secs: p.0, nanos: p.1 },
            };
            let t = make_timer(s.id, s.planned_sec, start);
            let d = t.deadline;
            if now.secs > d.secs || (now.secs == d.secs && now.nanos >= d.nanos) {
                Recovery::Complete { session_id: s.id, planned_sec: s.planned_sec }
            } else {
                Recovery::Resume(t)
            }
        },
    }
}

/// Start-up recovery of the session left running: its start text is parsed as RFC 3339
/// (counting from `now` when it is not), then `plan_recovery` decides.
pub fn recover_running_session(active: Option<&Session>, now: Stamp) -> (r: Recovery)
    requires
        in_calendar(now),
        active matches Some(s) ==> span_ok(s.planned_sec as int),
    ensures
        match active {
            None => r == Recovery::Idle,
            Some(s) => r == recovery_of(active, start_stamp(rfc3339_instant(s.started_at@), now), now),
        },
        r matches Recovery::Resume(t) ==> t.valid() && !at_or_after(now, t.deadline),
{
    match active {
        None => Recovery::Idle,
        Some(s) => {
            let parsed = parse_rfc3339_instant(s.started_at.as_str());
            plan_recovery(active, parsed, now)
        },
    }
}

/// Recovery decides as the countdown itself would: a session left running is completed
/// exactly when a countdown started at its start for its plan reports finished at `now`,
/// and otherwise resumes that very countdown, which is still running; with no session
/// left running there is nothing to do.
pub proof fn lemma_recovery_agrees_with_countdown(s: Session, start: Stamp, now: Stamp)
    requires
        in_calendar(start),
        span_ok(s.planned_sec as int),
    ensures
        recovery_of(None, start, now) == Recovery::Idle,
        ({
            let t = ActiveTimer {
                session_id: s.id,
                planned_sec: s.planned_sec,
                started_at: start,
                deadline: add_secs(start, s.planned_sec as int),
            };
            &&& t.valid()
            &&& (recovery_of(Some(&s), start, now) == Recovery::Complete { session_id: s.id, planned_sec: s.planned_sec }
                <==> tick_at(t.deadline, now) == Tick::Finished)
            &&& (recovery_of(Some(&s), start, now) == Recovery::Resume(t) <==> tick_at(t.deadline, now) is Running)
        }),
{
}

} // verus!
