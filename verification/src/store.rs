use vstd::prelude::*;
use vstd::string::*;
use crate::models::Session;

verus! {

/// How the session database came up at start: opened as it was, restored after a
/// fault, or recreated empty.
#[derive(Debug, Clone, Copy, PartialEq, Eq, Structural)]
pub enum OpenOutcome {
    Opened,
    Recovered,
    Reset,
}

/// The session recorded when a countdown starts: row `id`, the note and its length in
/// characters, the plan and the start time, no end yet, status "running".
pub fn running_session(id: i64, note: &str, planned_sec: i64, started_at: &str) -> (s: Session)
    requires
        note@.len() <= i64::MAX,
    ensures
        s.id == id,
        s.note@ == note@,
        s.note_len == note@.len(),
        s.planned_sec == planned_sec,
        s.actual_sec is None,
        s.started_at@ == started_at@,
        s.ended_at is None,
        s.status@ == "running"@,
{
    let note_len: i64 = Session::note_len_of(note);
    Session {
        id,
        note: String::from_str(note),
        note_len,
        planned_sec,
        actual_sec: None,
        started_at: String::from_str(started_at),
        ended_at: None,
        status: String::from_str("running"),
    }
}

} // verus!
