//! Core logic of a desktop pomodoro timer: focus sessions, the deadline-driven
//! countdown, payloads handed to the user interface, settings sanitising, crash
//! recovery decisions and statistics assembly.

pub mod models;
pub mod timer;
pub mod clock;
pub mod text;
pub mod settings;
pub mod commands;
pub mod store;
pub mod recovery;
pub mod notify;
pub mod rest;
pub mod screen;

use vstd::prelude::*;
use crate::store::OpenOutcome;

verus! {

/// Reports how the session database came up, for the start-up banner.
#[derive(Debug, Clone, Copy, PartialEq, Eq)]
pub struct StoreStatePayload {
    pub outcome: &'static str,
}

/// The label of an open outcome: "opened", "recovered" or "reset".
pub open spec fn outcome_text(o: OpenOutcome) -> Seq<char> {
    match o {
        OpenOutcome::Opened => "opened"@,
        OpenOutcome::Recovered => "recovered"@,
        OpenOutcome::Reset => "reset"@,
    }
}

/// The label sent to the interface for an open outcome.
pub fn outcome_label(o: OpenOutcome) -> (label: &'static str)
    ensures
        label@ == outcome_text(o),
{
    match o {
        OpenOutcome::Opened => "opened",
        OpenOutcome::Recovered => "recovered",
        OpenOutcome::Reset => "reset",
    }
}

/// The payload that reports the open outcome.
pub fn store_state_payload(o: OpenOutcome) -> (p: StoreStatePayload)
    ensures
        p.outcome@ == outcome_text(o),
{
    StoreStatePayload { outcome: outcome_label(o) }
}

/// The event announcing a database that was not opened as it was: "store_recovered"
/// after a repair, "store_reset" after recreating it, none when it opened normally.
pub fn outcome_event(o: OpenOutcome) -> (e: Option<&'static str>)
    ensures
        match o {
            OpenOutcome::Opened => e is None,
            OpenOutcome::Recovered => e matches Some(name) && name@ == "store_recovered"@,
            OpenOutcome::Reset => e matches Some(name) && name@ == "store_reset"@,
        },
{
    match o {
        OpenOutcome::Opened => None,
        OpenOutcome::Recovered => Some("store_recovered"),
        OpenOutcome::Reset => Some("store_reset"),
    }
}

/// Different outcomes get different labels, so the interface can tell them apart.
pub proof fn lemma_outcome_labels_distinct(a: OpenOutcome, b: OpenOutcome)
    requires
        a != b,
    ensures
        outcome_text(a) != outcome_text(b),
{
    reveal_strlit("opened");
    reveal_strlit("recovered");
    reveal_strlit("reset");
    if a is Opened && b is Recovered || a is Recovered && b is Opened {
        assert(outcome_text(a).len() != outcome_text(b).len());
    } else if a is Opened && b is Reset || a is Reset && b is Opened {
        assert(outcome_text(a)[0] != outcome_text(b)[0]);
    } else {
        assert(outcome_text(a).len() != outcome_text(b).len());
    }
}

} // verus!
