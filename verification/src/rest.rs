use vstd::prelude::*;

verus! {

/// Seconds of the rest that follows a completed session (enforced, cannot be cut short).
pub const REST_SECS: u64 = 60;

/// Seconds before the end of the rest at which the fade-out signal is sent.
pub const FADE_SECS: u64 = 2;

/// Seconds from the start of the rest to the fade-out signal.
pub fn fade_delay_secs() -> (d: u64)
    ensures
        d == REST_SECS - FADE_SECS,
{
    REST_SECS.saturating_sub(FADE_SECS)
}

/// Whether a rest starts: only when the rest window exists and is not already showing
/// (a window whose visibility cannot be read counts as hidden).
pub fn rest_should_start(has_window: bool, visible: Option<bool>) -> (b: bool)
    ensures
        b == (has_window && !(visible == Some(true))),
{
    if !has_window {
        return false;
    }
    match visible {
        Some(true) => false,
        _ => true,
    }
}

} // verus!
