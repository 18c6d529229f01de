use vstd::prelude::*;

verus! {

/// Seconds the screen stays dark after a completed session (enforced, cannot be cut short).
pub const REST_SECS: u64 = 60;

/// The `WM_SYSCOMMAND` code that switches the monitor's power.
pub const SC_MONITORPOWER: usize = 0xF170;

/// The power argument that switches the monitor off.
pub const MONITOR_OFF: isize = 2;

/// The power argument that switches the monitor back on.
pub const MONITOR_ON: isize = -1;

/// The power argument broadcast to switch the monitor off (`true`) or on again.
pub fn monitor_power_param(off: bool) -> (p: isize)
    ensures
        p == if off { MONITOR_OFF } else { MONITOR_ON },
{
    if off { MONITOR_OFF } else { MONITOR_ON }
}

} // verus!
