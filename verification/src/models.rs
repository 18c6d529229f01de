use vstd::prelude::*;
use vstd::string::*;

verus! {

/// One focus session as it is kept in the session log.
#[derive(Debug, Clone, PartialEq)]
pub struct Session {
    pub id: i64,
    pub note: String,
    pub note_len: i64,
    pub planned_sec: i64,
    pub actual_sec: Option<i64>,
    pub started_at: String,
    pub ended_at: Option<String>,
    pub status: String,
}

impl Session {
    /// Length of a note counted in Unicode scalar values (one CJK character counts one).
    pub fn note_len_of(note: &str) -> (n: i64)
        requires
            note@.len() <= i64::MAX,
        ensures
            n == note@.len(),
    {
        let len: usize = note.unicode_len();
        len as i64
    }
}

/// The unit in which a focus duration is chosen.
#[derive(Debug, Clone, Copy, PartialEq, Eq, Structural)]
pub enum Unit {
    Minute,
    Hour,
    Day,
}

impl Unit {
    /// Seconds in one step of this unit.
    pub open spec fn factor(self) -> int {
        match self {
            Unit::Minute => 60,
            Unit::Hour => 3600,
            Unit::Day => 86400,
        }
    }

    /// Largest amount accepted for this unit (the smallest is always 1).
    pub open spec fn max_amount(self) -> int {
        match self {
            Unit::Minute => 59,
            Unit::Hour => 23,
            Unit::Day => 30,
        }
    }

    /// `amount` forced into `1 ..= max_amount()`.
    pub open spec fn clamped(self, amount: int) -> int {
        if amount < 1 {
            1
        } else if amount > self.max_amount() {
            self.max_amount()
        } else {
            amount
        }
    }

    /// Converts `amount` steps of this unit into seconds.
    pub fn seconds(self, amount: i64) -> (secs: i64)
        requires
            i64::MIN <= amount * self.factor() <= i64::MAX,
        ensures
            secs == amount * self.factor(),
    {
        match self {
            Unit::Minute => amount * 60,
            Unit::Hour => amount * 3600,
            Unit::Day => amount * 86400,
        }
    }

    /// Forces `amount` into the range the unit accepts: minutes 1–59, hours 1–23, days 1–30.
    pub fn clamp_amount(self, amount: i64) -> (a: i64)
        ensures
            a == self.clamped(amount as int),
    {
        let hi: i64 = match self {
            Unit::Minute => 59,
            Unit::Hour => 23,
            Unit::Day => 30,
        };
        if amount < 1 {
            1
        } else if amount > hi {
            hi
        } else {
            amount
        }
    }
}

/// Clamping lands in the unit's range, leaves amounts already in range untouched, and
/// clamping twice is clamping once.
pub proof fn lemma_clamp_domain(unit: Unit, amount: int)
    ensures
        1 <= unit.clamped(amount) <= unit.max_amount(),
        1 <= amount <= unit.max_amount() ==> unit.clamped(amount) == amount,
        unit.clamped(unit.clamped(amount)) == unit.clamped(amount),
{
}

/// Clamping keeps the order of amounts.
pub proof fn lemma_clamp_monotone(unit: Unit, a: int, b: int)
    requires
        a <= b,
    ensures
        unit.clamped(a) <= unit.clamped(b),
{
}

/// Every clamped duration lasts from one minute to thirty days, so it always fits.
pub proof fn lemma_clamped_duration_bounds(unit: Unit, amount: int)
    ensures
        60 <= unit.clamped(amount) * unit.factor() <= 2_592_000,
{
    let c: int = unit.clamped(amount);
    match unit {
        Unit::Minute => {
            assert(60 <= c * 60 <= 3540) by (nonlinear_arith) requires 1 <= c <= 59;
        },
        Unit::Hour => {
            assert(3600 <= c * 3600 <= 82800) by (nonlinear_arith) requires 1 <= c <= 23;
        },
        Unit::Day => {
            assert(86400 <= c * 86400 <= 2_592_000) by (nonlinear_arith) requires 1 <= c <= 30;
        },
    }
}

} // verus!
