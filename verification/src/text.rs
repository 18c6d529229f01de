use vstd::prelude::*;
use vstd::string::*;

verus! {

/// The first `n` characters of `s`, or all of `s` when it is shorter.
pub open spec fn prefix(s: Seq<char>, n: int) -> Seq<char> {
    if s.len() <= n {
        s
    } else {
        s.take(n)
    }
}

/// The first `n` characters of a text are its beginning, at most `n` long, and all of it
/// when it is no longer than `n`.
pub proof fn lemma_prefix_is_beginning(s: Seq<char>, n: nat)
    ensures
        prefix(s, n as int).len() == if s.len() <= n { s.len() } else { n },
        prefix(s, n as int).is_prefix_of(s),
        s.len() <= n ==> prefix(s, n as int) == s,
{
}

/// The decimal digit character for `d` in `0..10`.
pub open spec fn digit_char(d: int) -> char {
    if d == 0 { '0' }
    else if d == 1 { '1' }
    else if d == 2 { '2' }
    else if d == 3 { '3' }
    else if d == 4 { '4' }
    else if d == 5 { '5' }
    else if d == 6 { '6' }
    else if d == 7 { '7' }
    else if d == 8 { '8' }
    else { '9' }
}

/// Decimal digits of a natural number, most significant first, without leading zeros.
pub open spec fn digits(n: nat) -> Seq<char>
    decreases n,
{
    if n < 10 {
        seq![digit_char(n as int)]
    } else {
        digits(n / 10).push(digit_char((n % 10) as int))
    }
}

/// Decimal text of an integer: a minus sign for negatives, then the digits.
pub open spec fn decimal(n: int) -> Seq<char> {
    if n < 0 {
        seq!['-'] + digits((-n) as nat)
    } else {
        digits(n as nat)
    }
}

/// Integer division rounding toward zero, as Rust's `/` on integers does.
pub open spec fn div_toward_zero(a: int, b: int) -> int {
    if a >= 0 {
        a / b
    } else {
        -((-a) / b)
    }
}

/// Calls `i64::to_string` from std, whose `Display` writes the plain decimal form:
/// a minus sign for negatives and no padding or leading zeros.
#[verifier::external_body]
pub(crate) fn decimal_text(n: i64) -> (r: String)
    ensures
        r@ == decimal(n as int),
{
    n.to_string()
}

/// The first `n` characters of `s` (all of them when `s` is shorter).
pub fn prefix_chars(s: &str, n: usize) -> (r: String)
    ensures
        r@ == prefix(s@, n as int),
{
    let len: usize = s.unicode_len();
    let end: usize = if len < n { len } else { n };
    let head = s.substring_char(0, end);
    let r = String::from_str(head);
    assert(s@.subrange(0, end as int) =~= prefix(s@, n as int));
    r
}

} // verus!
