use vstd::prelude::*;
use vstd::string::*;
use crate::models::Session;
use crate::text::{decimal, decimal_text, div_toward_zero, prefix_chars};

verus! {

/// Characters of the note quoted in the completion notification.
pub const NOTE_QUOTE_CHARS: usize = 24;

/// `s` cut to `n` characters, with an ellipsis when something was cut.
pub open spec fn truncated(s: Seq<char>, n: int) -> Seq<char> {
    if s.len() <= n {
        s
    } else {
        s.take(n) + seq!['…']
    }
}

/// Cuts `s` to its first `n` characters and marks the cut with "…"; a string of at most
/// `n` characters is kept whole.
pub fn truncate(s: &str, n: usize) -> (r: String)
    ensures
        r@ == truncated(s@, n as int),
{
    if s.unicode_len() <= n {
        String::from_str(s)
    } else {
        let head = prefix_chars(s, n);
        let r = head.concat("…");
        proof {
            reveal_strlit("…");
        }
        r
    }
}

/// A cut note is the beginning of the note, at most `n` characters plus the ellipsis; a
/// note of at most `n` characters is kept whole, and a longer one ends with the ellipsis.
pub proof fn lemma_truncate_keeps_the_beginning(s: Seq<char>, n: nat)
    ensures
        truncated(s, n as int).len() <= n + 1,
        s.len() <= n ==> truncated(s, n as int) == s,
        s.len() > n ==> truncated(s, n as int).len() == n + 1 && truncated(s, n as int)[n as int] == '…'
            && truncated(s, n as int).take(n as int) == s.take(n as int),
{
    if s.len() > n {
        assert(truncated(s, n as int).take(n as int) =~= s.take(n as int));
    }
}

/// The body of the completion notification: the note (cut to 24 characters) when there
/// is one, the focused minutes, and the note's length in characters.
pub open spec fn done_body_text(note: Seq<char>, planned_sec: int) -> Seq<char> {
    let minutes = decimal(div_toward_zero(planned_sec, 60));
    let tail = "专注 "@ + minutes + " 分钟，备注 "@ + decimal(note.len() as int) + " 字"@;
    if note.len() == 0 {
        tail
    } else {
        "「"@ + truncated(note, NOTE_QUOTE_CHARS as int) + "」"@ + tail
    }
}

/// Text of the notification shown when a session completes.
pub fn done_body(note: &str, planned_sec: i64) -> (r: String)
    requires
        note@.len() <= i64::MAX,
    ensures
        r@ == done_body_text(note@, planned_sec as int),
{
    let minutes: i64 = planned_sec / 60;
    assert(minutes == div_toward_zero(planned_sec as int, 60));
    let digits = decimal_text(minutes);
    let count = decimal_text(Session::note_len_of(note));
    let mut tail = String::from_str("专注 ");
    tail.append(digits.as_str());
    tail.append(" 分钟，备注 ");
    tail.append(count.as_str());
    tail.append(" 字");
    if note.unicode_len() == 0 {
        tail
    } else {
        let quoted = truncate(note, NOTE_QUOTE_CHARS);
        let mut body = String::from_str("「");
        body.append(quoted.as_str());
        body.append("」");
        body.append(tail.as_str());
        body
    }
}

} // verus!
