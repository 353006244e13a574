//! The time-of-day tool: the current local time as an RFC 3339 timestamp,
//! together with a verified checker for the timestamp shape.

use vstd::prelude::*;

verus! {

pub open spec fn is_dec_digit(c: char) -> bool {
    '0' <= c && c <= '9'
}

/// Index of the first character at or after `i` that is not a decimal
/// digit (the length of the sequence if all are digits).
pub open spec fn digit_run_end(s: Seq<char>, i: int) -> int
    decreases s.len() - i when 0 <= i <= s.len()
{
    if i < s.len() && is_dec_digit(s[i]) {
        digit_run_end(s, i + 1)
    } else {
        i
    }
}

pub(crate) proof fn lemma_digit_run_end_is(s: Seq<char>, i: int, e: int)
    requires
        0 <= i <= e <= s.len(),
        forall|k: int| i <= k < e ==> is_dec_digit(#[trigger] s[k]),
        e < s.len() ==> !is_dec_digit(s[e]),
    ensures
        digit_run_end(s, i) == e,
    decreases e - i,
{
    if i < e {
        lemma_digit_run_end_is(s, i + 1, e);
    }
}

/// The fixed `-MM-DDTHH:MM:SS` block that follows the year digits.
pub open spec fn datetime_shape(s: Seq<char>, ye: int) -> bool {
    &&& s[ye] == '-'
    &&& is_dec_digit(s[ye + 1])
    &&& is_dec_digit(s[ye + 2])
    &&& s[ye + 3] == '-'
    &&& is_dec_digit(s[ye + 4])
    &&& is_dec_digit(s[ye + 5])
    &&& s[ye + 6] == 'T'
    &&& is_dec_digit(s[ye + 7])
    &&& is_dec_digit(s[ye + 8])
    &&& s[ye + 9] == ':'
    &&& is_dec_digit(s[ye + 10])
    &&& is_dec_digit(s[ye + 11])
    &&& s[ye + 12] == ':'
    &&& is_dec_digit(s[ye + 13])
    &&& is_dec_digit(s[ye + 14])
}

/// The timezone part: `Z`, or a sign followed by `HH:MM`.
pub open spec fn offset_shape(s: Seq<char>, j: int) -> bool {
    if s.len() == j + 1 {
        s[j] == 'Z'
    } else {
        &&& s.len() == j + 6
        &&& (s[j] == '+' || s[j] == '-')
        &&& is_dec_digit(s[j + 1])
        &&& is_dec_digit(s[j + 2])
        &&& s[j + 3] == ':'
        &&& is_dec_digit(s[j + 4])
        &&& is_dec_digit(s[j + 5])
    }
}

/// Optional fractional seconds (a dot and at least one digit), then the
/// timezone part.
pub open spec fn frac_and_offset(s: Seq<char>, j: int) -> bool {
    if 0 <= j < s.len() && s[j] == '.' {
        let fe = digit_run_end(s, j + 1);
        fe > j + 1 && offset_shape(s, fe)
    } else {
        offset_shape(s, j)
    }
}

/// An RFC 3339 timestamp: an optionally signed year of at least four
/// digits, `-MM-DDTHH:MM:SS`, optional fractional seconds, and either `Z`
/// or a numeric offset `±HH:MM`.
pub open spec fn is_rfc3339(s: Seq<char>) -> bool {
    let i0: int = if s.len() > 0 && (s[0] == '+' || s[0] == '-') {
        1
    } else {
        0
    };
    let ye = digit_run_end(s, i0);
    &&& ye - i0 >= 4
    &&& s.len() >= ye + 15
    &&& datetime_shape(s, ye)
    &&& frac_and_offset(s, ye + 15)
}

fn is_digit_char(c: char) -> (r: bool)
    ensures
        r == is_dec_digit(c),
{
    '0' <= c && c <= '9'
}

/// Decides `is_rfc3339` on a given string.
pub fn matches_rfc3339(s: &str) -> (r: bool)
    ensures
        r == is_rfc3339(s@),
{
    let n = s.unicode_len();
    let mut i0: usize = 0;
    if n > 0 {
        let c0 = s.get_char(0);
        if c0 == '+' || c0 == '-' {
            i0 = 1;
        }
    }
    let mut ye: usize = i0;
    while ye < n && is_digit_char(s.get_char(ye))
        invariant
            n == s@.len(),
            i0 <= ye <= n,
            forall|k: int| i0 <= k < ye ==> is_dec_digit(#[trigger] s@[k]),
        decreases n - ye,
    {
        ye += 1;
    }
    proof {
        lemma_digit_run_end_is(s@, i0 as int, ye as int);
    }
    if ye - i0 < 4 {
        return false;
    }
    if n - ye < 15 {
        return false;
    }
    let ok = s.get_char(ye) == '-' && is_digit_char(s.get_char(ye + 1)) && is_digit_char(
        s.get_char(ye + 2),
    ) && s.get_char(ye + 3) == '-' && is_digit_char(s.get_char(ye + 4)) && is_digit_char(
        s.get_char(ye + 5),
    ) && s.get_char(ye + 6) == 'T' && is_digit_char(s.get_char(ye + 7)) && is_digit_char(
        s.get_char(ye + 8),
    ) && s.get_char(ye + 9) == ':' && is_digit_char(s.get_char(ye + 10)) && is_digit_char(
        s.get_char(ye + 11),
    ) && s.get_char(ye + 12) == ':' && is_digit_char(s.get_char(ye + 13)) && is_digit_char(
        s.get_char(ye + 14),
    );
    if !ok {
        return false;
    }
    let mut j: usize = ye + 15;
    if j < n && s.get_char(j) == '.' {
        let mut fe: usize = j + 1;
        while fe < n && is_digit_char(s.get_char(fe))
            invariant
                n == s@.len(),
                j + 1 <= fe <= n,
                forall|k: int| j + 1 <= k < fe ==> is_dec_digit(#[trigger] s@[k]),
            decreases n - fe,
        {
            fe += 1;
        }
        proof {
            lemma_digit_run_end_is(s@, j as int + 1, fe as int);
        }
        if fe == j + 1 {
            return false;
        }
        j = fe;
    }
    if n - j == 1 {
        return s.get_char(j) == 'Z';
    }
    if n - j != 6 {
        return false;
    }
    let cj = s.get_char(j);
    (cj == '+' || cj == '-') && is_digit_char(s.get_char(j + 1)) && is_digit_char(
        s.get_char(j + 2),
    ) && s.get_char(j + 3) == ':' && is_digit_char(s.get_char(j + 4)) && is_digit_char(
        s.get_char(j + 5),
    )
}

/// Relies on `chrono::Local::now` and `chrono::DateTime::to_rfc3339`:
/// the current local time, rendered as an RFC 3339 timestamp (a year of
/// at least four digits, `-MM-DDTHH:MM:SS`, optional fractional seconds,
/// and a numeric UTC offset).
#[verifier::external_body]
pub(crate) fn now_rfc3339() -> (r: String)
    ensures
        is_rfc3339(r@),
{
    chrono::Local::now().to_rfc3339()
}

} // verus!
