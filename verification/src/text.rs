//! Small verified helpers on strings: equality, prefix tests, and the
//! trigger-word gate applied to incoming messages.

use vstd::prelude::*;

verus! {

/// Character-for-character equality of two string slices.
pub fn str_eq(a: &str, b: &str) -> (r: bool)
    ensures
        r == (a@ == b@),
{
    let n = a.unicode_len();
    if n != b.unicode_len() {
        assert(a@ != b@) by {
            assert(a@.len() != b@.len());
        }
        return false;
    }
    let mut i: usize = 0;
    while i < n
        invariant
            n == a@.len(),
            n == b@.len(),
            i <= n,
            forall|k: int| 0 <= k < i ==> a@[k] == b@[k],
        decreases n - i,
    {
        if a.get_char(i) != b.get_char(i) {
            assert(a@[i as int] != b@[i as int]);
            return false;
        }
        i += 1;
    }
    proof {
        assert(a@ =~= b@);
    }
    true
}

/// If `msg` starts with `prefix`, the remainder of `msg` after that
/// prefix; otherwise nothing. Incoming chat messages must begin with the
/// configured trigger word before the orchestrator sees them, and the
/// trigger word itself is stripped.
pub fn strip_prefix_of(msg: &str, prefix: &str) -> (r: Option<String>)
    ensures
        match r {
            Some(rest) => prefix@.is_prefix_of(msg@) && rest@ == msg@.skip(
                prefix@.len() as int,
            ),
            None => !prefix@.is_prefix_of(msg@),
        },
{
    let n = prefix.unicode_len();
    let m = msg.unicode_len();
    if n > m {
        assert(!prefix@.is_prefix_of(msg@));
        return None;
    }
    let mut i: usize = 0;
    while i < n
        invariant
            n == prefix@.len(),
            m == msg@.len(),
            n <= m,
            i <= n,
            forall|k: int| 0 <= k < i ==> msg@[k] == prefix@[k],
        decreases n - i,
    {
        if msg.get_char(i) != prefix.get_char(i) {
            assert(msg@[i as int] != prefix@[i as int]);
            assert(!prefix@.is_prefix_of(msg@)) by {
                assert(msg@.subrange(0, n as int)[i as int] == msg@[i as int]);
            }
            return None;
        }
        i += 1;
    }
    proof {
        assert(prefix@ =~= msg@.subrange(0, n as int));
    }
    let rest = msg.substring_char(n, m);
    Some(rest.to_owned())
}

} // verus!
