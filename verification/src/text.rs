//! ASCII-case-insensitive string comparison, used to parse filing statuses,
//! jurisdiction codes and record keys.

use vstd::prelude::*;

verus! {

/// The code point of `c` with an ASCII upper-case letter folded to lower case.
pub open spec fn lower_code(c: int) -> int {
    if 65 <= c <= 90 {
        c + 32
    } else {
        c
    }
}

/// Two character sequences are equal up to ASCII case.
pub open spec fn chars_eq_ci(a: Seq<char>, b: Seq<char>) -> bool {
    &&& a.len() == b.len()
    &&& forall|i: int| 0 <= i < a.len() ==> lower_code(a[i] as int) == lower_code(b[i] as int)
}

/// Compares two strings ignoring the case of ASCII letters.
pub fn str_eq_ignore_case(a: &str, b: &str) -> (r: bool)
    ensures
        r == chars_eq_ci(a@, b@),
{
    let alen = a.unicode_len();
    let blen = b.unicode_len();
    if alen != blen {
        return false;
    }
    let mut i: usize = 0;
    while i < alen
        invariant
            alen == a@.len(),
            blen == b@.len(),
            alen == blen,
            i <= alen,
            forall|j: int| 0 <= j < i ==> lower_code(a@[j] as int) == lower_code(b@[j] as int),
        decreases alen - i,
    {
        let ca = a.get_char(i);
        let cb = b.get_char(i);
        let ua = ca as u32;
        let ub = cb as u32;
        let la = if 65 <= ua && ua <= 90 { ua + 32 } else { ua };
        let lb = if 65 <= ub && ub <= 90 { ub + 32 } else { ub };
        if la != lb {
            return false;
        }
        i += 1;
    }
    true
}

/// Tests whether `prefix` is a prefix of `s`, character for character.
pub fn str_starts_with(s: &str, prefix: &str) -> (r: bool)
    ensures
        r == (s@.len() >= prefix@.len() && s@.subrange(0, prefix@.len() as int) == prefix@),
{
    let plen = prefix.unicode_len();
    let slen = s.unicode_len();
    if slen < plen {
        return false;
    }
    let mut i: usize = 0;
    while i < plen
        invariant
            plen == prefix@.len(),
            slen == s@.len(),
            plen <= slen,
            i <= plen,
            forall|j: int| 0 <= j < i ==> s@[j] == prefix@[j],
        decreases plen - i,
    {
        if s.get_char(i) != prefix.get_char(i) {
            proof {
                assert(s@.subrange(0, plen as int)[i as int] != prefix@[i as int]);
            }
            return false;
        }
        i += 1;
    }
    proof {
        assert(s@.subrange(0, plen as int) =~= prefix@);
    }
    true
}

} // verus!
