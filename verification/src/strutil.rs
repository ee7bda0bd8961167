//! Small executable helpers over `&str` with exact contracts on the
//! character-sequence views.
use vstd::prelude::*;

verus! {

/// Character-for-character equality of two string slices.
pub fn str_eq(a: &str, b: &str) -> (r: bool)
    ensures
        r == (a@ == b@),
{
    let sa: String = a.to_owned();
    let sb: String = b.to_owned();
    sa == sb
}

/// Whether `s` begins with the characters of `prefix`.
pub fn starts_with_str(s: &str, prefix: &str) -> (r: bool)
    ensures
        r == (s@.len() >= prefix@.len() && s@.subrange(0, prefix@.len() as int) == prefix@),
{
    let n = prefix.unicode_len();
    let m = s.unicode_len();
    if m < n {
        return false;
    }
    let head = s.substring_char(0, n);
    str_eq(head, prefix)
}

/// The characters of `s` from position `from` to the end.
pub fn suffix_from(s: &str, from: usize) -> (r: &str)
    requires
        from <= s@.len(),
    ensures
        r@ == s@.subrange(from as int, s@.len() as int),
{
    let m = s.unicode_len();
    s.substring_char(from, m)
}

/// Whether the character `c` occurs in `s`.
pub fn contains_char(s: &str, c: char) -> (r: bool)
    ensures
        r == s@.contains(c),
{
    let n = s.unicode_len();
    let mut i: usize = 0;
    while i < n
        invariant
            i <= n,
            n == s@.len(),
            forall|j: int| 0 <= j < i ==> s@[j] != c,
        decreases n - i,
    {
        if s.get_char(i) == c {
            assert(s@[i as int] == c);
            return true;
        }
        i = i + 1;
    }
    assert(forall|j: int| 0 <= j < s@.len() ==> s@[j] != c);
    false
}

} // verus!
