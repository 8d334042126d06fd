//! Small verified helpers for working with strings at the character level:
//! ASCII case folding and comparisons against string literals.

use vstd::prelude::*;

verus! {

/// ASCII lower-casing of a single character; other characters are unchanged.
pub open spec fn lower_char(c: char) -> char {
    if 65 <= c as u32 && c as u32 <= 90 {
        (((c as u32) + 32) as u8) as char
    } else {
        c
    }
}

/// Executable ASCII lower-casing of one character.
pub fn lower_char_exec(c: char) -> (d: char)
    ensures
        d == lower_char(c),
{
    let u: u32 = c as u32;
    if 65 <= u && u <= 90 {
        ((u + 32) as u8) as char
    } else {
        c
    }
}

/// ASCII lower-casing of a whole character sequence.
pub open spec fn lower_chars(s: Seq<char>) -> Seq<char> {
    s.map(|_i: int, c: char| lower_char(c))
}

/// Lower-cases every character of `s` into a vector of characters.
pub fn to_lower_chars(s: &str) -> (r: Vec<char>)
    ensures
        r@ == lower_chars(s@),
{
    let n: usize = s.unicode_len();
    let mut v: Vec<char> = Vec::new();
    for i in 0..n
        invariant
            n == s@.len(),
            v@.len() == i,
            forall|j: int| 0 <= j < i ==> v@[j] == lower_char(s@[j]),
    {
        let c: char = s.get_char(i);
        v.push(lower_char_exec(c));
    }
    proof {
        assert(v@ =~= lower_chars(s@));
    }
    v
}

/// Compares a character vector against a string.
pub fn chars_eq_str(v: &Vec<char>, lit: &str) -> (r: bool)
    ensures
        r == (v@ == lit@),
{
    let n: usize = lit.unicode_len();
    if v.len() != n {
        proof {
            assert(v@.len() != lit@.len());
        }
        return false;
    }
    for i in 0..n
        invariant
            n == lit@.len(),
            v@.len() == n,
            forall|j: int| 0 <= j < i ==> v@[j] == lit@[j],
    {
        if v[i] != lit.get_char(i) {
            proof {
                assert(v@[i as int] != lit@[i as int]);
            }
            return false;
        }
    }
    proof {
        assert(v@ =~= lit@);
    }
    true
}

/// Compares the range `lo..hi` of a character vector against a string.
pub fn range_eq_str(v: &Vec<char>, lo: usize, hi: usize, lit: &str) -> (r: bool)
    requires
        lo <= hi <= v@.len(),
    ensures
        r == (v@.subrange(lo as int, hi as int) == lit@),
{
    let n: usize = lit.unicode_len();
    if hi - lo != n {
        proof {
            assert(v@.subrange(lo as int, hi as int).len() != lit@.len());
        }
        return false;
    }
    for i in 0..n
        invariant
            n == lit@.len(),
            lo <= hi <= v@.len(),
            hi - lo == n,
            forall|j: int| 0 <= j < i ==> v@[lo + j] == lit@[j],
    {
        if v[lo + i] != lit.get_char(i) {
            proof {
                assert(v@.subrange(lo as int, hi as int)[i as int] != lit@[i as int]);
            }
            return false;
        }
    }
    proof {
        assert(v@.subrange(lo as int, hi as int) =~= lit@);
    }
    true
}

/// Compares two strings character by character.
pub fn str_eq_str(s: &str, lit: &str) -> (r: bool)
    ensures
        r == (s@ == lit@),
{
    let n: usize = lit.unicode_len();
    if s.unicode_len() != n {
        proof {
            assert(s@.len() != lit@.len());
        }
        return false;
    }
    for i in 0..n
        invariant
            n == lit@.len(),
            s@.len() == n,
            forall|j: int| 0 <= j < i ==> s@[j] == lit@[j],
    {
        if s.get_char(i) != lit.get_char(i) {
            proof {
                assert(s@[i as int] != lit@[i as int]);
            }
            return false;
        }
    }
    proof {
        assert(s@ =~= lit@);
    }
    true
}

/// Index of the last underscore of `s`, if any.
pub open spec fn last_underscore(s: Seq<char>) -> Option<int>
    decreases s.len(),
{
    if s.len() == 0 {
        None
    } else if s[s.len() - 1] == '_' {
        Some(s.len() - 1)
    } else {
        last_underscore(s.take(s.len() - 1))
    }
}

/// Finds the index of the last underscore of `v`, if any.
pub fn find_last_underscore(v: &Vec<char>) -> (r: Option<usize>)
    ensures
        match r {
            Some(i) => i < v@.len() && last_underscore(v@) == Some(i as int),
            None => last_underscore(v@).is_none(),
        },
{
    let mut i: usize = v.len();
    proof {
        assert(v@.take(v@.len() as int) =~= v@);
    }
    while i > 0
        invariant
            i <= v@.len(),
            last_underscore(v@) == last_underscore(v@.take(i as int)),
        decreases i,
    {
        i = i - 1;
        if v[i] == '_' {
            proof {
                assert(v@.take(i + 1)[i as int] == '_');
            }
            return Some(i);
        }
        proof {
            assert(v@.take(i + 1).take(i as int) =~= v@.take(i as int));
            assert(v@.take(i + 1)[i as int] != '_');
        }
    }
    proof {
        assert(v@.take(0) =~= Seq::<char>::empty());
    }
    None
}

} // verus!
