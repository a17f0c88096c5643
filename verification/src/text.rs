//! Character and string helpers: ASCII case folding, string equality,
//! and substring search. Key names and device names are compared with
//! these, so they carry exact contracts.

use vstd::prelude::*;

verus! {

/// ASCII lower-casing of a single character; everything outside 'A'..'Z'
/// is left alone.
pub open spec fn spec_lower_char(c: char) -> char {
    if 'A' <= c && c <= 'Z' {
        (c as u8 + 32) as char
    } else {
        c
    }
}

/// ASCII lower-casing of a character sequence.
pub open spec fn spec_lower(s: Seq<char>) -> Seq<char> {
    s.map_values(|c: char| spec_lower_char(c))
}

pub fn lower_char(c: char) -> (r: char)
    ensures
        r == spec_lower_char(c),
{
    if 'A' <= c && c <= 'Z' {
        ((c as u8) + 32) as char
    } else {
        c
    }
}

/// Relies on `String::push`: appends one character at the end.
#[verifier::external_body]
pub(crate) fn push_char(s: &mut String, c: char)
    ensures
        final(s)@ == old(s)@.push(c),
{
    s.push(c)
}

/// A string of exactly one character.
pub fn char_to_string(c: char) -> (r: String)
    ensures
        r@ == seq![c],
{
    let mut r = String::new();
    push_char(&mut r, c);
    proof {
        assert(Seq::<char>::empty().push(c) =~= seq![c]);
    }
    r
}

/// ASCII-lower-cases a string, character by character.
pub fn ascii_lowercase(s: &str) -> (r: String)
    ensures
        r@ == spec_lower(s@),
{
    let n = s.unicode_len();
    let mut r = String::new();
    let mut i: usize = 0;
    while i < n
        invariant
            n == s@.len(),
            i <= n,
            r@ == spec_lower(s@.subrange(0, i as int)),
        decreases n - i,
    {
        let c = s.get_char(i);
        push_char(&mut r, lower_char(c));
        proof {
            assert(s@.subrange(0, i + 1).drop_last() =~= s@.subrange(0, i as int));
            assert(s@.subrange(0, i + 1).last() == s@[i as int]);
            assert(spec_lower(s@.subrange(0, i + 1)) =~= spec_lower(
                s@.subrange(0, i as int),
            ).push(spec_lower_char(s@[i as int])));
        }
        i = i + 1;
    }
    proof {
        assert(s@.subrange(0, n as int) =~= s@);
    }
    r
}

/// Character-wise string equality.
pub fn str_eq(a: &str, b: &str) -> (r: bool)
    ensures
        r == (a@ == b@),
{
    let an = a.unicode_len();
    let bn = b.unicode_len();
    if an != bn {
        proof {
            assert(a@ != b@) by {
                if a@ == b@ {
                    assert(a@.len() == b@.len());
                }
            }
        }
        return false;
    }
    let mut i: usize = 0;
    while i < an
        invariant
            an == a@.len(),
            an == b@.len(),
            i <= an,
            forall|j: int| 0 <= j < i ==> a@[j] == b@[j],
        decreases an - i,
    {
        if a.get_char(i) != b.get_char(i) {
            return false;
        }
        i = i + 1;
    }
    proof {
        assert(a@ =~= b@);
    }
    true
}

/// `needle` occurs in `hay` starting at position `at`.
pub open spec fn matches_at(hay: Seq<char>, needle: Seq<char>, at: int) -> bool {
    &&& 0 <= at
    &&& at + needle.len() <= hay.len()
    &&& hay.subrange(at, at + needle.len() as int) == needle
}

/// `needle` occurs somewhere in `hay`.
pub open spec fn spec_contains(hay: Seq<char>, needle: Seq<char>) -> bool {
    exists|at: int| matches_at(hay, needle, at)
}

/// Substring search, as the device filter uses it.
pub fn str_contains(hay: &str, needle: &str) -> (r: bool)
    ensures
        r == spec_contains(hay@, needle@),
{
    let hn = hay.unicode_len();
    let nn = needle.unicode_len();
    if nn == 0 {
        proof {
            assert(hay@.subrange(0, 0) =~= needle@);
            assert(matches_at(hay@, needle@, 0));
        }
        return true;
    }
    if nn > hn {
        proof {
            assert(!spec_contains(hay@, needle@)) by {
                if spec_contains(hay@, needle@) {
                    let at = choose|at: int| matches_at(hay@, needle@, at);
                    assert(at + needle@.len() <= hay@.len());
                }
            }
        }
        return false;
    }
    let mut start: usize = 0;
    while start <= hn - nn
        invariant
            hn == hay@.len(),
            nn == needle@.len(),
            1 <= nn <= hn,
            start <= hn - nn + 1,
            forall|at: int| 0 <= at < start ==> !matches_at(hay@, needle@, at),
        decreases hn + 1 - nn - start,
    {
        let mut k: usize = 0;
        let mut all_eq = true;
        while k < nn && all_eq
            invariant
                hn == hay@.len(),
                nn == needle@.len(),
                start + nn <= hn,
                k <= nn,
                all_eq ==> forall|j: int| 0 <= j < k ==> hay@[start + j] == needle@[j],
                !all_eq ==> !matches_at(hay@, needle@, start as int),
            decreases nn - k,
    {
            if hay.get_char(start + k) != needle.get_char(k) {
                all_eq = false;
                proof {
                    assert(!matches_at(hay@, needle@, start as int)) by {
                        if matches_at(hay@, needle@, start as int) {
                            assert(hay@.subrange(
                                start as int,
                                start + needle@.len() as int,
                            )[k as int] == needle@[k as int]);
                        }
                    }
                }
            }
            k = k + 1;
        }
        if all_eq {
            proof {
                assert(hay@.subrange(start as int, start + needle@.len() as int) =~= needle@);
                assert(matches_at(hay@, needle@, start as int));
            }
            return true;
        }
        start = start + 1;
    }
    proof {
        assert(!spec_contains(hay@, needle@)) by {
            if spec_contains(hay@, needle@) {
                let at = choose|at: int| matches_at(hay@, needle@, at);
                assert(at + needle@.len() <= hay@.len());
                assert(at < start);
            }
        }
    }
    false
}

} // verus!
