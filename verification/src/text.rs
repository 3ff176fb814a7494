//! Verified text helpers shared by the identifier types: character-wise
//! string equality, ASCII case normalization, and substring search.

use vstd::prelude::*;
use vstd::string::StrSliceExecFns;

verus! {

/// The ASCII uppercase form of `c`: lowercase ASCII letters are mapped to
/// their uppercase counterpart, every other character is left unchanged.
pub open spec fn upper_char(c: char) -> char {
    if 97 <= c as u32 <= 122 {
        ((c as u32 - 32) as u8) as char
    } else {
        c
    }
}

/// The ASCII uppercase form of a character sequence.
pub open spec fn upper_seq(s: Seq<char>) -> Seq<char> {
    Seq::new(s.len(), |i: int| upper_char(s[i]))
}

/// Whether `needle` occurs contiguously inside `hay`.
pub open spec fn has_substring(hay: Seq<char>, needle: Seq<char>) -> bool {
    exists|k: int| 0 <= k && k + needle.len() <= hay.len() && #[trigger] hay.subrange(
        k,
        k + needle.len(),
    ) == needle
}

/// Relies on std's String::push: it appends the character to the string.
#[verifier::external_body]
fn push_char(s: &mut String, c: char)
    ensures
        final(s)@ == old(s)@.push(c),
{
    s.push(c);
}

/// Whether two string slices hold the same characters.
pub fn str_eq(a: &str, b: &str) -> (r: bool)
    ensures
        r == (a@ == b@),
{
    let an = a.unicode_len();
    let bn = b.unicode_len();
    if an != bn {
        return false;
    }
    let mut i: usize = 0;
    while i < an
        invariant
            an == a@.len(),
            an == b@.len(),
            i <= an,
            forall|j: int| 0 <= j < i ==> a@[j] == b@[j],
        decreases an - i,
    {
        if a.get_char(i) != b.get_char(i) {
            return false;
        }
        i += 1;
    }
    proof {
        assert(a@ =~= b@);
    }
    true
}

/// The ASCII uppercase form of a string slice, as a new `String`.
pub fn to_upper(s: &str) -> (r: String)
    ensures
        r@ == upper_seq(s@),
{
    let n = s.unicode_len();
    let mut out = String::new();
    let mut i: usize = 0;
    while i < n
        invariant
            n == s@.len(),
            i <= n,
            out@ =~= upper_seq(s@).subrange(0, i as int),
        decreases n - i,
    {
        let c = s.get_char(i);
        let u = c as u32;
        let up: char = if 97 <= u && u <= 122 {
            ((u - 32) as u8) as char
        } else {
            c
        };
        push_char(&mut out, up);
        i += 1;
        proof {
            assert(out@ =~= upper_seq(s@).subrange(0, i as int));
        }
    }
    proof {
        assert(out@ =~= upper_seq(s@));
    }
    out
}

/// Whether `needle` occurs contiguously inside `hay`; the executable form
/// of `has_substring`.
pub fn contains_sub(hay: &str, needle: &str) -> (b: bool)
    ensures
        b == has_substring(hay@, needle@),
{
    let hn = hay.unicode_len();
    let nn = needle.unicode_len();
    if nn > hn {
        return false;
    }
    if nn == 0 {
        proof {
            assert(hay@.subrange(0, 0 + needle@.len() as int) =~= needle@);
        }
        return true;
    }
    let mut k: usize = 0;
    while k <= hn - nn
        invariant
            hn == hay@.len(),
            nn == needle@.len(),
            0 < nn <= hn,
            k <= hn - nn + 1,
            forall|k2: int| 0 <= k2 < k ==> #[trigger] hay@.subrange(k2, k2 + nn) != needle@,
        decreases hn - nn + 1 - k,
    {
        let mut m: usize = 0;
        let mut mismatch = false;
        while m < nn && !mismatch
            invariant
                hn == hay@.len(),
                nn == needle@.len(),
                k + nn <= hn,
                m <= nn,
                !mismatch ==> forall|j: int| 0 <= j < m ==> hay@[k + j] == needle@[j],
                mismatch ==> hay@.subrange(k as int, k + nn) != needle@,
            decreases nn - m + (if mismatch { 0int } else { 1int }),
        {
            if hay.get_char(k + m) != needle.get_char(m) {
                proof {
                    assert(hay@.subrange(k as int, k + nn)[m as int] == hay@[k + m]);
                }
                mismatch = true;
            } else {
                m += 1;
            }
        }
        if !mismatch {
            proof {
                assert(hay@.subrange(k as int, k + nn) =~= needle@);
            }
            return true;
        }
        k += 1;
    }
    proof {
        assert forall|k2: int| 0 <= k2 && k2 + needle@.len() <= hay@.len() implies #[trigger] hay@
            .subrange(k2, k2 + needle@.len()) != needle@ by {
            assert(k2 < k);
        }
    }
    false
}

} // verus!
