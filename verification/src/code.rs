//! Generic fixed-length, charset-constrained string code: the foundation
//! every identifier field of the crate is built from.

use crate::error::Error;
use crate::is_ascii_digit;
use crate::is_upper_alpha;
use vstd::prelude::*;
use vstd::string::StrSliceExecFns;

verus! {

/// `Charset` is a pure per-character policy restricting which characters
/// a code may contain.
#[derive(Clone, Copy, Debug, PartialEq, Eq, PartialOrd, Ord, Structural)]
pub enum Charset {
    /// ASCII uppercase letters only.
    UpperAlpha,
    /// ASCII uppercase letters and digits.
    UpperAlnum,
    /// ASCII digits only.
    Digit,
}

/// Whether the character `c` satisfies the policy `policy`.
pub open spec fn charset_allows(policy: Charset, c: char) -> bool {
    match policy {
        Charset::UpperAlpha => is_upper_alpha(c),
        Charset::UpperAlnum => is_upper_alpha(c) || is_ascii_digit(c),
        Charset::Digit => is_ascii_digit(c),
    }
}

/// What `Code::new` accepts: exactly `length` characters, every one of
/// them satisfying `policy`.
pub open spec fn code_ok(s: Seq<char>, length: int, policy: Charset) -> bool {
    s.len() == length && (forall|i: int| 0 <= i < s.len() ==> charset_allows(policy, s[i]))
}

/// `Code` is a fixed-length validated string. Construction through `new`
/// is the only way to obtain one, and a constructed instance always has
/// exactly its length and only characters its policy allows.
#[derive(Clone, Debug, PartialEq, Eq, PartialOrd, Ord)]
pub struct Code {
    text: String,
    length: usize,
    policy: Charset,
}

impl View for Code {
    type V = Seq<char>;

    closed spec fn view(&self) -> Seq<char> {
        self.text@
    }
}

/// Whether `c` satisfies `policy`; the executable form of `charset_allows`.
pub fn charset_check(policy: Charset, c: char) -> (b: bool)
    ensures
        b == charset_allows(policy, c),
{
    let u = c as u32;
    match policy {
        Charset::UpperAlpha => 65 <= u && u <= 90,
        Charset::UpperAlnum => (65 <= u && u <= 90) || (48 <= u && u <= 57),
        Charset::Digit => 48 <= u && u <= 57,
    }
}

impl Code {
    /// The exact length this code was constructed with.
    pub closed spec fn spec_length(&self) -> int {
        self.length as int
    }

    /// The charset policy this code was constructed with.
    pub closed spec fn spec_policy(&self) -> Charset {
        self.policy
    }

    /// Well-formedness: the stored text satisfies the stored length and
    /// policy. Established by `new` and never broken afterwards.
    pub open spec fn wf(&self) -> bool {
        code_ok(self@, self.spec_length(), self.spec_policy())
    }

    /// `is_valid` returns whether a provided code is valid, by checking
    /// its length and the kind of characters used: the same rule as `new`,
    /// usable as a pre-check without constructing a value.
    pub fn is_valid(text: &str, length: usize, policy: Charset) -> (b: bool)
        ensures
            b == code_ok(text@, length as int, policy),
    {
        let n = text.unicode_len();
        if n != length {
            return false;
        }
        let mut i: usize = 0;
        while i < n
            invariant
                n == text@.len(),
                i <= n,
                forall|j: int| 0 <= j < i ==> charset_allows(policy, text@[j]),
            decreases n - i,
        {
            let c = text.get_char(i);
            if !charset_check(policy, c) {
                return false;
            }
            i += 1;
        }
        true
    }

    /// `new` creates a `Code` from a string: it succeeds if and only if
    /// the text has exactly `length` characters, all satisfying `policy`,
    /// and never truncates or pads.
    pub fn new(text: &str, length: usize, policy: Charset) -> (r: Result<Code, Error>)
        ensures
            r is Ok <==> code_ok(text@, length as int, policy),
            r is Ok ==> r->Ok_0@ == text@ && r->Ok_0.spec_length() == length as int
                && r->Ok_0.spec_policy() == policy && r->Ok_0.wf(),
            r is Err ==> r->Err_0 == Error::InvalidFormat,
    {
        if Code::is_valid(text, length, policy) {
            Ok(Code { text: text.to_owned(), length, policy })
        } else {
            Err(Error::InvalidFormat)
        }
    }

    /// `as_str` returns the `Code` as a string slice.
    pub fn as_str(&self) -> (r: &str)
        ensures
            r@ == self@,
    {
        self.text.as_str()
    }

    /// `validate` re-runs the `is_valid` rule against the stored text. It
    /// fails exactly when the stored text breaks the invariant, which can
    /// only happen to a value that bypassed `new`.
    pub fn validate(&self) -> (r: Result<(), Error>)
        ensures
            r is Ok <==> self.wf(),
            r is Err ==> r->Err_0 == Error::InvalidFormat,
    {
        if Code::is_valid(self.text.as_str(), self.length, self.policy) {
            Ok(())
        } else {
            Err(Error::InvalidFormat)
        }
    }
}

} // verus!
