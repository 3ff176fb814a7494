//! International Bank Account Number (IBAN) as defined by ISO 13616, with
//! its check digits and Basic Bank Account Number (BBAN) sub-fields.

use crate::code::Charset;
use crate::code::Code;
use crate::code::charset_allows;
use crate::code::code_ok;
use crate::error::Error;
use crate::iso3166::CountryCode;
use crate::iso3166::country_code_ok;
use crate::is_ascii_digit;
use crate::is_lower_alpha;
use crate::is_upper_alpha;
use crate::text::to_upper;
use crate::text::upper_char;
use crate::text::upper_seq;
use vstd::prelude::*;
use vstd::string::StrSliceExecFns;
use vstd::string::StringExecFns;

verus! {

/// What `CheckDigits::new` accepts: exactly two ASCII digits.
pub open spec fn check_digits_ok(s: Seq<char>) -> bool {
    code_ok(s, 2, Charset::Digit)
}

/// `MAX_LENGTH` is a `BBAN` code maximum length.
pub const MAX_LENGTH: usize = 30;

/// A character `BBAN::new` accepts: an ASCII letter of either case, or an
/// ASCII digit. Case is accepted on input and normalized away.
pub open spec fn bban_char_ok(c: char) -> bool {
    is_upper_alpha(c) || is_lower_alpha(c) || is_ascii_digit(c)
}

/// What `BBAN::new` accepts: at most thirty characters, every one an ASCII
/// letter or digit of either case.
pub open spec fn bban_input_ok(s: Seq<char>) -> bool {
    s.len() <= MAX_LENGTH && (forall|i: int| 0 <= i < s.len() ==> bban_char_ok(s[i]))
}

/// What a constructed `BBAN` stores: the input uppercased, so at most
/// thirty ASCII uppercase letters or digits.
pub open spec fn bban_stored_ok(s: Seq<char>) -> bool {
    s.len() <= MAX_LENGTH && (forall|i: int|
        0 <= i < s.len() ==> charset_allows(Charset::UpperAlnum, s[i]))
}

/// `CheckDigits` are the third and fourth characters of an IBAN.
#[derive(Clone, Debug, PartialEq, Eq, PartialOrd, Ord)]
pub struct CheckDigits(Code);

impl View for CheckDigits {
    type V = Seq<char>;

    closed spec fn view(&self) -> Seq<char> {
        self.0@
    }
}

impl CheckDigits {
    /// Well-formedness: the stored text is structurally valid check
    /// digits. Established by `new` and never broken afterwards.
    pub open spec fn wf(&self) -> bool {
        check_digits_ok(self@)
    }

    /// `is_valid` returns whether provided check digits are valid, by
    /// checking length and the kind of characters used.
    pub fn is_valid(code: &str) -> (b: bool)
        ensures
            b == check_digits_ok(code@),
    {
        Code::is_valid(code, 2, Charset::Digit)
    }

    /// `new` creates `CheckDigits`; it succeeds if and only if the text is
    /// structurally valid.
    pub fn new(code: &str) -> (r: Result<CheckDigits, Error>)
        ensures
            r is Ok <==> check_digits_ok(code@),
            r is Ok ==> r->Ok_0@ == code@ && r->Ok_0.wf(),
            r is Err ==> r->Err_0 == Error::InvalidFormat,
    {
        match Code::new(code, 2, Charset::Digit) {
            Ok(c) => Ok(CheckDigits(c)),
            Err(e) => Err(e),
        }
    }

    /// `as_str` returns the `CheckDigits` as a string slice.
    pub fn as_str(&self) -> (r: &str)
        ensures
            r@ == self@,
    {
        self.0.as_str()
    }

    /// `validate` re-runs the `is_valid` rule against the stored text.
    pub fn validate(&self) -> (r: Result<(), Error>)
        ensures
            r is Ok <==> self.wf(),
            r is Err ==> r->Err_0 == Error::InvalidFormat,
    {
        if Code::is_valid(self.0.as_str(), 2, Charset::Digit) {
            Ok(())
        } else {
            Err(Error::InvalidFormat)
        }
    }
}

/// `BBAN` is the country-specific account identifier portion of an IBAN:
/// variable length, alphanumeric, normalized to uppercase at construction.
#[derive(Clone, Debug, PartialEq, Eq, PartialOrd, Ord)]
pub struct BBAN(String);

impl View for BBAN {
    type V = Seq<char>;

    closed spec fn view(&self) -> Seq<char> {
        self.0@
    }
}

impl BBAN {
    /// Well-formedness: the stored text is uppercased valid BBAN content.
    /// Established by `new` and never broken afterwards.
    pub open spec fn wf(&self) -> bool {
        bban_stored_ok(self@)
    }

    /// `is_valid` returns whether a provided code is valid, by checking
    /// its length and the kind of characters used; either letter case is
    /// acceptable here, since `new` normalizes case.
    pub fn is_valid(code: &str) -> (b: bool)
        ensures
            b == bban_input_ok(code@),
    {
        let n = code.unicode_len();
        if n > MAX_LENGTH {
            return false;
        }
        let mut i: usize = 0;
        while i < n
            invariant
                n == code@.len(),
                i <= n,
                forall|j: int| 0 <= j < i ==> bban_char_ok(code@[j]),
            decreases n - i,
        {
            let u = code.get_char(i) as u32;
            let ok = (65 <= u && u <= 90) || (97 <= u && u <= 122) || (48 <= u && u <= 57);
            if !ok {
                return false;
            }
            i += 1;
        }
        true
    }

    /// `new` creates a `BBAN` from a string: the text is uppercased first,
    /// then required to be at most thirty alphanumeric characters. Success
    /// depends on the text alone; the stored value is its uppercase form.
    pub fn new(code: &str) -> (r: Result<BBAN, Error>)
        ensures
            r is Ok <==> bban_input_ok(code@),
            r is Ok ==> r->Ok_0@ == upper_seq(code@) && r->Ok_0.wf(),
            r is Err ==> r->Err_0 == Error::InvalidFormat,
    {
        let up = to_upper(code);
        proof {
            assert forall|i: int| 0 <= i < code@.len() implies (bban_char_ok(
                #[trigger] code@[i],
            ) == charset_allows(Charset::UpperAlnum, upper_seq(code@)[i])) by {
                assert(upper_seq(code@)[i] == upper_char(code@[i]));
            }
        }
        let valid = BBAN::is_valid(up.as_str());
        proof {
            assert forall|i: int| 0 <= i < up@.len() implies (bban_char_ok(#[trigger] up@[i])
                == charset_allows(Charset::UpperAlnum, up@[i])) by {
                assert(up@[i] == upper_char(code@[i]));
            }
        }
        if valid {
            Ok(BBAN(up))
        } else {
            Err(Error::InvalidFormat)
        }
    }

    /// `as_str` returns the `BBAN` as a string slice.
    pub fn as_str(&self) -> (r: &str)
        ensures
            r@ == self@,
    {
        self.0.as_str()
    }

    /// `validate` re-runs the `is_valid` rule against the stored text: only
    /// max-length and the alphanumeric charset are the invariants, so stored
    /// text of either letter case passes, as it would have passed `new`.
    pub fn validate(&self) -> (r: Result<(), Error>)
        ensures
            r is Ok <==> bban_input_ok(self@),
            r is Err ==> r->Err_0 == Error::InvalidFormat,
    {
        if BBAN::is_valid(self.0.as_str()) {
            Ok(())
        } else {
            Err(Error::InvalidFormat)
        }
    }
}

/// What `IBAN::parse` accepts: four to thirty-four characters splitting
/// into a valid country code, valid check digits and acceptable BBAN text.
pub open spec fn iban_parse_ok(s: Seq<char>) -> bool {
    &&& 4 <= s.len() <= 34
    &&& country_code_ok(s.subrange(0, 2))
    &&& check_digits_ok(s.subrange(2, 4))
    &&& bban_input_ok(s.subrange(4, s.len() as int))
}

/// `IBAN` is an ISO 13616 International Bank Account Number: a structural
/// aggregate of its three sub-fields. No checksum is computed or verified
/// here; only structural validity is enforced.
#[derive(Clone, Debug, PartialEq, Eq, PartialOrd, Ord)]
pub struct IBAN {
    pub country: CountryCode,
    pub check: CheckDigits,
    pub bban: BBAN,
}

impl IBAN {
    /// Well-formedness: every sub-field well-formed.
    pub open spec fn wf(&self) -> bool {
        &&& self.country.wf()
        &&& self.check.wf()
        &&& self.bban.wf()
    }

    /// The canonical textual form: the three sub-fields concatenated.
    pub open spec fn spec_text(&self) -> Seq<char> {
        self.country@ + self.check@ + self.bban@
    }

    /// `parse` reads an IBAN from its textual form: country code, check
    /// digits, then the BBAN remainder, whose case is normalized. It fails,
    /// at the first offending sub-field, if and only if the input fails the
    /// structural rule.
    pub fn parse(text: &str) -> (r: Result<IBAN, Error>)
        ensures
            r is Ok <==> iban_parse_ok(text@),
            r is Ok ==> ({
                let b = r->Ok_0;
                &&& b.wf()
                &&& b.country@ == text@.subrange(0, 2)
                &&& b.check@ == text@.subrange(2, 4)
                &&& b.bban@ == upper_seq(text@.subrange(4, text@.len() as int))
            }),
            r is Err ==> r->Err_0 == Error::InvalidFormat,
    {
        let n = text.unicode_len();
        if n < 4 || n > 34 {
            return Err(Error::InvalidFormat);
        }
        let country = match CountryCode::new(text.substring_char(0, 2)) {
            Ok(f) => f,
            Err(e) => {
                return Err(e);
            },
        };
        let check = match CheckDigits::new(text.substring_char(2, 4)) {
            Ok(f) => f,
            Err(e) => {
                return Err(e);
            },
        };
        let bban = match BBAN::new(text.substring_char(4, n)) {
            Ok(f) => f,
            Err(e) => {
                return Err(e);
            },
        };
        Ok(IBAN { country, check, bban })
    }

    /// `format` writes the canonical textual form.
    pub fn format(&self) -> (r: String)
        requires
            self.wf(),
        ensures
            r@ == self.spec_text(),
            r@.len() == 4 + self.bban@.len(),
    {
        let mut out = String::new();
        out.append(self.country.as_str());
        out.append(self.check.as_str());
        out.append(self.bban.as_str());
        out
    }
}

/// Round trip: the canonical text of any well-formed `IBAN` is itself a
/// valid parse input, and parsing it back yields the same sub-field values;
/// the stored BBAN is already uppercase, so a second normalization changes
/// nothing.
pub proof fn lemma_iban_round_trip(b: IBAN)
    requires
        b.wf(),
    ensures
        b.spec_text().len() == 4 + b.bban@.len(),
        iban_parse_ok(b.spec_text()),
        b.spec_text().subrange(0, 2) == b.country@,
        b.spec_text().subrange(2, 4) == b.check@,
        upper_seq(b.spec_text().subrange(4, b.spec_text().len() as int)) == b.bban@,
{
    let t = b.spec_text();
    assert(t.subrange(0, 2) =~= b.country@);
    assert(t.subrange(2, 4) =~= b.check@);
    assert(t.subrange(4, t.len() as int) =~= b.bban@);
    assert forall|i: int| 0 <= i < b.bban@.len() implies upper_char(#[trigger] b.bban@[i])
        == b.bban@[i] by {
        assert(charset_allows(Charset::UpperAlnum, b.bban@[i]));
    }
    assert(upper_seq(t.subrange(4, t.len() as int)) =~= b.bban@);
    assert forall|i: int| 0 <= i < t.subrange(4, t.len() as int).len() implies bban_char_ok(
        #[trigger] t.subrange(4, t.len() as int)[i],
    ) by {
        assert(t.subrange(4, t.len() as int)[i] == b.bban@[i]);
        assert(charset_allows(Charset::UpperAlnum, b.bban@[i]));
    }
}

} // verus!
