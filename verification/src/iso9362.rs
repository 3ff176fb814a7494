//! Business Identifier Code (BIC, or SWIFT code) as defined by ISO 9362,
//! with its institution, location and branch sub-fields.

use crate::code::Charset;
use crate::code::Code;
use crate::code::charset_allows;
use crate::code::code_ok;
use crate::error::Error;
use crate::iso3166::CountryCode;
use crate::iso3166::country_code_ok;
use crate::text::str_eq;
use vstd::prelude::*;
use vstd::string::StrSliceExecFns;
use vstd::string::StringExecFns;

verus! {

/// What `InstitutionCode::new` accepts: exactly four ASCII uppercase letters.
pub open spec fn institution_code_ok(s: Seq<char>) -> bool {
    code_ok(s, 4, Charset::UpperAlpha)
}

/// What `LocationCode::new` accepts: exactly two ASCII uppercase letters or digits.
pub open spec fn location_code_ok(s: Seq<char>) -> bool {
    code_ok(s, 2, Charset::UpperAlnum)
}

/// What `BranchCode::new` accepts: exactly three ASCII uppercase letters or digits.
pub open spec fn branch_code_ok(s: Seq<char>) -> bool {
    code_ok(s, 3, Charset::UpperAlnum)
}

/// The branch code text denoting an institution's primary office.
pub open spec fn primary_branch() -> Seq<char> {
    seq!['X', 'X', 'X']
}

/// The location code suffix of locations not connected to the live
/// messaging network.
pub open spec fn passive_location_suffix() -> char {
    '1'
}

/// `InstitutionCode` identifies a (non-)financial institution: the first
/// four characters of a BIC.
#[derive(Clone, Debug, PartialEq, Eq, PartialOrd, Ord)]
pub struct InstitutionCode(Code);

impl View for InstitutionCode {
    type V = Seq<char>;

    closed spec fn view(&self) -> Seq<char> {
        self.0@
    }
}

impl InstitutionCode {
    /// Well-formedness: the stored text is a structurally valid
    /// institution code. Established by `new` and never broken afterwards.
    pub open spec fn wf(&self) -> bool {
        institution_code_ok(self@)
    }

    /// `is_valid` returns whether a provided code is valid, by checking
    /// its length and the kind of characters used.
    pub fn is_valid(code: &str) -> (b: bool)
        ensures
            b == institution_code_ok(code@),
    {
        Code::is_valid(code, 4, Charset::UpperAlpha)
    }

    /// `new` creates an `InstitutionCode`; it succeeds if and only if the
    /// text is structurally valid.
    pub fn new(code: &str) -> (r: Result<InstitutionCode, Error>)
        ensures
            r is Ok <==> institution_code_ok(code@),
            r is Ok ==> r->Ok_0@ == code@ && r->Ok_0.wf(),
            r is Err ==> r->Err_0 == Error::InvalidFormat,
    {
        match Code::new(code, 4, Charset::UpperAlpha) {
            Ok(c) => Ok(InstitutionCode(c)),
            Err(e) => Err(e),
        }
    }

    /// `as_str` returns the `InstitutionCode` as a string slice.
    pub fn as_str(&self) -> (r: &str)
        ensures
            r@ == self@,
    {
        self.0.as_str()
    }

    /// `validate` re-runs the `is_valid` rule against the stored text.
    pub fn validate(&self) -> (r: Result<(), Error>)
        ensures
            r is Ok <==> self.wf(),
            r is Err ==> r->Err_0 == Error::InvalidFormat,
    {
        if Code::is_valid(self.0.as_str(), 4, Charset::UpperAlpha) {
            Ok(())
        } else {
            Err(Error::InvalidFormat)
        }
    }
}

/// `LocationCode` places an institution: the seventh and eighth characters
/// of a BIC.
#[derive(Clone, Debug, PartialEq, Eq, PartialOrd, Ord)]
pub struct LocationCode(Code);

impl View for LocationCode {
    type V = Seq<char>;

    closed spec fn view(&self) -> Seq<char> {
        self.0@
    }
}

impl LocationCode {
    /// Well-formedness: the stored text is a structurally valid location
    /// code. Established by `new` and never broken afterwards.
    pub open spec fn wf(&self) -> bool {
        location_code_ok(self@)
    }

    /// `is_valid` returns whether a provided code is valid, by checking
    /// its length and the kind of characters used.
    pub fn is_valid(code: &str) -> (b: bool)
        ensures
            b == location_code_ok(code@),
    {
        Code::is_valid(code, 2, Charset::UpperAlnum)
    }

    /// `new` creates a `LocationCode`; it succeeds if and only if the text
    /// is structurally valid.
    pub fn new(code: &str) -> (r: Result<LocationCode, Error>)
        ensures
            r is Ok <==> location_code_ok(code@),
            r is Ok ==> r->Ok_0@ == code@ && r->Ok_0.wf(),
            r is Err ==> r->Err_0 == Error::InvalidFormat,
    {
        match Code::new(code, 2, Charset::UpperAlnum) {
            Ok(c) => Ok(LocationCode(c)),
            Err(e) => Err(e),
        }
    }

    /// `as_str` returns the `LocationCode` as a string slice.
    pub fn as_str(&self) -> (r: &str)
        ensures
            r@ == self@,
    {
        self.0.as_str()
    }

    /// `validate` re-runs the `is_valid` rule against the stored text.
    pub fn validate(&self) -> (r: Result<(), Error>)
        ensures
            r is Ok <==> self.wf(),
            r is Err ==> r->Err_0 == Error::InvalidFormat,
    {
        if Code::is_valid(self.0.as_str(), 2, Charset::UpperAlnum) {
            Ok(())
        } else {
            Err(Error::InvalidFormat)
        }
    }

    /// `is_connected` returns whether the location is connected to the
    /// live messaging network: false exactly when the second character is
    /// the passive suffix.
    pub fn is_connected(&self) -> (r: bool)
        requires
            self.wf(),
        ensures
            r == (self@[1] != passive_location_suffix()),
    {
        self.0.as_str().get_char(1) != '1'
    }
}

/// `BranchCode` names a branch of an institution: the last three characters
/// of an eleven-character BIC.
#[derive(Clone, Debug, PartialEq, Eq, PartialOrd, Ord)]
pub struct BranchCode(Code);

impl View for BranchCode {
    type V = Seq<char>;

    closed spec fn view(&self) -> Seq<char> {
        self.0@
    }
}

impl BranchCode {
    /// Well-formedness: the stored text is a structurally valid branch
    /// code. Established by `new` and never broken afterwards.
    pub open spec fn wf(&self) -> bool {
        branch_code_ok(self@)
    }

    /// `is_valid` returns whether a provided code is valid, by checking
    /// its length and the kind of characters used.
    pub fn is_valid(code: &str) -> (b: bool)
        ensures
            b == branch_code_ok(code@),
    {
        Code::is_valid(code, 3, Charset::UpperAlnum)
    }

    /// `new` creates a `BranchCode`; it succeeds if and only if the text
    /// is structurally valid.
    pub fn new(code: &str) -> (r: Result<BranchCode, Error>)
        ensures
            r is Ok <==> branch_code_ok(code@),
            r is Ok ==> r->Ok_0@ == code@ && r->Ok_0.wf(),
            r is Err ==> r->Err_0 == Error::InvalidFormat,
    {
        match Code::new(code, 3, Charset::UpperAlnum) {
            Ok(c) => Ok(BranchCode(c)),
            Err(e) => Err(e),
        }
    }

    /// `as_str` returns the `BranchCode` as a string slice.
    pub fn as_str(&self) -> (r: &str)
        ensures
            r@ == self@,
    {
        self.0.as_str()
    }

    /// `validate` re-runs the `is_valid` rule against the stored text.
    pub fn validate(&self) -> (r: Result<(), Error>)
        ensures
            r is Ok <==> self.wf(),
            r is Err ==> r->Err_0 == Error::InvalidFormat,
    {
        if Code::is_valid(self.0.as_str(), 3, Charset::UpperAlnum) {
            Ok(())
        } else {
            Err(Error::InvalidFormat)
        }
    }

    /// `is_primary` returns whether the branch is the institution's
    /// primary office: true exactly for the primary branch text.
    pub fn is_primary(&self) -> (r: bool)
        ensures
            r == (self@ == primary_branch()),
    {
        proof {
            reveal_strlit("XXX");
            assert("XXX"@ =~= primary_branch());
        }
        str_eq(self.0.as_str(), "XXX")
    }
}

/// What `BIC::parse` accepts: eight or eleven characters splitting into
/// valid institution, country and location codes, with a valid branch code
/// when the branch is present.
pub open spec fn bic_parse_ok(s: Seq<char>) -> bool {
    &&& s.len() == 8 || s.len() == 11
    &&& institution_code_ok(s.subrange(0, 4))
    &&& country_code_ok(s.subrange(4, 6))
    &&& location_code_ok(s.subrange(6, 8))
    &&& s.len() == 11 ==> branch_code_ok(s.subrange(8, 11))
}

/// The branch text a parse of `s` yields: the explicit last three
/// characters, or the primary office when the short form leaves them out.
pub open spec fn bic_branch_text(s: Seq<char>) -> Seq<char> {
    if s.len() == 11 {
        s.subrange(8, 11)
    } else {
        primary_branch()
    }
}

/// `BIC` is an ISO 9362 Business Identifier Code: a structural aggregate
/// of its four sub-fields.
#[derive(Clone, Debug, PartialEq, Eq, PartialOrd, Ord)]
pub struct BIC {
    pub institution: InstitutionCode,
    pub country: CountryCode,
    pub location: LocationCode,
    pub branch: BranchCode,
}

impl BIC {
    /// Well-formedness: every sub-field well-formed.
    pub open spec fn wf(&self) -> bool {
        &&& self.institution.wf()
        &&& self.country.wf()
        &&& self.location.wf()
        &&& self.branch.wf()
    }

    /// The canonical textual form: the four sub-fields concatenated, with
    /// the branch always explicit.
    pub open spec fn spec_text(&self) -> Seq<char> {
        self.institution@ + self.country@ + self.location@ + self.branch@
    }

    /// `parse` reads a BIC from its eight- or eleven-character textual
    /// form; an eight-character input is expanded with the implicit primary
    /// office branch. It fails, at the first offending sub-field, if and
    /// only if the input fails the structural rule.
    pub fn parse(text: &str) -> (r: Result<BIC, Error>)
        ensures
            r is Ok <==> bic_parse_ok(text@),
            r is Ok ==> ({
                let b = r->Ok_0;
                &&& b.wf()
                &&& b.institution@ == text@.subrange(0, 4)
                &&& b.country@ == text@.subrange(4, 6)
                &&& b.location@ == text@.subrange(6, 8)
                &&& b.branch@ == bic_branch_text(text@)
            }),
            r is Err ==> r->Err_0 == Error::InvalidFormat,
    {
        let n = text.unicode_len();
        if n != 8 && n != 11 {
            return Err(Error::InvalidFormat);
        }
        let institution = match InstitutionCode::new(text.substring_char(0, 4)) {
            Ok(f) => f,
            Err(e) => {
                return Err(e);
            },
        };
        let country = match CountryCode::new(text.substring_char(4, 6)) {
            Ok(f) => f,
            Err(e) => {
                return Err(e);
            },
        };
        let location = match LocationCode::new(text.substring_char(6, 8)) {
            Ok(f) => f,
            Err(e) => {
                return Err(e);
            },
        };
        let branch = if n == 11 {
            match BranchCode::new(text.substring_char(8, 11)) {
                Ok(f) => f,
                Err(e) => {
                    return Err(e);
                },
            }
        } else {
            proof {
                reveal_strlit("XXX");
                assert("XXX"@ =~= primary_branch());
            }
            match BranchCode::new("XXX") {
                Ok(f) => f,
                Err(_) => {
                    proof {
                        assert(charset_allows(Charset::UpperAlnum, 'X'));
                        assert(branch_code_ok(primary_branch()));
                    }
                    return Err(Error::InvalidFormat);
                },
            }
        };
        Ok(BIC { institution, country, location, branch })
    }

    /// `format` writes the canonical eleven-character textual form, the
    /// primary office made explicit.
    pub fn format(&self) -> (r: String)
        requires
            self.wf(),
        ensures
            r@ == self.spec_text(),
            r@.len() == 11,
    {
        let mut out = String::new();
        out.append(self.institution.as_str());
        out.append(self.country.as_str());
        out.append(self.location.as_str());
        out.append(self.branch.as_str());
        out
    }
}

/// Round trip: the canonical text of any well-formed `BIC` is itself a
/// valid parse input, and parsing it back yields the same sub-field values;
/// in particular the expansion of an eight-character form is stable under a
/// second parse-format pass.
pub proof fn lemma_bic_round_trip(b: BIC)
    requires
        b.wf(),
    ensures
        b.spec_text().len() == 11,
        bic_parse_ok(b.spec_text()),
        b.spec_text().subrange(0, 4) == b.institution@,
        b.spec_text().subrange(4, 6) == b.country@,
        b.spec_text().subrange(6, 8) == b.location@,
        bic_branch_text(b.spec_text()) == b.branch@,
{
    let t = b.spec_text();
    assert(t.subrange(0, 4) =~= b.institution@);
    assert(t.subrange(4, 6) =~= b.country@);
    assert(t.subrange(6, 8) =~= b.location@);
    assert(t.subrange(8, 11) =~= b.branch@);
}

} // verus!
