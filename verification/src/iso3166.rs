//! Country codes as defined by ISO 3166-1 alpha-2, and the static registry
//! mapping each recognized code to its country display name.

use crate::code::Charset;
use crate::code::Code;
use crate::code::code_ok;
use crate::error::Error;
use crate::json::parse_pairs;
use crate::json::parsed_pairs;
use crate::text::contains_sub;
use crate::text::has_substring;
use crate::text::str_eq;
use vstd::prelude::*;
use vstd::string::StrSliceExecFns;

verus! {

/// What `CountryCode::new` accepts: exactly two ASCII uppercase letters.
pub open spec fn country_code_ok(s: Seq<char>) -> bool {
    code_ok(s, 2, Charset::UpperAlpha)
}

/// `CountryCode` is an ISO 3166-1 alpha-2 territory code: a validated,
/// immutable value of exactly two ASCII uppercase letters.
#[derive(Clone, Debug, PartialEq, Eq, PartialOrd, Ord)]
pub struct CountryCode(Code);

impl View for CountryCode {
    type V = Seq<char>;

    closed spec fn view(&self) -> Seq<char> {
        self.0@
    }
}

impl CountryCode {
    /// Well-formedness: the stored text is a structurally valid alpha-2
    /// code. Established by `new` and never broken afterwards.
    pub open spec fn wf(&self) -> bool {
        country_code_ok(self@)
    }

    /// `is_valid` returns whether a provided code is valid, by checking
    /// its length and the kind of characters used.
    pub fn is_valid(code: &str) -> (b: bool)
        ensures
            b == country_code_ok(code@),
    {
        Code::is_valid(code, 2, Charset::UpperAlpha)
    }

    /// `new` creates a `CountryCode`; it succeeds if and only if the text
    /// is a structurally valid alpha-2 code.
    pub fn new(code: &str) -> (r: Result<CountryCode, Error>)
        ensures
            r is Ok <==> country_code_ok(code@),
            r is Ok ==> r->Ok_0@ == code@ && r->Ok_0.wf(),
            r is Err ==> r->Err_0 == Error::InvalidFormat,
    {
        match Code::new(code, 2, Charset::UpperAlpha) {
            Ok(c) => Ok(CountryCode(c)),
            Err(e) => Err(e),
        }
    }

    /// `as_str` returns the `CountryCode` as a string slice.
    pub fn as_str(&self) -> (r: &str)
        ensures
            r@ == self@,
    {
        self.0.as_str()
    }

    /// `validate` re-runs the `is_valid` rule against the stored text: only
    /// structural validity is checked here, not whether the code denotes a
    /// recognized territory.
    pub fn validate(&self) -> (r: Result<(), Error>)
        ensures
            r is Ok <==> self.wf(),
            r is Err ==> r->Err_0 == Error::InvalidFormat,
    {
        if Code::is_valid(self.0.as_str(), 2, Charset::UpperAlpha) {
            Ok(())
        } else {
            Err(Error::InvalidFormat)
        }
    }

    /// A numeric key that orders alpha-2 codes lexicographically; the
    /// executable form of `code_key`.
    pub fn key(&self) -> (k: u64)
        requires
            self.wf(),
        ensures
            k as int == code_key(self@),
    {
        let s = self.0.as_str();
        let c0 = s.get_char(0) as u32;
        let c1 = s.get_char(1) as u32;
        (c0 as u64) * 0x110000 + (c1 as u64)
    }
}

/// A numeric key for a two-character code: lexicographic by Unicode scalar.
pub open spec fn code_key(s: Seq<char>) -> int {
    (s[0] as u32) * 0x110000 + (s[1] as u32)
}

/// The embedded registry data set: a JSON array of `[code, name]` pairs,
/// sorted strictly by code. A versioned build-time artifact; keeping it
/// current is an external maintenance responsibility.
pub const REGISTRY_DATA: &'static str = "[[\"AD\",\"Andorra\"],[\"AE\",\"United Arab Emirates\"],[\"AF\",\"Afghanistan\"\
],[\"AG\",\"Antigua and Barbuda\"],[\"AI\",\"Anguilla\"],[\"AL\",\"Albania\"\
],[\"AM\",\"Armenia\"],[\"AO\",\"Angola\"],[\"AQ\",\"Antarctica\"],[\"AR\",\"Argentina\"\
],[\"AS\",\"American Samoa\"],[\"AT\",\"Austria\"],[\"AU\",\"Australia\"],[\"AW\",\"Aruba\"\
],[\"AX\",\"Aland Islands\"],[\"AZ\",\"Azerbaijan\"],[\"BA\",\"Bosnia and Herzegovina\"\
],[\"BB\",\"Barbados\"],[\"BD\",\"Bangladesh\"],[\"BE\",\"Belgium\"],[\"BF\",\"Burkina Faso\"\
],[\"BG\",\"Bulgaria\"],[\"BH\",\"Bahrain\"],[\"BI\",\"Burundi\"],[\"BJ\",\"Benin\"\
],[\"BL\",\"Saint Barthelemy\"],[\"BM\",\"Bermuda\"],[\"BN\",\"Brunei Darussalam\"\
],[\"BO\",\"Bolivia\"],[\"BQ\",\"Bonaire, Sint Eustatius and Saba\"],[\"BR\",\"Brazil\"\
],[\"BS\",\"Bahamas\"],[\"BT\",\"Bhutan\"],[\"BV\",\"Bouvet Island\"],[\"BW\",\"Botswana\"\
],[\"BY\",\"Belarus\"],[\"BZ\",\"Belize\"],[\"CA\",\"Canada\"\
],[\"CC\",\"Cocos (Keeling) Islands\"],[\"CD\",\"Congo, Democratic Republic of the\"\
],[\"CF\",\"Central African Republic\"],[\"CG\",\"Congo\"],[\"CH\",\"Switzerland\"\
],[\"CI\",\"Cote d'Ivoire\"],[\"CK\",\"Cook Islands\"],[\"CL\",\"Chile\"],[\"CM\",\"Cameroon\"\
],[\"CN\",\"China\"],[\"CO\",\"Colombia\"],[\"CR\",\"Costa Rica\"],[\"CU\",\"Cuba\"\
],[\"CV\",\"Cabo Verde\"],[\"CW\",\"Curacao\"],[\"CX\",\"Christmas Island\"],[\"CY\",\"Cyprus\"\
],[\"CZ\",\"Czechia\"],[\"DE\",\"Germany\"],[\"DJ\",\"Djibouti\"],[\"DK\",\"Denmark\"\
],[\"DM\",\"Dominica\"],[\"DO\",\"Dominican Republic\"],[\"DZ\",\"Algeria\"\
],[\"EC\",\"Ecuador\"],[\"EE\",\"Estonia\"],[\"EG\",\"Egypt\"],[\"EH\",\"Western Sahara\"\
],[\"ER\",\"Eritrea\"],[\"ES\",\"Spain\"],[\"ET\",\"Ethiopia\"],[\"FI\",\"Finland\"\
],[\"FJ\",\"Fiji\"],[\"FK\",\"Falkland Islands (Malvinas)\"\
],[\"FM\",\"Micronesia, Federated States of\"],[\"FO\",\"Faroe Islands\"],[\"FR\",\"France\"\
],[\"GA\",\"Gabon\"],[\"GB\",\"United Kingdom of Great Britain and Northern Ireland\"\
],[\"GD\",\"Grenada\"],[\"GE\",\"Georgia\"],[\"GF\",\"French Guiana\"],[\"GG\",\"Guernsey\"\
],[\"GH\",\"Ghana\"],[\"GI\",\"Gibraltar\"],[\"GL\",\"Greenland\"],[\"GM\",\"Gambia\"\
],[\"GN\",\"Guinea\"],[\"GP\",\"Guadeloupe\"],[\"GQ\",\"Equatorial Guinea\"],[\"GR\",\"Greece\"\
],[\"GS\",\"South Georgia and the South Sandwich Islands\"],[\"GT\",\"Guatemala\"\
],[\"GU\",\"Guam\"],[\"GW\",\"Guinea-Bissau\"],[\"GY\",\"Guyana\"],[\"HK\",\"Hong Kong\"\
],[\"HM\",\"Heard Island and McDonald Islands\"],[\"HN\",\"Honduras\"],[\"HR\",\"Croatia\"\
],[\"HT\",\"Haiti\"],[\"HU\",\"Hungary\"],[\"ID\",\"Indonesia\"],[\"IE\",\"Ireland\"\
],[\"IL\",\"Israel\"],[\"IM\",\"Isle of Man\"],[\"IN\",\"India\"\
],[\"IO\",\"British Indian Ocean Territory\"],[\"IQ\",\"Iraq\"\
],[\"IR\",\"Iran, Islamic Republic of\"],[\"IS\",\"Iceland\"],[\"IT\",\"Italy\"\
],[\"JE\",\"Jersey\"],[\"JM\",\"Jamaica\"],[\"JO\",\"Jordan\"],[\"JP\",\"Japan\"\
],[\"KE\",\"Kenya\"],[\"KG\",\"Kyrgyzstan\"],[\"KH\",\"Cambodia\"],[\"KI\",\"Kiribati\"\
],[\"KM\",\"Comoros\"],[\"KN\",\"Saint Kitts and Nevis\"\
],[\"KP\",\"Korea, Democratic People's Republic of\"],[\"KR\",\"Korea, Republic of\"\
],[\"KW\",\"Kuwait\"],[\"KY\",\"Cayman Islands\"],[\"KZ\",\"Kazakhstan\"\
],[\"LA\",\"Lao People's Democratic Republic\"],[\"LB\",\"Lebanon\"],[\"LC\",\"Saint Lucia\"\
],[\"LI\",\"Liechtenstein\"],[\"LK\",\"Sri Lanka\"],[\"LR\",\"Liberia\"],[\"LS\",\"Lesotho\"\
],[\"LT\",\"Lithuania\"],[\"LU\",\"Luxembourg\"],[\"LV\",\"Latvia\"],[\"LY\",\"Libya\"\
],[\"MA\",\"Morocco\"],[\"MC\",\"Monaco\"],[\"MD\",\"Moldova, Republic of\"\
],[\"ME\",\"Montenegro\"],[\"MF\",\"Saint Martin (French part)\"],[\"MG\",\"Madagascar\"\
],[\"MH\",\"Marshall Islands\"],[\"MK\",\"North Macedonia\"],[\"ML\",\"Mali\"\
],[\"MM\",\"Myanmar\"],[\"MN\",\"Mongolia\"],[\"MO\",\"Macao\"\
],[\"MP\",\"Northern Mariana Islands\"],[\"MQ\",\"Martinique\"],[\"MR\",\"Mauritania\"\
],[\"MS\",\"Montserrat\"],[\"MT\",\"Malta\"],[\"MU\",\"Mauritius\"],[\"MV\",\"Maldives\"\
],[\"MW\",\"Malawi\"],[\"MX\",\"Mexico\"],[\"MY\",\"Malaysia\"],[\"MZ\",\"Mozambique\"\
],[\"NA\",\"Namibia\"],[\"NC\",\"New Caledonia\"],[\"NE\",\"Niger\"],[\"NF\",\"Norfolk Island\"\
],[\"NG\",\"Nigeria\"],[\"NI\",\"Nicaragua\"],[\"NL\",\"Netherlands\"],[\"NO\",\"Norway\"\
],[\"NP\",\"Nepal\"],[\"NR\",\"Nauru\"],[\"NU\",\"Niue\"],[\"NZ\",\"New Zealand\"\
],[\"OM\",\"Oman\"],[\"PA\",\"Panama\"],[\"PE\",\"Peru\"],[\"PF\",\"French Polynesia\"\
],[\"PG\",\"Papua New Guinea\"],[\"PH\",\"Philippines\"],[\"PK\",\"Pakistan\"\
],[\"PL\",\"Poland\"],[\"PM\",\"Saint Pierre and Miquelon\"],[\"PN\",\"Pitcairn\"\
],[\"PR\",\"Puerto Rico\"],[\"PS\",\"Palestine, State of\"],[\"PT\",\"Portugal\"\
],[\"PW\",\"Palau\"],[\"PY\",\"Paraguay\"],[\"QA\",\"Qatar\"],[\"RE\",\"Reunion\"\
],[\"RO\",\"Romania\"],[\"RS\",\"Serbia\"],[\"RU\",\"Russian Federation\"],[\"RW\",\"Rwanda\"\
],[\"SA\",\"Saudi Arabia\"],[\"SB\",\"Solomon Islands\"],[\"SC\",\"Seychelles\"\
],[\"SD\",\"Sudan\"],[\"SE\",\"Sweden\"],[\"SG\",\"Singapore\"\
],[\"SH\",\"Saint Helena, Ascension and Tristan da Cunha\"],[\"SI\",\"Slovenia\"\
],[\"SJ\",\"Svalbard and Jan Mayen\"],[\"SK\",\"Slovakia\"],[\"SL\",\"Sierra Leone\"\
],[\"SM\",\"San Marino\"],[\"SN\",\"Senegal\"],[\"SO\",\"Somalia\"],[\"SR\",\"Suriname\"\
],[\"SS\",\"South Sudan\"],[\"ST\",\"Sao Tome and Principe\"],[\"SV\",\"El Salvador\"\
],[\"SX\",\"Sint Maarten (Dutch part)\"],[\"SY\",\"Syrian Arab Republic\"],[\"SZ\",\"Eswatini\"\
],[\"TC\",\"Turks and Caicos Islands\"],[\"TD\",\"Chad\"\
],[\"TF\",\"French Southern Territories\"],[\"TG\",\"Togo\"],[\"TH\",\"Thailand\"\
],[\"TJ\",\"Tajikistan\"],[\"TK\",\"Tokelau\"],[\"TL\",\"Timor-Leste\"\
],[\"TM\",\"Turkmenistan\"],[\"TN\",\"Tunisia\"],[\"TO\",\"Tonga\"],[\"TR\",\"Turkiye\"\
],[\"TT\",\"Trinidad and Tobago\"],[\"TV\",\"Tuvalu\"],[\"TW\",\"Taiwan, Province of China\"\
],[\"TZ\",\"Tanzania, United Republic of\"],[\"UA\",\"Ukraine\"],[\"UG\",\"Uganda\"\
],[\"UM\",\"United States Minor Outlying Islands\"],[\"US\",\"United States of America\"\
],[\"UY\",\"Uruguay\"],[\"UZ\",\"Uzbekistan\"],[\"VA\",\"Holy See\"\
],[\"VC\",\"Saint Vincent and the Grenadines\"],[\"VE\",\"Venezuela, Bolivarian Republic of\"\
],[\"VG\",\"Virgin Islands (British)\"],[\"VI\",\"Virgin Islands (U.S.)\"],[\"VN\",\"Viet Nam\"\
],[\"VU\",\"Vanuatu\"],[\"WF\",\"Wallis and Futuna\"],[\"WS\",\"Samoa\"],[\"XK\",\"Kosovo\"\
],[\"YE\",\"Yemen\"],[\"YT\",\"Mayotte\"],[\"ZA\",\"South Africa\"],[\"ZM\",\"Zambia\"\
],[\"ZW\",\"Zimbabwe\"]]";

/// The embedded data set as a value, for the deserialization call.
fn registry_data() -> (r: &'static str)
    ensures
        r@ == REGISTRY_DATA@,
{
    REGISTRY_DATA
}

/// Whether a decoded pair list is acceptable registry content: every key a
/// structurally valid country code, and keys strictly ascending.
pub open spec fn registry_entries_ok(pairs: Seq<(Seq<char>, Seq<char>)>) -> bool {
    &&& forall|i: int| 0 <= i < pairs.len() ==> country_code_ok((#[trigger] pairs[i]).0)
    &&& forall|i: int, j: int|
        0 <= i < j < pairs.len() ==> code_key((#[trigger] pairs[i]).0) < code_key(
            (#[trigger] pairs[j]).0,
        )
}

/// Whether the embedded data set loads: it parses as a pair list and that
/// list is acceptable registry content.
pub open spec fn registry_load_ok() -> bool {
    &&& parsed_pairs(REGISTRY_DATA@) is Some
    &&& registry_entries_ok(parsed_pairs(REGISTRY_DATA@)->0)
}

/// `CountryCodes` maps each recognized country code to its country display
/// name: an ordered, read-only registry built once by `get` from the
/// embedded data set.
#[derive(Clone, Debug)]
pub struct CountryCodes {
    entries: Vec<(CountryCode, String)>,
}

impl CountryCodes {
    /// The registry content, in iteration order.
    pub closed spec fn entries_seq(&self) -> Seq<(CountryCode, String)> {
        self.entries@
    }

    /// Well-formedness: every key valid, keys strictly ascending (hence
    /// unique). Established by `get` and never broken afterwards.
    pub open spec fn wf(&self) -> bool {
        &&& forall|i: int|
            0 <= i < self.entries_seq().len() ==> (#[trigger] self.entries_seq()[i]).0.wf()
        &&& forall|i: int, j: int|
            0 <= i < j < self.entries_seq().len() ==> code_key(
                (#[trigger] self.entries_seq()[i]).0@,
            ) < code_key((#[trigger] self.entries_seq()[j]).0@)
    }

    /// Whether the registry holds the code whose text is `s`.
    pub open spec fn spec_contains(&self, s: Seq<char>) -> bool {
        exists|i: int|
            0 <= i < self.entries_seq().len() && (#[trigger] self.entries_seq()[i]).0@ == s
    }

    /// `get` returns the currently defined codes, deserialized from the
    /// embedded data set. It fails only if that data set itself is
    /// malformed: a build-time defect, distinguished from any user-input
    /// rejection by its own error kind.
    pub fn get() -> (r: Result<CountryCodes, Error>)
        ensures
            r is Ok <==> registry_load_ok(),
            r is Ok ==> ({
                let reg = r->Ok_0;
                let pairs = parsed_pairs(REGISTRY_DATA@)->0;
                &&& reg.wf()
                &&& reg.entries_seq().len() == pairs.len()
                &&& forall|i: int|
                    0 <= i < pairs.len() ==> (#[trigger] reg.entries_seq()[i]).0@ == pairs[i].0
                        && reg.entries_seq()[i].1@ == pairs[i].1
            }),
            r is Err ==> r->Err_0 == Error::LoadError,
    {
        let pairs = match parse_pairs(registry_data()) {
            Some(pairs) => pairs,
            None => {
                return Err(Error::LoadError);
            },
        };
        let ghost ppairs = parsed_pairs(REGISTRY_DATA@)->0;
        let n = pairs.len();
        proof {
            assert(ppairs.len() == pairs@.len());
        }
        let mut entries: Vec<(CountryCode, String)> = Vec::new();
        let mut i: usize = 0;
        while i < n
            invariant
                parsed_pairs(REGISTRY_DATA@) == Some(ppairs),
                pairs.deep_view() == ppairs,
                n == pairs@.len(),
                ppairs.len() == n,
                i <= n,
                entries@.len() == i,
                forall|j: int|
                    0 <= j < i ==> (#[trigger] entries@[j]).0.wf() && entries@[j].0@ == ppairs[j].0
                        && entries@[j].1@ == ppairs[j].1,
                forall|j: int, k: int|
                    0 <= j < k < i ==> code_key((#[trigger] entries@[j]).0@) < code_key(
                        (#[trigger] entries@[k]).0@,
                    ),
            decreases n - i,
        {
            let code = match CountryCode::new(pairs[i].0.as_str()) {
                Ok(code) => code,
                Err(_) => {
                    proof {
                        assert(!country_code_ok(ppairs[i as int].0));
                        assert(!registry_entries_ok(ppairs));
                    }
                    return Err(Error::LoadError);
                },
            };
            if i > 0 {
                let prev_key = entries[i - 1].0.key();
                let key = code.key();
                if prev_key >= key {
                    proof {
                        assert(entries@[i - 1].0@ == ppairs[i - 1].0);
                        assert(code_key(ppairs[i - 1].0) >= code_key(ppairs[i as int].0));
                        assert(!registry_entries_ok(ppairs));
                    }
                    return Err(Error::LoadError);
                }
            }
            let name = pairs[i].1.clone();
            entries.push((code, name));
            i += 1;
        }
        proof {
            assert forall|j: int| 0 <= j < ppairs.len() implies country_code_ok(
                (#[trigger] ppairs[j]).0,
            ) by {
                assert(entries@[j].0.wf() && entries@[j].0@ == ppairs[j].0);
            }
            assert forall|j: int, k: int| 0 <= j < k < ppairs.len() implies code_key(
                (#[trigger] ppairs[j]).0,
            ) < code_key((#[trigger] ppairs[k]).0) by {
                assert(code_key(entries@[j].0@) < code_key(entries@[k].0@));
            }
        }
        Ok(CountryCodes { entries })
    }

    /// `contains` returns whether a country code is present in the
    /// registry, by binary search over the sorted entries.
    pub fn contains(&self, code: &CountryCode) -> (b: bool)
        requires
            self.wf(),
            code.wf(),
        ensures
            b == self.spec_contains(code@),
    {
        let key = code.key();
        let mut lo: usize = 0;
        let mut hi: usize = self.entries.len();
        while lo < hi
            invariant
                self.wf(),
                code.wf(),
                key as int == code_key(code@),
                lo <= hi <= self.entries_seq().len(),
                forall|j: int|
                    0 <= j < lo ==> code_key((#[trigger] self.entries_seq()[j]).0@) < key as int,
                forall|j: int|
                    hi <= j < self.entries_seq().len() ==> code_key(
                        (#[trigger] self.entries_seq()[j]).0@,
                    ) > key as int,
            decreases hi - lo,
        {
            let mid = lo + (hi - lo) / 2;
            let mid_key = self.entries[mid].0.key();
            if mid_key < key {
                lo = mid + 1;
            } else if mid_key > key {
                hi = mid;
            } else {
                let eq = str_eq(self.entries[mid].0.as_str(), code.as_str());
                proof {
                    if !eq {
                        assert forall|j: int|
                            0 <= j < self.entries_seq().len() implies (
                        #[trigger] self.entries_seq()[j]).0@ != code@ by {
                            if j < mid {
                                assert(code_key(self.entries_seq()[j].0@) < code_key(
                                    self.entries_seq()[mid as int].0@,
                                ));
                            } else if j > mid {
                                assert(code_key(self.entries_seq()[j].0@) > code_key(
                                    self.entries_seq()[mid as int].0@,
                                ));
                            }
                        }
                    }
                }
                return eq;
            }
        }
        false
    }

    /// `validate` validates a country code text: first structurally, then
    /// for registry membership. The two failure causes stay distinct.
    pub fn validate(&self, code: &str) -> (r: Result<(), Error>)
        requires
            self.wf(),
        ensures
            r is Ok <==> country_code_ok(code@) && self.spec_contains(code@),
            r is Err ==> r->Err_0 == (if country_code_ok(code@) {
                Error::CodeNotFound
            } else {
                Error::InvalidFormat
            }),
    {
        let c = match CountryCode::new(code) {
            Ok(c) => c,
            Err(e) => {
                return Err(e);
            },
        };
        if !self.contains(&c) {
            Err(Error::CodeNotFound)
        } else {
            Ok(())
        }
    }

    /// `find` finds a code from a country name: a linear scan returning the
    /// first registry entry, in iteration order, whose name contains the
    /// given text. Which entry wins when several names match is therefore
    /// the iteration order's choice, not a promise to callers.
    pub fn find(&self, country: &str) -> (r: Option<&CountryCode>)
        ensures
            match r {
                Some(c) => exists|i: int|
                    0 <= i < self.entries_seq().len() && *c == (
                    #[trigger] self.entries_seq()[i]).0 && has_substring(
                        self.entries_seq()[i].1@,
                        country@,
                    ) && (forall|j: int|
                        0 <= j < i ==> !has_substring(
                            (#[trigger] self.entries_seq()[j]).1@,
                            country@,
                        )),
                None => forall|i: int|
                    0 <= i < self.entries_seq().len() ==> !has_substring(
                        (#[trigger] self.entries_seq()[i]).1@,
                        country@,
                    ),
            },
    {
        let n = self.entries.len();
        let mut i: usize = 0;
        while i < n
            invariant
                n == self.entries_seq().len(),
                i <= n,
                forall|j: int|
                    0 <= j < i ==> !has_substring((#[trigger] self.entries_seq()[j]).1@, country@),
            decreases n - i,
        {
            if contains_sub(self.entries[i].1.as_str(), country) {
                return Some(&self.entries[i].0);
            }
            i += 1;
        }
        None
    }
}


/// Keys are unique: the registry invariant orders entries strictly, so no
/// two entries can hold the same country code text.
pub proof fn lemma_registry_keys_unique(reg: &CountryCodes, i: int, j: int)
    requires
        reg.wf(),
        0 <= i < j < reg.entries_seq().len(),
    ensures
        reg.entries_seq()[i].0@ != reg.entries_seq()[j].0@,
{
    assert(code_key(reg.entries_seq()[i].0@) < code_key(reg.entries_seq()[j].0@));
}

} // verus!
