//! Validated, fixed-format identifier types for financial messaging:
//! ISO 3166-1 country codes, ISO 9362 Business Identifier Codes (BIC),
//! and ISO 13616 International Bank Account Numbers (IBAN).

use vstd::prelude::*;

pub mod code;
pub mod error;
pub mod iso13616;
pub mod iso3166;
pub mod iso9362;
pub mod json;
pub mod text;

verus! {

/// True exactly for ASCII uppercase letters.
pub open spec fn is_upper_alpha(c: char) -> bool {
    65 <= c as u32 <= 90
}

/// True exactly for ASCII lowercase letters.
pub open spec fn is_lower_alpha(c: char) -> bool {
    97 <= c as u32 <= 122
}

/// True exactly for ASCII digits.
pub open spec fn is_ascii_digit(c: char) -> bool {
    48 <= c as u32 <= 57
}

} // verus!
