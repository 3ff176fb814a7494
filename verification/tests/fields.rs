use fincodes::code::Charset;
use fincodes::code::Code;
use fincodes::error::Error;
use fincodes::iso13616::BBAN;
use fincodes::iso13616::CheckDigits;
use fincodes::iso9362::BranchCode;
use fincodes::iso9362::InstitutionCode;
use fincodes::iso9362::LocationCode;

#[test]
fn bban_is_valid() {
    const WRONG_CODES: &[&str] = &["!", "aaaaaaaaaaaaaaaaaaaaaaaaaaaaaah"];
    const VALID_CODES: &[&str] = &["00", "001", "ABC44", "aaaaaaaaaaaaaaaaaaaaaaaaaaaaaa"];

    for code in WRONG_CODES.iter() {
        assert!(!BBAN::is_valid(code));
    }

    for code in VALID_CODES.iter() {
        assert!(BBAN::is_valid(code));
    }
}

#[test]
fn checkdigits_is_valid() {
    const WRONG_CODES: &[&str] = &["abc", "AB", "0xAA", "CODE", "ZZ"];
    const VALID_CODES: &[&str] = &["00", "01", "10", "11", "99"];

    for code in WRONG_CODES.iter() {
        assert!(!CheckDigits::is_valid(code));
    }

    for code in VALID_CODES.iter() {
        assert!(CheckDigits::is_valid(code));
    }
}

#[test]
fn branchcode_is_valid() {
    const WRONG_CODES: &[&str] = &["abc", "AB", "0xAA", "ZZ!!"];
    const VALID_CODES: &[&str] = &["AAA", "DEU", "XYZ", "XXX"];

    for code in WRONG_CODES.iter() {
        assert!(!BranchCode::is_valid(code));
    }

    for code in VALID_CODES.iter() {
        assert!(BranchCode::is_valid(code));
    }
}

#[test]
fn institutioncode_is_valid() {
    const WRONG_CODES: &[&str] = &["abc", "AB", "0XAA", "ZZ!!"];
    const VALID_CODES: &[&str] = &["AAAA", "DEUT", "WXYZ", "XXXX"];

    for code in WRONG_CODES.iter() {
        assert!(!InstitutionCode::is_valid(code));
    }

    for code in VALID_CODES.iter() {
        assert!(InstitutionCode::is_valid(code));
    }
}

#[test]
fn locationcode_is_valid() {
    const WRONG_CODES: &[&str] = &["abc", "ab", "1234", "1", "!"];
    const VALID_CODES: &[&str] = &["AA", "B0", "C1", "23"];

    for code in WRONG_CODES.iter() {
        assert!(!LocationCode::is_valid(code));
    }

    for code in VALID_CODES.iter() {
        assert!(LocationCode::is_valid(code));
    }
}

#[test]
fn it_works() {
    assert_eq!(2 + 2, 4);
}

#[test]
fn code_new_exact_text() {
    let code = Code::new("AB", 2, Charset::UpperAlpha).unwrap();
    assert_eq!(code.as_str(), "AB");
    assert!(code.validate().is_ok());

    let code = Code::new("B2", 2, Charset::UpperAlnum).unwrap();
    assert_eq!(code.as_str(), "B2");

    let code = Code::new("07", 2, Charset::Digit).unwrap();
    assert_eq!(code.as_str(), "07");
}

#[test]
fn code_new_rejects_length_and_charset() {
    assert_eq!(
        Code::new("A", 2, Charset::UpperAlpha).unwrap_err(),
        Error::InvalidFormat
    );
    assert_eq!(
        Code::new("ABC", 2, Charset::UpperAlpha).unwrap_err(),
        Error::InvalidFormat
    );
    assert_eq!(
        Code::new("", 2, Charset::UpperAlpha).unwrap_err(),
        Error::InvalidFormat
    );
    assert_eq!(
        Code::new("a2", 2, Charset::UpperAlnum).unwrap_err(),
        Error::InvalidFormat
    );
    assert_eq!(
        Code::new("4!", 2, Charset::Digit).unwrap_err(),
        Error::InvalidFormat
    );
    assert_eq!(
        Code::new("A2", 2, Charset::UpperAlpha).unwrap_err(),
        Error::InvalidFormat
    );
    assert_eq!(
        Code::new("é2", 2, Charset::UpperAlnum).unwrap_err(),
        Error::InvalidFormat
    );
}

#[test]
fn location_connected() {
    assert!(LocationCode::new("AA").unwrap().is_connected());
    assert!(!LocationCode::new("A1").unwrap().is_connected());
    assert!(LocationCode::new("B0").unwrap().is_connected());
    assert!(!LocationCode::new("21").unwrap().is_connected());
}

#[test]
fn branch_primary() {
    assert!(BranchCode::new("XXX").unwrap().is_primary());
    assert!(!BranchCode::new("DEU").unwrap().is_primary());
    assert!(!BranchCode::new("XX1").unwrap().is_primary());
}

#[test]
fn bban_normalizes_case() {
    let bban = BBAN::new("abc44").unwrap();
    assert_eq!(bban.as_str(), "ABC44");
    assert!(bban.validate().is_ok());
}

#[test]
fn bban_bounds() {
    let longest = "a".repeat(30);
    let bban = BBAN::new(&longest).unwrap();
    assert_eq!(bban.as_str(), "A".repeat(30));

    let too_long = "a".repeat(31);
    assert_eq!(BBAN::new(&too_long).unwrap_err(), Error::InvalidFormat);

    let empty = BBAN::new("").unwrap();
    assert_eq!(empty.as_str(), "");

    assert_eq!(BBAN::new("AB-1").unwrap_err(), Error::InvalidFormat);

    let mixed = BBAN::new("0a9z").unwrap();
    assert_eq!(mixed.as_str(), "0A9Z");
}

#[test]
fn checkdigits_new() {
    let check = CheckDigits::new("44").unwrap();
    assert_eq!(check.as_str(), "44");
    assert!(check.validate().is_ok());
    assert_eq!(CheckDigits::new("4A").unwrap_err(), Error::InvalidFormat);
}

#[test]
fn institution_new() {
    let institution = InstitutionCode::new("DEUT").unwrap();
    assert_eq!(institution.as_str(), "DEUT");
    assert!(institution.validate().is_ok());
    assert_eq!(InstitutionCode::new("DEU7").unwrap_err(), Error::InvalidFormat);
}
