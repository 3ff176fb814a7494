use fincodes::iso3166::CountryCode;
use fincodes::iso3166::CountryCodes;
use fincodes::error::Error;

#[test]
fn codes_is_valid() {
    assert!(CountryCodes::get().map(|_| ()).is_ok());
}

#[test]
fn codes_validate() {
    const WRONG_CODES: &[&str] = &["abc", "AB", "13", "abcde", "XX", "ZZ"];
    const VALID_CODES: &[&str] = &["PN", "SM", "SV", "AD", "AX", "VU", "ZM"];

    let codes = CountryCodes::get().unwrap();

    for code in WRONG_CODES.iter() {
        assert!(codes.validate(code).is_err());
    }

    for code in VALID_CODES.iter() {
        assert!(codes.validate(code).is_ok());
    }
}

#[test]
fn codes_find() {
    const WRONG_COUNTRIES: &[&str] = &[
        "Soviet Union",
        "Sacred Roman Empire",
        "Aztec Empire",
        "Third Reich",
    ];
    const VALID_COUNTRIES: &[&str] =
        &["Kosovo", "United States", "Australia", "Vanuatu", "Zambia"];

    let codes = CountryCodes::get().unwrap();

    for country in WRONG_COUNTRIES.iter() {
        assert!(codes.find(country).is_none());
    }

    for country in VALID_COUNTRIES.iter() {
        assert!(codes.find(country).is_some());
    }
}

#[test]
fn country_codes_is_valid() {
    assert!(CountryCodes::get().map(|_| ()).is_ok());
}

#[test]
fn country_codes_validate() {
    const WRONG_CODES: &[&str] = &["abc", "AB", "13", "abcde", "XX", "ZZ"];
    const VALID_CODES: &[&str] = &["PN", "SM", "SV", "AD", "AX", "VU", "ZM"];

    let codes = CountryCodes::get().unwrap();

    for code in WRONG_CODES.iter() {
        assert!(codes.validate(code).is_err());
    }

    for code in VALID_CODES.iter() {
        assert!(codes.validate(code).is_ok());
    }
}

#[test]
fn country_codes_find() {
    const WRONG_COUNTRIES: &[&str] = &[
        "Soviet Union",
        "Sacred Roman Empire",
        "Aztec Empire",
        "Third Reich",
    ];
    const VALID_COUNTRIES: &[&str] =
        &["Kosovo", "United States", "Australia", "Vanuatu", "Zambia"];

    let codes = CountryCodes::get().unwrap();

    for country in WRONG_COUNTRIES.iter() {
        assert!(codes.find(country).is_none());
    }

    for country in VALID_COUNTRIES.iter() {
        assert!(codes.find(country).is_some());
    }
}

#[test]
fn iso3166_is_valid() {
    assert!(CountryCodes::get().map(|_| ()).is_ok());
}

#[test]
fn iso3166_validate() {
    const WRONG_CODES: &[&str] = &["abc", "AB", "13", "abcde", "XX", "ZZ"];
    const VALID_CODES: &[&str] = &["PN", "SM", "SV", "AD", "AX", "VU", "ZM"];

    let codes = CountryCodes::get().unwrap();

    for code in WRONG_CODES.iter() {
        assert!(codes.validate(code).is_err());
    }

    for code in VALID_CODES.iter() {
        assert!(codes.validate(code).is_ok());
    }
}

#[test]
fn iso3166_find() {
    const WRONG_COUNTRIES: &[&str] = &[
        "Soviet Union",
        "Sacred Roman Empire",
        "Aztec Empire",
        "Third Reich",
    ];
    const VALID_COUNTRIES: &[&str] =
        &["Kosovo", "United States", "Australia", "Vanuatu", "Zambia"];

    let codes = CountryCodes::get().unwrap();

    for country in WRONG_COUNTRIES.iter() {
        assert!(codes.find(country).is_none());
    }

    for country in VALID_COUNTRIES.iter() {
        assert!(codes.find(country).is_some());
    }
}

#[test]
fn registry_validate_error_kinds() {
    let codes = CountryCodes::get().unwrap();
    assert!(codes.validate("PN").is_ok());
    assert_eq!(codes.validate("ZZ"), Err(Error::CodeNotFound));
    assert_eq!(codes.validate("13"), Err(Error::InvalidFormat));
    assert_eq!(codes.validate("abcde"), Err(Error::InvalidFormat));
}

#[test]
fn registry_find_kosovo() {
    let codes = CountryCodes::get().unwrap();
    let found = codes.find("Kosovo").unwrap();
    assert_eq!(found.as_str(), "XK");
    assert!(codes.find("Soviet Union").is_none());
}

#[test]
fn registry_find_first_match_in_order() {
    let codes = CountryCodes::get().unwrap();
    // Several names contain this text; the first entry in iteration order
    // (sorted by code) wins.
    let found = codes.find("United States").unwrap();
    assert_eq!(found.as_str(), "UM");
    let empty = codes.find("").unwrap();
    assert_eq!(empty.as_str(), "AD");
}

#[test]
fn registry_contains() {
    let codes = CountryCodes::get().unwrap();
    let pn = CountryCode::new("PN").unwrap();
    let zz = CountryCode::new("ZZ").unwrap();
    assert!(codes.contains(&pn));
    assert!(!codes.contains(&zz));
}

#[test]
fn country_code_new_and_validate() {
    let code = CountryCode::new("DE").unwrap();
    assert_eq!(code.as_str(), "DE");
    assert!(code.validate().is_ok());
    assert_eq!(CountryCode::new("de").unwrap_err(), Error::InvalidFormat);
    assert_eq!(CountryCode::new("D1").unwrap_err(), Error::InvalidFormat);
    assert_eq!(CountryCode::new("").unwrap_err(), Error::InvalidFormat);
    assert_eq!(CountryCode::new("DEU").unwrap_err(), Error::InvalidFormat);
}
