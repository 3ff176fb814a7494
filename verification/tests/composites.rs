use fincodes::error::Error;
use fincodes::iso13616::IBAN;
use fincodes::iso9362::BIC;

#[test]
fn bic_end_to_end() {
    let bic = BIC::parse("DEUTDEFF500").unwrap();
    assert_eq!(bic.institution.as_str(), "DEUT");
    assert_eq!(bic.country.as_str(), "DE");
    assert_eq!(bic.location.as_str(), "FF");
    assert_eq!(bic.branch.as_str(), "500");

    let short = BIC::parse("DEUTDEFF").unwrap();
    assert_eq!(short.institution.as_str(), "DEUT");
    assert_eq!(short.country.as_str(), "DE");
    assert_eq!(short.location.as_str(), "FF");
    assert_eq!(short.branch.as_str(), "XXX");
    assert_eq!(short.format(), "DEUTDEFFXXX");
}

#[test]
fn bic_round_trip() {
    for input in ["DEUTDEFF", "DEUTDEFF500", "UNCRITMMXXX", "AAAABB11"] {
        let first = BIC::parse(input).unwrap();
        let formatted = first.format();
        let second = BIC::parse(&formatted).unwrap();
        assert_eq!(second.institution.as_str(), first.institution.as_str());
        assert_eq!(second.country.as_str(), first.country.as_str());
        assert_eq!(second.location.as_str(), first.location.as_str());
        assert_eq!(second.branch.as_str(), first.branch.as_str());
        assert_eq!(second.format(), formatted);
    }
}

#[test]
fn bic_rejects() {
    assert_eq!(BIC::parse("DEUTDEFF5").unwrap_err(), Error::InvalidFormat);
    assert_eq!(BIC::parse("DEUTDEFF50000").unwrap_err(), Error::InvalidFormat);
    assert_eq!(BIC::parse("").unwrap_err(), Error::InvalidFormat);
    assert_eq!(BIC::parse("deutdeff").unwrap_err(), Error::InvalidFormat);
    assert_eq!(BIC::parse("DEU1DEFF").unwrap_err(), Error::InvalidFormat);
    assert_eq!(BIC::parse("DEUTD3FF").unwrap_err(), Error::InvalidFormat);
    assert_eq!(BIC::parse("DEUTDEFF50!").unwrap_err(), Error::InvalidFormat);
}

#[test]
fn iban_end_to_end() {
    let iban = IBAN::parse("DE44500105175407324931").unwrap();
    assert_eq!(iban.country.as_str(), "DE");
    assert_eq!(iban.check.as_str(), "44");
    assert_eq!(iban.bban.as_str(), "500105175407324931");
    assert_eq!(iban.format(), "DE44500105175407324931");
}

#[test]
fn iban_normalizes_bban_case() {
    let iban = IBAN::parse("GB29nwbk60161331926819").unwrap();
    assert_eq!(iban.bban.as_str(), "NWBK60161331926819");
    assert_eq!(iban.format(), "GB29NWBK60161331926819");
}

#[test]
fn iban_round_trip() {
    for input in ["DE44500105175407324931", "GB29nwbk60161331926819", "AD12"] {
        let first = IBAN::parse(input).unwrap();
        let formatted = first.format();
        let second = IBAN::parse(&formatted).unwrap();
        assert_eq!(second.country.as_str(), first.country.as_str());
        assert_eq!(second.check.as_str(), first.check.as_str());
        assert_eq!(second.bban.as_str(), first.bban.as_str());
        assert_eq!(second.format(), formatted);
    }
}

#[test]
fn iban_rejects() {
    assert_eq!(IBAN::parse("DE4").unwrap_err(), Error::InvalidFormat);
    assert_eq!(IBAN::parse("").unwrap_err(), Error::InvalidFormat);
    let oversized = format!("DE44{}", "1".repeat(31));
    assert_eq!(IBAN::parse(&oversized).unwrap_err(), Error::InvalidFormat);
    assert_eq!(IBAN::parse("de44ABC").unwrap_err(), Error::InvalidFormat);
    assert_eq!(IBAN::parse("DEA4ABC").unwrap_err(), Error::InvalidFormat);
    assert_eq!(IBAN::parse("DE44AB!").unwrap_err(), Error::InvalidFormat);
}
