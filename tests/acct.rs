use magnetar::acct::Acct;
use magnetar::error::DecodeError;
use magnetar::json::JsonValue;

fn text(s: &str) -> JsonValue {
    JsonValue::Str(s.to_string())
}

#[test]
fn acct_should_remove_acct_prefix() {
    let json = text("acct:natty@tech.lgbt");

    let acct = Acct::from_json(&json).unwrap();

    assert_eq!(acct, Acct::parse("natty@tech.lgbt"))
}

#[test]
fn acct_should_add_acct_prefix() {
    let acct = Acct::parse("natty@tech.lgbt");
    let json = acct.to_json();

    assert_eq!(json, text("acct:natty@tech.lgbt"));
}

#[test]
fn mod_should_remove_acct_prefix() {
    let json = text("acct:natty@tech.lgbt");

    let acct = Acct::from_json(&json).unwrap();

    assert_eq!(acct, Acct::new("natty@tech.lgbt"))
}

#[test]
fn mod_should_add_acct_prefix() {
    let acct = Acct::new("natty@tech.lgbt");
    let json = acct.to_json();

    assert_eq!(json, text("acct:natty@tech.lgbt"));
}

#[test]
fn deserialized_acct_equals_direct_one_and_serializes_back() {
    let acct = Acct::deserialize("acct:natty@tech.lgbt").unwrap();
    assert_eq!(acct, Acct::new("natty@tech.lgbt"));
    assert_eq!(acct.serialize(), "acct:natty@tech.lgbt");
}

#[test]
fn deserialize_without_scheme_fails() {
    assert_eq!(Acct::deserialize("natty@tech.lgbt"), Err(DecodeError::MissingAcctScheme));
    assert_eq!(Acct::from_json(&text("natty@tech.lgbt")), Err(DecodeError::MissingAcctScheme));
    assert_eq!(Acct::from_json(&JsonValue::Number(3)), Err(DecodeError::ExpectedString));
    assert_eq!(Acct::deserialize("ACCT:natty@tech.lgbt"), Err(DecodeError::MissingAcctScheme));
}

#[test]
fn parse_is_lenient_about_the_scheme() {
    assert_eq!(Acct::parse("acct:natty@tech.lgbt").as_str(), "natty@tech.lgbt");
    assert_eq!(Acct::parse("natty@tech.lgbt").as_str(), "natty@tech.lgbt");
    assert_eq!(Acct::parse("").as_str(), "");
    assert_eq!(Acct::parse("acct:").as_str(), "");
    assert_eq!(Acct::parse("acct:acct:x").as_str(), "acct:x");
}

#[test]
fn parse_serialize_round_trip_is_stable() {
    for s in ["natty@tech.lgbt", "natty", "", "acct:natty@tech.lgbt", "a@b@c"] {
        let once = Acct::parse(s);
        let again = Acct::parse(&once.serialize());
        assert_eq!(again, once);
    }
}

#[test]
fn new_keeps_a_scheme_in_the_identifier() {
    let acct = Acct::new("acct:x");
    assert_eq!(acct.as_str(), "acct:x");
    assert_eq!(acct.serialize(), "acct:acct:x");
}
