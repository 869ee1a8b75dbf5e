use magnetar::acct::Acct;
use magnetar::tag::{
    lenient_parse_acct, lenient_parse_acct_decode, lenient_parse_tag, lenient_parse_tag_decode,
    split_tag_inner, tag_from_parts, validate_tag_inner, FediverseTag, TagError,
};

fn parts(name: &str, host: Option<&str>) -> (String, Option<String>) {
    (name.to_string(), host.map(|h| h.to_string()))
}

#[test]
fn split_cases() {
    assert_eq!(split_tag_inner("natty@tech.lgbt"), parts("natty", Some("tech.lgbt")));
    assert_eq!(split_tag_inner("natty"), parts("natty", None));
    assert_eq!(split_tag_inner("@host"), parts("host", None));
    assert_eq!(split_tag_inner("@natty@tech.lgbt"), parts("natty", Some("tech.lgbt")));
    assert_eq!(split_tag_inner("a@b@c"), parts("a", Some("b@c")));
    assert_eq!(split_tag_inner(""), parts("", None));
    assert_eq!(split_tag_inner("@@x"), parts("x", None));
    assert_eq!(split_tag_inner("natty@"), parts("natty", Some("")));
}

#[test]
fn validate_refuses_bad_names_and_hosts() {
    assert_eq!(validate_tag_inner(("na/tty", None)), Err(TagError::InvalidName("na/tty".to_string())));
    assert_eq!(validate_tag_inner(("na tty", Some("tech.lgbt"))), Err(TagError::InvalidName("na tty".to_string())));
    assert_eq!(validate_tag_inner(("na\ttty", None)), Err(TagError::InvalidName("na\ttty".to_string())));
    assert_eq!(validate_tag_inner(("", None)), Err(TagError::InvalidName(String::new())));
    assert_eq!(validate_tag_inner(("natty", Some("tech#lgbt"))), Err(TagError::InvalidHost("tech#lgbt".to_string())));
    assert_eq!(validate_tag_inner(("natty", Some("tech/lgbt"))), Err(TagError::InvalidHost("tech/lgbt".to_string())));
    assert_eq!(validate_tag_inner(("natty", Some("tech\u{3000}lgbt"))), Err(TagError::InvalidHost("tech\u{3000}lgbt".to_string())));
    assert_eq!(validate_tag_inner(("natty", Some("tech\u{85}lgbt"))), Err(TagError::InvalidHost("tech\u{85}lgbt".to_string())));
    assert_eq!(validate_tag_inner(("natty", Some("tech\u{7f}lgbt"))), Err(TagError::InvalidHost("tech\u{7f}lgbt".to_string())));
    assert_eq!(validate_tag_inner(("Na-t.t9y", Some("tech.lgbt:8080"))), Ok(()));
    assert_eq!(validate_tag_inner(("natty", Some(""))), Ok(()));
    assert_eq!(validate_tag_inner(("natty", Some("t\u{e9}ch.lgbt"))), Ok(()));
    assert_eq!(validate_tag_inner(("n\u{e9}tty", None)), Err(TagError::InvalidName("n\u{e9}tty".to_string())));
}

#[test]
fn parse_tag_reads_raw_parts() {
    let t = lenient_parse_tag("@natty@tech.lgbt").unwrap();
    assert_eq!(t, FediverseTag::from_parts("natty", Some("tech.lgbt")));
    assert_eq!(lenient_parse_tag("natty%41@tech.lgbt"), Err(TagError::InvalidName("natty%41".to_string())));
    assert_eq!(lenient_parse_tag("natty@te#ch"), Err(TagError::InvalidHost("te#ch".to_string())));
}

#[test]
fn parse_decoded_decodes_before_checking() {
    let t = lenient_parse_tag_decode("natty%41@tech%2Elgbt").unwrap();
    assert_eq!(t, FediverseTag::from_parts("nattyA", Some("tech.lgbt")));
    let plain = lenient_parse_tag_decode("natty@tech.lgbt").unwrap();
    assert_eq!(plain, FediverseTag::from_parts("natty", Some("tech.lgbt")));
}

#[test]
fn parse_decoded_escaped_at_sign_lands_in_the_name() {
    // The decoded name is "natty@test", and `@` is not a name character.
    assert_eq!(lenient_parse_tag_decode("natty%40test@tech.lgbt"), Err(TagError::InvalidName("natty@test".to_string())));
    assert_eq!(split_tag_inner("natty%40test@tech.lgbt"), parts("natty%40test", Some("tech.lgbt")));
}

#[test]
fn parse_decoded_refuses_bad_utf8() {
    assert_eq!(lenient_parse_tag_decode("natty%FF@tech.lgbt"), Err(TagError::InvalidEncoding));
    assert_eq!(lenient_parse_tag_decode("natty@tech%C3"), Err(TagError::InvalidEncoding));
    // An escape that is not two hex digits is kept as it is.
    assert_eq!(lenient_parse_tag_decode("natty@te%zzch"), Ok(FediverseTag::from_parts("natty", Some("te%zzch"))));
}

#[test]
fn tag_from_parts_checks() {
    assert_eq!(
        tag_from_parts("natty".to_string(), Some("tech.lgbt".to_string())),
        Ok(FediverseTag::from_parts("natty", Some("tech.lgbt")))
    );
    assert_eq!(tag_from_parts("nat@ty".to_string(), None), Err(TagError::InvalidName("nat@ty".to_string())));
    assert_eq!(tag_from_parts("natty".to_string(), Some("a b".to_string())), Err(TagError::InvalidHost("a b".to_string())));
}

#[test]
fn tag_text_and_acct() {
    let t = FediverseTag::from_parts("natty", Some("tech.lgbt"));
    assert_eq!(t.to_string(), "natty@tech.lgbt");
    assert_eq!(t.to_acct(), Acct::new("natty@tech.lgbt"));
    let local = FediverseTag::from_parts("natty", None);
    assert_eq!(local.to_string(), "natty");
    assert_eq!(local.to_acct(), Acct::new("natty"));
}

#[test]
fn parse_acct_variants() {
    let acct = Acct::parse("acct:natty@tech.lgbt");
    assert_eq!(lenient_parse_acct(&acct), Ok(FediverseTag::from_parts("natty", Some("tech.lgbt"))));
    let escaped = Acct::new("n%61tty@tech.lgbt");
    assert_eq!(lenient_parse_acct(&escaped), Err(TagError::InvalidName("n%61tty".to_string())));
    assert_eq!(lenient_parse_acct_decode(&escaped), Ok(FediverseTag::from_parts("natty", Some("tech.lgbt"))));
}

#[test]
fn decoding_a_tag_without_percent_changes_nothing() {
    for t in ["natty@tech.lgbt", "@natty", "na tty@x", "natty@te#ch", "", "@host", "Ni-ck.1@h\u{e9}st"] {
        assert_eq!(lenient_parse_tag_decode(t), lenient_parse_tag(t));
    }
}
