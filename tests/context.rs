use magnetar::activity_streams::{document_context, Context, ListContaining};
use magnetar::error::DecodeError;
use magnetar::json::{JsonMember, JsonValue};
use magnetar::tags::{ContextActivityStreams, TaggedString};

fn text(s: &str) -> JsonValue {
    JsonValue::Str(s.to_string())
}

fn object(members: Vec<(&str, JsonValue)>) -> JsonValue {
    JsonValue::Object(
        members
            .into_iter()
            .map(|(k, v)| JsonMember { key: k.to_string(), value: v })
            .collect(),
    )
}

#[test]
fn should_parse_context() {
    let json = object(vec![
        ("@context", text("https://www.w3.org/ns/activitystreams")),
        ("some", text("stuff")),
    ]);

    let ctx = document_context(&json).unwrap();

    assert_eq!(ctx, Context::String(ContextActivityStreams));
}

#[test]
fn should_parse_missing_context() {
    let json = object(vec![("some", text("stuff"))]);

    let ctx = document_context(&json).unwrap();

    assert_eq!(ctx, Context::String(ContextActivityStreams));
}

#[test]
fn should_parse_context_http() {
    let json = object(vec![
        ("@context", text("http://www.w3.org/ns/activitystreams")),
        ("some", text("stuff")),
    ]);

    let ctx = document_context(&json).unwrap();

    assert_eq!(ctx, Context::String(ContextActivityStreams));
}

#[test]
fn should_parse_context_vocab() {
    let json = object(vec![
        (
            "@context",
            object(vec![
                ("@vocab", text("https://www.w3.org/ns/activitystreams")),
                ("foo", text("bar")),
            ]),
        ),
        ("some", text("stuff")),
    ]);

    let ctx = document_context(&json).unwrap();

    assert_eq!(ctx, Context::Object { ld_vocab: ContextActivityStreams });
}

#[test]
fn should_parse_context_array() {
    let json = object(vec![
        (
            "@context",
            JsonValue::Array(vec![
                object(vec![("foo", text("bar"))]),
                text("https://www.w3.org/ns/activitystreams"),
            ]),
        ),
        ("some", text("stuff")),
    ]);

    let ctx = document_context(&json).unwrap();

    assert_eq!(ctx, Context::List(ListContaining(ContextActivityStreams)));
}

#[test]
fn context_shapes_all_name_the_activity_streams_context() {
    let uri = "https://www.w3.org/ns/activitystreams";
    let shapes = vec![
        text(uri),
        object(vec![("@vocab", text(uri))]),
        JsonValue::Array(vec![text("https://w3id.org/security/v1"), object(vec![]), text(uri)]),
    ];
    let read: Vec<Context> = shapes.iter().map(|v| Context::from_json(v).unwrap()).collect();
    assert_eq!(read[0], Context::String(ContextActivityStreams));
    assert_eq!(read[1], Context::Object { ld_vocab: ContextActivityStreams });
    assert_eq!(read[2], Context::List(ListContaining(ContextActivityStreams)));
    assert_eq!(Context::default(), Context::String(ContextActivityStreams));
}

#[test]
fn context_refuses_other_values() {
    assert_eq!(Context::from_json(&text("https://example.com/ns")), Err(DecodeError::NoVariantMatched));
    assert_eq!(Context::from_json(&JsonValue::Array(vec![text("x")])), Err(DecodeError::NoVariantMatched));
    assert_eq!(Context::from_json(&object(vec![("@vocab", text("x"))])), Err(DecodeError::NoVariantMatched));
    assert_eq!(Context::from_json(&JsonValue::Null), Err(DecodeError::NoVariantMatched));
    assert_eq!(document_context(&text("x")), Err(DecodeError::ExpectedObject));
    assert_eq!(
        document_context(&object(vec![("@context", JsonValue::Bool(true))])),
        Err(DecodeError::NoVariantMatched)
    );
}

#[test]
fn list_containing_reports_its_errors() {
    assert_eq!(
        ListContaining::<ContextActivityStreams>::from_json(&text("x")),
        Err(DecodeError::ExpectedArray)
    );
    assert_eq!(
        ListContaining::<ContextActivityStreams>::from_json(&JsonValue::Array(vec![])),
        Err(DecodeError::NoMatchingElement)
    );
}

#[test]
fn context_is_written_in_its_shape() {
    let uri = "https://www.w3.org/ns/activitystreams";
    assert_eq!(Context::String(ContextActivityStreams).to_json(), text(uri));
    assert_eq!(
        Context::Object { ld_vocab: ContextActivityStreams }.to_json(),
        object(vec![("@vocab", text(uri))])
    );
    assert_eq!(
        Context::List(ListContaining(ContextActivityStreams)).to_json(),
        JsonValue::Array(vec![text(uri)])
    );
}

#[test]
fn context_marker_accepts_both_schemes_and_writes_https() {
    assert!(ContextActivityStreams::from_str("http://www.w3.org/ns/activitystreams").is_ok());
    assert!(ContextActivityStreams::from_str("https://www.w3.org/ns/activitystreams").is_ok());
    assert_eq!(
        ContextActivityStreams::from_str("ftp://www.w3.org/ns/activitystreams"),
        Err(DecodeError::LiteralMismatch("ftp://www.w3.org/ns/activitystreams".to_string()))
    );
    assert_eq!(ContextActivityStreams.as_str(), "https://www.w3.org/ns/activitystreams");
}
