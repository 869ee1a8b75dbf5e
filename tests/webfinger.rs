use magnetar::acct::Acct;
use magnetar::config::{MagnetarNetworking, MagnetarNetworkingProtocol};
use magnetar::error::DecodeError;
use magnetar::json::{JsonMember, JsonValue};
use magnetar::tags::{
    ContentActivityStreams, ContentHtml, RelOStatusSubscribe, RelSelf, RelWebFingerProfilePage,
};
use magnetar::webfinger::{
    build_webfinger, normalize_subject, plan_user_query, webfinger_response, LookupFailed,
    UserQuery, UserRecord, WebFinger, WebFingerError, WebFingerRel, WebFingerSubject,
};

fn text(s: &str) -> JsonValue {
    JsonValue::Str(s.to_string())
}

fn object(members: Vec<(&str, JsonValue)>) -> JsonValue {
    JsonValue::Object(
        members
            .into_iter()
            .map(|(k, v)| JsonMember { key: k.to_string(), value: v })
            .collect(),
    )
}

fn sample_json() -> JsonValue {
    object(vec![
        ("subject", text("acct:natty@tech.lgbt")),
        (
            "aliases",
            JsonValue::Array(vec![text("https://tech.lgbt/@natty"), text("https://tech.lgbt/users/natty")]),
        ),
        (
            "links",
            JsonValue::Array(vec![
                object(vec![
                    ("rel", text("http://webfinger.net/rel/profile-page")),
                    ("type", text("text/html")),
                    ("href", text("https://tech.lgbt/@natty")),
                ]),
                object(vec![
                    ("rel", text("self")),
                    ("type", text("application/activity+json")),
                    ("href", text("https://tech.lgbt/users/natty")),
                ]),
                object(vec![
                    ("rel", text("http://ostatus.org/schema/1.0/subscribe")),
                    ("template", text("https://tech.lgbt/authorize_interaction?uri={uri}")),
                ]),
            ]),
        ),
    ])
}

fn sample_document() -> WebFinger {
    WebFinger {
        subject: WebFingerSubject::Acct(Acct::new("natty@tech.lgbt")),
        aliases: vec![
            WebFingerSubject::Url("https://tech.lgbt/@natty".to_owned()),
            WebFingerSubject::Url("https://tech.lgbt/users/natty".to_owned()),
        ],
        links: vec![
            WebFingerRel::RelWebFingerProfilePage {
                rel: RelWebFingerProfilePage,
                content_type: ContentHtml,
                href: "https://tech.lgbt/@natty".to_owned(),
            },
            WebFingerRel::RelSelf {
                rel: RelSelf,
                content_type: ContentActivityStreams,
                href: "https://tech.lgbt/users/natty".to_owned(),
            },
            WebFingerRel::RelOStatusSubscribe {
                rel: RelOStatusSubscribe,
                template: "https://tech.lgbt/authorize_interaction?uri={uri}".to_owned(),
            },
        ],
    }
}

#[test]
fn webfinger_should_parse_webfinger() {
    let json = sample_json();

    let webfinger = WebFinger::from_json(&json).unwrap();

    assert_eq!(webfinger, sample_document())
}

#[test]
fn mod_should_parse_webfinger() {
    let json = sample_json();

    let webfinger = WebFinger::from_json(&json).unwrap();

    let real = sample_document();

    assert_eq!(webfinger, real)
}

#[test]
fn webfinger_written_as_read() {
    assert_eq!(sample_document().to_json(), sample_json());
}

#[test]
fn webfinger_decode_errors() {
    assert_eq!(WebFinger::from_json(&text("x")), Err(DecodeError::ExpectedObject));
    assert_eq!(
        WebFinger::from_json(&object(vec![("links", JsonValue::Array(vec![]))])),
        Err(DecodeError::MissingField)
    );
    assert_eq!(
        WebFinger::from_json(&object(vec![("subject", text("acct:a@b"))])),
        Err(DecodeError::MissingField)
    );
    assert_eq!(
        WebFinger::from_json(&object(vec![("subject", text("acct:a@b")), ("aliases", text("x")), ("links", JsonValue::Array(vec![]))])),
        Err(DecodeError::ExpectedArray)
    );
    assert_eq!(
        WebFinger::from_json(&object(vec![
            ("subject", text("acct:a@b")),
            ("links", JsonValue::Array(vec![object(vec![("rel", text("self")), ("type", text("text/html")), ("href", text("x"))])])),
        ])),
        Err(DecodeError::NoVariantMatched)
    );
    let no_aliases = WebFinger::from_json(&object(vec![
        ("subject", text("https://a.example/u")),
        ("links", JsonValue::Array(vec![])),
    ]))
    .unwrap();
    assert_eq!(no_aliases.subject, WebFingerSubject::Url("https://a.example/u".to_string()));
    assert!(no_aliases.aliases.is_empty());
}

#[test]
fn subject_shapes() {
    assert_eq!(
        WebFingerSubject::from_json(&text("acct:natty@tech.lgbt")),
        Ok(WebFingerSubject::Acct(Acct::new("natty@tech.lgbt")))
    );
    assert_eq!(
        WebFingerSubject::from_json(&text("natty@tech.lgbt")),
        Ok(WebFingerSubject::Url("natty@tech.lgbt".to_string()))
    );
    assert_eq!(WebFingerSubject::from_json(&JsonValue::Null), Err(DecodeError::NoVariantMatched));
}

fn networking() -> MagnetarNetworking {
    MagnetarNetworking {
        host: "tech.lgbt".to_string(),
        port: 4939,
        protocol: MagnetarNetworkingProtocol::Https,
    }
}

#[test]
fn normalize_readds_acct() {
    assert_eq!(
        normalize_subject(WebFingerSubject::Url("natty@tech.lgbt".to_string())),
        WebFingerSubject::Acct(Acct::new("natty@tech.lgbt"))
    );
    assert_eq!(
        normalize_subject(WebFingerSubject::Url("https://tech.lgbt/@natty".to_string())),
        WebFingerSubject::Url("https://tech.lgbt/@natty".to_string())
    );
    assert_eq!(
        normalize_subject(WebFingerSubject::Url("http:x".to_string())),
        WebFingerSubject::Url("http:x".to_string())
    );
}

#[test]
fn plan_local_query_drops_own_host() {
    let q = plan_user_query(WebFingerSubject::Acct(Acct::parse("acct:natty@tech.lgbt")), "tech.lgbt");
    assert_eq!(q, Ok(UserQuery::ByTag { name: "natty".to_string(), host: None }));
    let remote = plan_user_query(WebFingerSubject::Url("bob@remote.example".to_string()), "tech.lgbt");
    assert_eq!(
        remote,
        Ok(UserQuery::ByTag { name: "bob".to_string(), host: Some("remote.example".to_string()) })
    );
    let by_uri = plan_user_query(WebFingerSubject::Url("https://remote.example/users/bob".to_string()), "tech.lgbt");
    assert_eq!(by_uri, Ok(UserQuery::ByUri { uri: "https://remote.example/users/bob".to_string() }));
    let bad = plan_user_query(WebFingerSubject::Acct(Acct::new("na tty@tech.lgbt")), "tech.lgbt");
    assert_eq!(bad, Err(WebFingerError::Unprocessable));
    assert_eq!(bad.unwrap_err().status_code(), 422);
}

#[test]
fn local_user_gets_profile_and_subscribe_links() {
    let q = plan_user_query(WebFingerSubject::Acct(Acct::parse("acct:natty@tech.lgbt")), "tech.lgbt").unwrap();
    assert_eq!(q, UserQuery::ByTag { name: "natty".to_string(), host: None });
    let user = UserRecord { username: "natty".to_string(), host: None, uri: None };
    let doc = webfinger_response(Ok(Some(user)), &networking()).unwrap();
    assert_eq!(doc.subject, WebFingerSubject::Acct(Acct::new("natty@tech.lgbt")));
    assert_eq!(doc.subject.to_json(), text("acct:natty@tech.lgbt"));
    assert_eq!(
        doc.links,
        vec![
            WebFingerRel::RelOStatusSubscribe {
                rel: RelOStatusSubscribe,
                template: "https://tech.lgbt/authorize-follow?acct={uri}".to_string(),
            },
            WebFingerRel::RelWebFingerProfilePage {
                rel: RelWebFingerProfilePage,
                content_type: ContentHtml,
                href: "https://tech.lgbt/@natty".to_string(),
            },
        ]
    );
    assert_eq!(doc.aliases, vec![WebFingerSubject::Url("https://tech.lgbt/@natty".to_string())]);
    assert!(!doc.links.iter().any(|l| matches!(l, WebFingerRel::RelSelf { .. })));
}

#[test]
fn missing_user_is_not_found() {
    let r = webfinger_response(Ok(None), &networking());
    assert_eq!(r, Err(WebFingerError::NotFound));
    assert_eq!(r.unwrap_err().status_code(), 404);
}

#[test]
fn store_failure_is_internal() {
    let r = webfinger_response(Err(LookupFailed), &networking());
    assert_eq!(r, Err(WebFingerError::Internal));
    assert_eq!(r.unwrap_err().status_code(), 500);
}

#[test]
fn remote_user_by_uri_gets_only_self_link() {
    let q = plan_user_query(WebFingerSubject::Url("https://remote.example/users/bob".to_string()), "tech.lgbt").unwrap();
    assert_eq!(q, UserQuery::ByUri { uri: "https://remote.example/users/bob".to_string() });
    let user = UserRecord {
        username: "bob".to_string(),
        host: Some("remote.example".to_string()),
        uri: Some("https://remote.example/users/bob".to_string()),
    };
    let doc = webfinger_response(Ok(Some(user)), &networking()).unwrap();
    assert_eq!(doc.subject, WebFingerSubject::Acct(Acct::new("bob@remote.example")));
    assert_eq!(
        doc.links,
        vec![WebFingerRel::RelSelf {
            rel: RelSelf,
            content_type: ContentActivityStreams,
            href: "https://remote.example/users/bob".to_string(),
        }]
    );
    assert!(doc.aliases.is_empty());
    let json = doc.to_json();
    match json {
        JsonValue::Object(m) => {
            assert!(m.iter().all(|x| x.key != "aliases"));
            assert_eq!(m.len(), 2);
        }
        _ => panic!("expected an object"),
    }
}

#[test]
fn local_user_with_uri_gets_all_three_links() {
    let user = UserRecord {
        username: "natty".to_string(),
        host: Some("tech.lgbt".to_string()),
        uri: Some("https://tech.lgbt/users/natty".to_string()),
    };
    let mut net = networking();
    net.protocol = MagnetarNetworkingProtocol::Http;
    let doc = build_webfinger(&user, &net);
    assert_eq!(doc.links.len(), 3);
    assert_eq!(
        doc.links[0],
        WebFingerRel::RelOStatusSubscribe {
            rel: RelOStatusSubscribe,
            template: "http://tech.lgbt/authorize-follow?acct={uri}".to_string(),
        }
    );
    assert_eq!(
        doc.links[2],
        WebFingerRel::RelSelf {
            rel: RelSelf,
            content_type: ContentActivityStreams,
            href: "https://tech.lgbt/users/natty".to_string(),
        }
    );
    assert_eq!(doc.aliases, vec![WebFingerSubject::Url("http://tech.lgbt/@natty".to_string())]);
}

#[test]
fn link_written_with_literals() {
    let l = WebFingerRel::RelSelf {
        rel: RelSelf,
        content_type: ContentActivityStreams,
        href: "https://x.example/u".to_string(),
    };
    assert_eq!(
        l.to_json(),
        object(vec![
            ("rel", text("self")),
            ("type", text("application/activity+json")),
            ("href", text("https://x.example/u")),
        ])
    );
}
