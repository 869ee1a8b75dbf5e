use magnetar::config::{MagnetarBranding, MagnetarNetworkingProtocol};
use magnetar::error::DecodeError;
use magnetar::json::{JsonMember, JsonValue};
use magnetar::nodeinfo::{
    nodeinfo_20, nodeinfo_21, nodeinfo_links, NodeInfo, NodeInfo10Services, NodeInfo10Software,
    NodeInfo10Usage, NodeInfo10UsageUsers, NodeInfo20, NodeInfo21, NodeInfo21Software,
};

fn text(s: &str) -> JsonValue {
    JsonValue::Str(s.to_string())
}

fn object(members: Vec<(&str, JsonValue)>) -> JsonValue {
    JsonValue::Object(
        members
            .into_iter()
            .map(|(k, v)| JsonMember { key: k.to_string(), value: v })
            .collect(),
    )
}

fn texts(items: &[&str]) -> JsonValue {
    JsonValue::Array(items.iter().map(|s| text(s)).collect())
}

/// Orders the members of every object by name.
fn sorted(v: JsonValue) -> JsonValue {
    match v {
        JsonValue::Object(members) => {
            let mut members: Vec<JsonMember> = members
                .into_iter()
                .map(|m| JsonMember { key: m.key, value: sorted(m.value) })
                .collect();
            members.sort_by(|a, b| a.key.cmp(&b.key));
            JsonValue::Object(members)
        }
        JsonValue::Array(items) => JsonValue::Array(items.into_iter().map(sorted).collect()),
        other => other,
    }
}

fn json_mastodon() -> JsonValue {
    object(vec![
        ("version", text("2.0")),
        ("software", object(vec![("name", text("mastodon")), ("version", text("4.1.0"))])),
        ("protocols", texts(&["activitypub"])),
        ("services", object(vec![("outbound", texts(&[])), ("inbound", texts(&[]))])),
        (
            "usage",
            object(vec![
                (
                    "users",
                    object(vec![
                        ("total", JsonValue::Number(10360)),
                        ("activeMonth", JsonValue::Number(4627)),
                        ("activeHalfyear", JsonValue::Number(10089)),
                    ]),
                ),
                ("localPosts", JsonValue::Number(1033206)),
            ]),
        ),
        ("openRegistrations", JsonValue::Bool(true)),
        ("metadata", object(vec![])),
    ])
}

fn data_mastodon() -> NodeInfo20 {
    NodeInfo20 {
        software: NodeInfo10Software {
            name: "mastodon".to_owned(),
            version: "4.1.0".to_owned(),
        },
        protocols: vec!["activitypub".to_owned()],
        services: NodeInfo10Services {
            inbound: vec![],
            outbound: vec![],
        },
        open_registrations: true,
        usage: NodeInfo10Usage {
            users: NodeInfo10UsageUsers {
                total: Some(10360),
                active_halfyear: Some(10089),
                active_month: Some(4627),
            },
            local_posts: Some(1033206),
            local_comments: None,
        },
        metadata: vec![],
    }
}

#[test]
fn should_serialize_nodeinfo_20() {
    let json = json_mastodon();

    let node_info = NodeInfo::V2_0(data_mastodon()).to_json();

    assert_eq!(sorted(node_info), sorted(json));
}

#[test]
fn should_parse_nodeinfo_20() {
    let json = json_mastodon();

    let node_info = NodeInfo::from_json(json).unwrap();

    assert_eq!(node_info, NodeInfo::V2_0(data_mastodon()));
}

#[test]
fn should_parse_nodeinfo_21() {
    let json = object(vec![
        ("version", text("2.1")),
        (
            "software",
            object(vec![
                ("name", text("calckey")),
                ("version", text("13.1.2")),
                ("repository", text("https://github.com/misskey-dev/misskey")),
                ("homepage", text("https://calckey.cloud")),
            ]),
        ),
        ("protocols", texts(&["activitypub"])),
        ("services", object(vec![("inbound", texts(&[])), ("outbound", texts(&["atom1.0", "rss2.0"]))])),
        ("openRegistrations", JsonValue::Bool(false)),
        (
            "usage",
            object(vec![
                (
                    "users",
                    object(vec![
                        ("total", JsonValue::Number(2)),
                        ("activeHalfyear", JsonValue::Number(1)),
                        ("activeMonth", JsonValue::Number(1)),
                    ]),
                ),
                ("localPosts", JsonValue::Number(1936)),
                ("localComments", JsonValue::Number(0)),
            ]),
        ),
        ("metadata", object(vec![])),
    ]);

    let node_info = NodeInfo::from_json(json).unwrap();

    assert_eq!(
        node_info,
        NodeInfo::V2_1(NodeInfo21 {
            software: NodeInfo21Software {
                name: "calckey".to_owned(),
                version: "13.1.2".to_owned(),
                homepage: Some("https://calckey.cloud".to_owned()),
                repository: Some("https://github.com/misskey-dev/misskey".to_owned())
            },
            protocols: vec!["activitypub".to_owned()],
            services: NodeInfo10Services {
                inbound: vec![],
                outbound: vec!["atom1.0".to_owned(), "rss2.0".to_owned()]
            },
            open_registrations: false,
            usage: NodeInfo10Usage {
                users: NodeInfo10UsageUsers {
                    total: Some(2),
                    active_halfyear: Some(1),
                    active_month: Some(1)
                },
                local_posts: Some(1936),
                local_comments: Some(0)
            },
            metadata: vec![]
        })
    );
}

#[test]
fn mastodon_document_round_trips() {
    let read = NodeInfo::from_json(json_mastodon()).unwrap();
    assert_eq!(sorted(read.to_json()), sorted(json_mastodon()));
}

#[test]
fn nodeinfo_version_errors() {
    assert_eq!(NodeInfo::from_json(text("x")), Err(DecodeError::ExpectedObject));
    assert_eq!(NodeInfo::from_json(object(vec![])), Err(DecodeError::MissingField));
    assert_eq!(
        NodeInfo::from_json(object(vec![("version", text("3.0"))])),
        Err(DecodeError::UnknownVersion)
    );
    assert_eq!(
        NodeInfo::from_json(object(vec![("version", JsonValue::Number(2))])),
        Err(DecodeError::ExpectedString)
    );
    assert_eq!(
        NodeInfo::from_json(object(vec![("version", text("2.0")), ("metadata", object(vec![]))])),
        Err(DecodeError::MissingField)
    );
    assert_eq!(
        NodeInfo::from_json(object(vec![
            ("version", text("2.0")),
            ("metadata", object(vec![])),
            ("openRegistrations", text("yes")),
        ])),
        Err(DecodeError::ExpectedBool)
    );
}

#[test]
fn duplicate_protocols_are_kept_once() {
    let mut json = json_mastodon();
    if let JsonValue::Object(m) = &mut json {
        for member in m.iter_mut() {
            if member.key == "protocols" {
                member.value = texts(&["activitypub", "activitypub", "diaspora"]);
            }
        }
    }
    match NodeInfo::from_json(json).unwrap() {
        NodeInfo::V2_0(n) => assert_eq!(n.protocols, vec!["activitypub".to_string(), "diaspora".to_string()]),
        other => panic!("unexpected {other:?}"),
    }
}

#[test]
fn nodeinfo_10_has_protocol_directions() {
    let json = object(vec![
        ("version", text("1.0")),
        ("metadata", object(vec![("nodeName", text("x"))])),
        ("openRegistrations", JsonValue::Bool(false)),
        ("protocols", object(vec![("inbound", texts(&["diaspora"])), ("outbound", texts(&["diaspora", "ostatus"]))])),
        ("services", object(vec![("inbound", texts(&[])), ("outbound", texts(&[]))])),
        ("software", object(vec![("name", text("x")), ("version", text("1"))])),
        ("usage", object(vec![("users", object(vec![]))])),
    ]);
    match NodeInfo::from_json(json).unwrap() {
        NodeInfo::V1_0(n) => {
            assert_eq!(n.protocols.outbound, vec!["diaspora".to_string(), "ostatus".to_string()]);
            assert_eq!(n.usage.users, NodeInfo10UsageUsers { active_halfyear: None, active_month: None, total: None });
            assert_eq!(n.metadata.len(), 1);
        }
        other => panic!("unexpected {other:?}"),
    }
}

fn branding() -> MagnetarBranding {
    MagnetarBranding {
        name: "magnetar".to_string(),
        version: "0.1.0".to_string(),
        homepage: "https://git.astolfo.cool/natty/magnetar".to_string(),
        repository: "https://git.astolfo.cool/natty/magnetar".to_string(),
    }
}

#[test]
fn server_documents() {
    let n20 = nodeinfo_20(&branding());
    assert_eq!(n20.software.name, "magnetar");
    assert_eq!(n20.protocols, vec!["activitypub".to_string()]);
    assert_eq!(n20.usage.local_comments, None);
    assert_eq!(n20.usage.users.total, Some(0));
    assert!(!n20.open_registrations);
    let n21 = nodeinfo_21(&branding());
    assert_eq!(n21.software.homepage.as_deref(), Some("https://git.astolfo.cool/natty/magnetar"));
    assert_eq!(n21.usage.local_comments, Some(0));
    let json = NodeInfo::V2_1(n21).to_json();
    match &json {
        JsonValue::Object(m) => assert_eq!(m[0], JsonMember { key: "version".to_string(), value: text("2.1") }),
        _ => panic!("expected an object"),
    }
}

#[test]
fn discovery_links() {
    let links = nodeinfo_links();
    assert_eq!(links.len(), 2);
    assert_eq!(links[0].rel, "http://nodeinfo.diaspora.software/ns/schema/2.0");
    assert_eq!(links[0].href, "/nodeinfo/2.0");
    assert_eq!(links[1].rel, "http://nodeinfo.diaspora.software/ns/schema/2.1");
    assert_eq!(links[1].href, "/nodeinfo/2.1");
}

#[test]
fn protocol_names() {
    assert_eq!(MagnetarNetworkingProtocol::from_name("HTTPS"), Some(MagnetarNetworkingProtocol::Https));
    assert_eq!(MagnetarNetworkingProtocol::from_name("http"), Some(MagnetarNetworkingProtocol::Http));
    assert_eq!(MagnetarNetworkingProtocol::from_name("ftp"), None);
    assert_eq!(MagnetarNetworkingProtocol::Https.as_str(), "https");
}

#[test]
fn repeated_metadata_names_keep_the_first() {
    let mut json = json_mastodon();
    if let JsonValue::Object(m) = &mut json {
        for member in m.iter_mut() {
            if member.key == "metadata" {
                member.value = JsonValue::Object(vec![
                    JsonMember { key: "nodeName".to_string(), value: text("first") },
                    JsonMember { key: "other".to_string(), value: JsonValue::Bool(true) },
                    JsonMember { key: "nodeName".to_string(), value: text("second") },
                ]);
            }
        }
    }
    match NodeInfo::from_json(json).unwrap() {
        NodeInfo::V2_0(n) => assert_eq!(
            n.metadata,
            vec![
                JsonMember { key: "nodeName".to_string(), value: text("first") },
                JsonMember { key: "other".to_string(), value: JsonValue::Bool(true) },
            ]
        ),
        other => panic!("unexpected {other:?}"),
    }
}

#[test]
fn written_document_has_each_member_once() {
    let json = NodeInfo::V2_0(data_mastodon()).to_json();
    match json {
        JsonValue::Object(m) => {
            let keys: Vec<&str> = m.iter().map(|x| x.key.as_str()).collect();
            assert_eq!(
                keys,
                vec!["version", "metadata", "openRegistrations", "protocols", "services", "software", "usage"]
            );
            match &m[6].value {
                JsonValue::Object(u) => {
                    let keys: Vec<&str> = u.iter().map(|x| x.key.as_str()).collect();
                    assert_eq!(keys, vec!["localPosts", "users"]);
                }
                _ => panic!("expected usage object"),
            }
        }
        _ => panic!("expected an object"),
    }
}
