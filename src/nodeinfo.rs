//! NodeInfo documents, versions 1.0 to 2.1, and the ones this server
//! publishes. A set of names is held as a list without repeats.
use vstd::prelude::*;
use crate::config::MagnetarBranding;
use crate::error::DecodeError;
use crate::json::{
    bool_field, bool_field_spec, dedup_keys, dedup_keys_spec, distinct_keys, distinct_texts, has_key,
    is_text, key_if, keys_of, lemma_dedup_keys_distinct, find_field, object_field, object_field_spec,
    field_spec, lemma_field_push, opt_int_field, opt_int_field_spec, opt_text_field,
    opt_text_field_spec, text_field, text_field_spec, text_list_to_json, text_set, text_set_field,
    text_set_field_spec, text_set_spec, JsonMember, JsonValue,
};
use crate::tags::{RelNodeInfo20, RelNodeInfo21, TaggedString};
use crate::text::{opt_view, same_text, string_from};

verus! {

/// Inbound and outbound protocols (1.x).
#[derive(Clone, Debug, PartialEq, Eq)]
pub struct NodeInfo10Protocols {
    /// The protocols this server can receive traffic for.
    pub inbound: Vec<String>,
    /// The protocols this server can generate traffic for.
    pub outbound: Vec<String>,
}

/// Third party sites this server connects to.
#[derive(Clone, Debug, PartialEq, Eq)]
pub struct NodeInfo10Services {
    /// The sites this server can retrieve messages from.
    pub inbound: Vec<String>,
    /// The sites this server can publish messages to on behalf of a user.
    pub outbound: Vec<String>,
}

/// The server software (1.0 to 2.0).
#[derive(Clone, Debug, PartialEq, Eq)]
pub struct NodeInfo10Software {
    pub name: String,
    pub version: String,
}

/// Counts of users.
#[derive(Clone, Copy, Debug, PartialEq, Eq, Structural)]
pub struct NodeInfo10UsageUsers {
    /// Users that signed in during the last 180 days.
    pub active_halfyear: Option<i64>,
    /// Users that signed in during the last 30 days.
    pub active_month: Option<i64>,
    /// All registered users.
    pub total: Option<i64>,
}

/// Usage statistics.
#[derive(Clone, Copy, Debug, PartialEq, Eq, Structural)]
pub struct NodeInfo10Usage {
    pub local_comments: Option<i64>,
    pub local_posts: Option<i64>,
    pub users: NodeInfo10UsageUsers,
}

/// A NodeInfo 1.0 document.
#[derive(Debug, PartialEq, Eq)]
pub struct NodeInfo10 {
    /// Free-form members for software specific values.
    pub metadata: Vec<JsonMember>,
    pub open_registrations: bool,
    pub protocols: NodeInfo10Protocols,
    pub services: NodeInfo10Services,
    pub software: NodeInfo10Software,
    pub usage: NodeInfo10Usage,
}

/// A NodeInfo 1.1 document.
#[derive(Debug, PartialEq, Eq)]
pub struct NodeInfo11 {
    pub metadata: Vec<JsonMember>,
    pub open_registrations: bool,
    pub protocols: NodeInfo10Protocols,
    pub services: NodeInfo10Services,
    pub software: NodeInfo10Software,
    pub usage: NodeInfo10Usage,
}

/// A NodeInfo 2.0 document: the protocols are one set.
#[derive(Debug, PartialEq, Eq)]
pub struct NodeInfo20 {
    pub metadata: Vec<JsonMember>,
    pub open_registrations: bool,
    pub protocols: Vec<String>,
    pub services: NodeInfo10Services,
    pub software: NodeInfo10Software,
    pub usage: NodeInfo10Usage,
}

/// The server software (2.1), with its homepage and repository.
#[derive(Clone, Debug, PartialEq, Eq)]
pub struct NodeInfo21Software {
    pub homepage: Option<String>,
    pub name: String,
    pub repository: Option<String>,
    pub version: String,
}

/// A NodeInfo 2.1 document.
#[derive(Debug, PartialEq, Eq)]
pub struct NodeInfo21 {
    pub metadata: Vec<JsonMember>,
    pub open_registrations: bool,
    pub protocols: Vec<String>,
    pub services: NodeInfo10Services,
    pub software: NodeInfo21Software,
    pub usage: NodeInfo10Usage,
}

/// A NodeInfo document of any version.
#[derive(Debug, PartialEq, Eq)]
pub enum NodeInfo {
    V1_0(NodeInfo10),
    V1_1(NodeInfo11),
    V2_0(NodeInfo20),
    V2_1(NodeInfo21),
}

/// What a document of any version says. For 2.x the outbound protocols
/// are empty; below 2.1 the software has no homepage or repository.
pub struct NodeInfoView {
    pub version: Seq<char>,
    pub metadata: Seq<JsonMember>,
    pub open_registrations: bool,
    pub protocols: Set<Seq<char>>,
    pub outbound_protocols: Set<Seq<char>>,
    pub services_inbound: Set<Seq<char>>,
    pub services_outbound: Set<Seq<char>>,
    pub software_name: Seq<char>,
    pub software_version: Seq<char>,
    pub homepage: Option<Seq<char>>,
    pub repository: Option<Seq<char>>,
    pub usage: NodeInfo10Usage,
}

impl NodeInfo10Services {
    pub open spec fn wf(&self) -> bool {
        distinct_texts(self.inbound@) && distinct_texts(self.outbound@)
    }
}

impl NodeInfo10Protocols {
    pub open spec fn wf(&self) -> bool {
        distinct_texts(self.inbound@) && distinct_texts(self.outbound@)
    }
}

impl NodeInfo {
    /// The lists of names hold no repeats, and no two metadata members
    /// share a name.
    pub open spec fn wf(&self) -> bool {
        match self {
            NodeInfo::V1_0(n) => n.protocols.wf() && n.services.wf() && distinct_keys(n.metadata@),
            NodeInfo::V1_1(n) => n.protocols.wf() && n.services.wf() && distinct_keys(n.metadata@),
            NodeInfo::V2_0(n) => distinct_texts(n.protocols@) && n.services.wf() && distinct_keys(n.metadata@),
            NodeInfo::V2_1(n) => distinct_texts(n.protocols@) && n.services.wf() && distinct_keys(n.metadata@),
        }
    }

    /// The schema version this document is written in.
    pub open spec fn version_spec(&self) -> Seq<char> {
        match self {
            NodeInfo::V1_0(_) => "1.0"@,
            NodeInfo::V1_1(_) => "1.1"@,
            NodeInfo::V2_0(_) => "2.0"@,
            NodeInfo::V2_1(_) => "2.1"@,
        }
    }

    pub open spec fn view(&self) -> NodeInfoView {
        match self {
            NodeInfo::V1_0(n) => NodeInfoView {
                version: "1.0"@,
                metadata: n.metadata@,
                open_registrations: n.open_registrations,
                protocols: text_set(n.protocols.inbound@),
                outbound_protocols: text_set(n.protocols.outbound@),
                services_inbound: text_set(n.services.inbound@),
                services_outbound: text_set(n.services.outbound@),
                software_name: n.software.name@,
                software_version: n.software.version@,
                homepage: None,
                repository: None,
                usage: n.usage,
            },
            NodeInfo::V1_1(n) => NodeInfoView {
                version: "1.1"@,
                metadata: n.metadata@,
                open_registrations: n.open_registrations,
                protocols: text_set(n.protocols.inbound@),
                outbound_protocols: text_set(n.protocols.outbound@),
                services_inbound: text_set(n.services.inbound@),
                services_outbound: text_set(n.services.outbound@),
                software_name: n.software.name@,
                software_version: n.software.version@,
                homepage: None,
                repository: None,
                usage: n.usage,
            },
            NodeInfo::V2_0(n) => NodeInfoView {
                version: "2.0"@,
                metadata: n.metadata@,
                open_registrations: n.open_registrations,
                protocols: text_set(n.protocols@),
                outbound_protocols: Set::empty(),
                services_inbound: text_set(n.services.inbound@),
                services_outbound: text_set(n.services.outbound@),
                software_name: n.software.name@,
                software_version: n.software.version@,
                homepage: None,
                repository: None,
                usage: n.usage,
            },
            NodeInfo::V2_1(n) => NodeInfoView {
                version: "2.1"@,
                metadata: n.metadata@,
                open_registrations: n.open_registrations,
                protocols: text_set(n.protocols@),
                outbound_protocols: Set::empty(),
                services_inbound: text_set(n.services.inbound@),
                services_outbound: text_set(n.services.outbound@),
                software_name: n.software.name@,
                software_version: n.software.version@,
                homepage: opt_view(n.software.homepage),
                repository: opt_view(n.software.repository),
                usage: n.usage,
            },
        }
    }
}

/// A link to one of this server's NodeInfo documents.
#[derive(Clone, Debug, PartialEq, Eq)]
pub struct NodeInfoLink {
    pub rel: String,
    pub href: String,
}

/// The usage statistics this server publishes: every count is zero, and
/// comments are counted only where `with_comments` holds.
pub open spec fn zero_usage_spec(with_comments: bool) -> NodeInfo10Usage {
    NodeInfo10Usage {
        local_comments: if with_comments {
            Some(0)
        } else {
            None
        },
        local_posts: Some(0),
        users: NodeInfo10UsageUsers { active_halfyear: Some(0), active_month: Some(0), total: Some(0) },
    }
}

fn zero_usage(with_comments: bool) -> (r: NodeInfo10Usage)
    ensures
        r == zero_usage_spec(with_comments),
{
    NodeInfo10Usage {
        local_comments: if with_comments {
            Some(0)
        } else {
            None
        },
        local_posts: Some(0),
        users: NodeInfo10UsageUsers { active_halfyear: Some(0), active_month: Some(0), total: Some(0) },
    }
}

fn activitypub_only() -> (r: Vec<String>)
    ensures
        r@.len() == 1,
        r@[0]@ == "activitypub"@,
        distinct_texts(r@),
{
    let mut v: Vec<String> = Vec::new();
    v.push(string_from("activitypub"));
    v
}

fn no_services() -> (r: NodeInfo10Services)
    ensures
        r.inbound@.len() == 0,
        r.outbound@.len() == 0,
        r.wf(),
{
    NodeInfo10Services { inbound: Vec::new(), outbound: Vec::new() }
}

/// The links to the 2.0 and 2.1 documents of this server.
pub fn nodeinfo_links() -> (r: Vec<NodeInfoLink>)
    ensures
        r@.len() == 2,
        r@[0].rel@ == RelNodeInfo20::literal(),
        r@[0].href@ == "/nodeinfo/2.0"@,
        r@[1].rel@ == RelNodeInfo21::literal(),
        r@[1].href@ == "/nodeinfo/2.1"@,
{
    let mut r: Vec<NodeInfoLink> = Vec::new();
    r.push(NodeInfoLink { rel: string_from(RelNodeInfo20.as_str()), href: string_from("/nodeinfo/2.0") });
    r.push(NodeInfoLink { rel: string_from(RelNodeInfo21.as_str()), href: string_from("/nodeinfo/2.1") });
    r
}

/// The 2.0 document of this server: its branding, the ActivityPub protocol,
/// no services, closed registrations and zero usage without comments.
pub fn nodeinfo_20(branding: &MagnetarBranding) -> (r: NodeInfo20)
    ensures
        r.software.name@ == branding.name@,
        r.software.version@ == branding.version@,
        r.protocols@.len() == 1,
        r.protocols@[0]@ == "activitypub"@,
        r.services.inbound@.len() == 0,
        r.services.outbound@.len() == 0,
        !r.open_registrations,
        r.usage == zero_usage_spec(false),
        r.metadata@.len() == 0,
        NodeInfo::V2_0(r).wf(),
{
    NodeInfo20 {
        software: NodeInfo10Software { name: branding.name.clone(), version: branding.version.clone() },
        protocols: activitypub_only(),
        services: no_services(),
        open_registrations: false,
        usage: zero_usage(false),
        metadata: Vec::new(),
    }
}

/// The 2.1 document of this server: as the 2.0 one, with the homepage and
/// repository of the branding, and comments counted.
pub fn nodeinfo_21(branding: &MagnetarBranding) -> (r: NodeInfo21)
    ensures
        r.software.name@ == branding.name@,
        r.software.version@ == branding.version@,
        opt_view(r.software.homepage) == Some(branding.homepage@),
        opt_view(r.software.repository) == Some(branding.repository@),
        r.protocols@.len() == 1,
        r.protocols@[0]@ == "activitypub"@,
        r.services.inbound@.len() == 0,
        r.services.outbound@.len() == 0,
        !r.open_registrations,
        r.usage == zero_usage_spec(true),
        r.metadata@.len() == 0,
        NodeInfo::V2_1(r).wf(),
{
    NodeInfo21 {
        software: NodeInfo21Software {
            name: branding.name.clone(),
            version: branding.version.clone(),
            homepage: Some(branding.homepage.clone()),
            repository: Some(branding.repository.clone()),
        },
        protocols: activitypub_only(),
        services: no_services(),
        open_registrations: false,
        usage: zero_usage(true),
        metadata: Vec::new(),
    }
}

/// The software of a document as read: homepage and repository only where
/// `extended`.
pub struct SoftwareView {
    pub name: Seq<char>,
    pub version: Seq<char>,
    pub homepage: Option<Seq<char>>,
    pub repository: Option<Seq<char>>,
}

/// Two required sets of names, `inbound` and `outbound`.
pub open spec fn pair_sets_spec(m: Seq<JsonMember>) -> Result<(Set<Seq<char>>, Set<Seq<char>>), DecodeError> {
    match text_set_field_spec(m, "inbound"@) {
        Err(e) => Err(e),
        Ok(i) => match text_set_field_spec(m, "outbound"@) {
            Err(e) => Err(e),
            Ok(o) => Ok((i, o)),
        },
    }
}

pub open spec fn users_spec(m: Seq<JsonMember>) -> Result<NodeInfo10UsageUsers, DecodeError> {
    match opt_int_field_spec(m, "activeHalfyear"@) {
        Err(e) => Err(e),
        Ok(h) => match opt_int_field_spec(m, "activeMonth"@) {
            Err(e) => Err(e),
            Ok(mo) => match opt_int_field_spec(m, "total"@) {
                Err(e) => Err(e),
                Ok(t) => Ok(NodeInfo10UsageUsers { active_halfyear: h, active_month: mo, total: t }),
            },
        },
    }
}

pub open spec fn usage_spec(m: Seq<JsonMember>) -> Result<NodeInfo10Usage, DecodeError> {
    match opt_int_field_spec(m, "localComments"@) {
        Err(e) => Err(e),
        Ok(c) => match opt_int_field_spec(m, "localPosts"@) {
            Err(e) => Err(e),
            Ok(p) => match object_field_spec(m, "users"@) {
                Err(e) => Err(e),
                Ok(um) => match users_spec(um) {
                    Err(e) => Err(e),
                    Ok(u) => Ok(NodeInfo10Usage { local_comments: c, local_posts: p, users: u }),
                },
            },
        },
    }
}

pub open spec fn software_spec(m: Seq<JsonMember>, extended: bool) -> Result<SoftwareView, DecodeError> {
    match text_field_spec(m, "name"@) {
        Err(e) => Err(e),
        Ok(n) => match text_field_spec(m, "version"@) {
            Err(e) => Err(e),
            Ok(v) => if !extended {
                Ok(SoftwareView { name: n, version: v, homepage: None, repository: None })
            } else {
                match opt_text_field_spec(m, "homepage"@) {
                    Err(e) => Err(e),
                    Ok(h) => match opt_text_field_spec(m, "repository"@) {
                        Err(e) => Err(e),
                        Ok(r) => Ok(SoftwareView { name: n, version: v, homepage: h, repository: r }),
                    },
                }
            },
        },
    }
}

/// The schema versions that are known.
pub open spec fn version_known(v: Seq<char>) -> bool {
    v == "1.0"@ || v == "1.1"@ || v == "2.0"@ || v == "2.1"@
}

/// From 2.0 on, the protocols are one set; before, an inbound and an
/// outbound one.
pub open spec fn protocols_spec(m: Seq<JsonMember>, ver: Seq<char>) -> Result<(Set<Seq<char>>, Set<Seq<char>>), DecodeError> {
    if ver == "2.0"@ || ver == "2.1"@ {
        match text_set_field_spec(m, "protocols"@) {
            Err(e) => Err(e),
            Ok(p) => Ok((p, Set::empty())),
        }
    } else {
        match object_field_spec(m, "protocols"@) {
            Err(e) => Err(e),
            Ok(pm) => pair_sets_spec(pm),
        }
    }
}

/// The members of a document of a known version, checked in the order
/// metadata, openRegistrations, protocols, services, software, usage. A
/// metadata name used twice keeps its first value.
pub open spec fn nodeinfo_body_spec(m: Seq<JsonMember>, ver: Seq<char>) -> Result<NodeInfoView, DecodeError> {
    match object_field_spec(m, "metadata"@) {
        Err(e) => Err(e),
        Ok(meta) => match bool_field_spec(m, "openRegistrations"@) {
            Err(e) => Err(e),
            Ok(open) => match protocols_spec(m, ver) {
                Err(e) => Err(e),
                Ok(p) => match object_field_spec(m, "services"@) {
                    Err(e) => Err(e),
                    Ok(sm) => match pair_sets_spec(sm) {
                        Err(e) => Err(e),
                        Ok(sv) => match object_field_spec(m, "software"@) {
                            Err(e) => Err(e),
                            Ok(swm) => match software_spec(swm, ver == "2.1"@) {
                                Err(e) => Err(e),
                                Ok(sw) => match object_field_spec(m, "usage"@) {
                                    Err(e) => Err(e),
                                    Ok(um) => match usage_spec(um) {
                                        Err(e) => Err(e),
                                        Ok(u) => Ok(
                                            NodeInfoView {
                                                version: ver,
                                                metadata: dedup_keys_spec(meta),
                                                open_registrations: open,
                                                protocols: p.0,
                                                outbound_protocols: p.1,
                                                services_inbound: sv.0,
                                                services_outbound: sv.1,
                                                software_name: sw.name,
                                                software_version: sw.version,
                                                homepage: sw.homepage,
                                                repository: sw.repository,
                                                usage: u,
                                            },
                                        ),
                                    },
                                },
                            },
                        },
                    },
                },
            },
        },
    }
}

/// The document that a JSON value reads as: the `version` member picks
/// the schema.
pub open spec fn nodeinfo_json_spec(v: JsonValue) -> Result<NodeInfoView, DecodeError> {
    match v {
        JsonValue::Object(m) => match text_field_spec(m@, "version"@) {
            Err(e) => Err(e),
            Ok(ver) => if !version_known(ver) {
                Err(DecodeError::UnknownVersion)
            } else {
                nodeinfo_body_spec(m@, ver)
            },
        },
        _ => Err(DecodeError::ExpectedObject),
    }
}

fn services_from_json(m: &Vec<JsonMember>) -> (r: Result<NodeInfo10Services, DecodeError>)
    ensures
        match r {
            Ok(s) => pair_sets_spec(m@) == Ok::<_, DecodeError>((text_set(s.inbound@), text_set(s.outbound@))) && s.wf(),
            Err(e) => pair_sets_spec(m@) == Err::<(Set<Seq<char>>, Set<Seq<char>>), _>(e),
        },
{
    let inbound = text_set_field(m, "inbound")?;
    let outbound = text_set_field(m, "outbound")?;
    Ok(NodeInfo10Services { inbound, outbound })
}

fn protocols10_from_json(m: &Vec<JsonMember>) -> (r: Result<NodeInfo10Protocols, DecodeError>)
    ensures
        match r {
            Ok(s) => pair_sets_spec(m@) == Ok::<_, DecodeError>((text_set(s.inbound@), text_set(s.outbound@))) && s.wf(),
            Err(e) => pair_sets_spec(m@) == Err::<(Set<Seq<char>>, Set<Seq<char>>), _>(e),
        },
{
    let inbound = text_set_field(m, "inbound")?;
    let outbound = text_set_field(m, "outbound")?;
    Ok(NodeInfo10Protocols { inbound, outbound })
}

fn users_from_json(m: &Vec<JsonMember>) -> (r: Result<NodeInfo10UsageUsers, DecodeError>)
    ensures
        r == users_spec(m@),
{
    let active_halfyear = opt_int_field(m, "activeHalfyear")?;
    let active_month = opt_int_field(m, "activeMonth")?;
    let total = opt_int_field(m, "total")?;
    Ok(NodeInfo10UsageUsers { active_halfyear, active_month, total })
}

fn usage_from_json(m: &Vec<JsonMember>) -> (r: Result<NodeInfo10Usage, DecodeError>)
    ensures
        r == usage_spec(m@),
{
    let local_comments = opt_int_field(m, "localComments")?;
    let local_posts = opt_int_field(m, "localPosts")?;
    let um = object_field(m, "users")?;
    let users = users_from_json(um)?;
    Ok(NodeInfo10Usage { local_comments, local_posts, users })
}

fn software10_from_json(m: &Vec<JsonMember>) -> (r: Result<NodeInfo10Software, DecodeError>)
    ensures
        match r {
            Ok(s) => software_spec(m@, false) == Ok::<_, DecodeError>(
                SoftwareView { name: s.name@, version: s.version@, homepage: None, repository: None },
            ),
            Err(e) => software_spec(m@, false) == Err::<SoftwareView, _>(e),
        },
{
    let name = text_field(m, "name")?;
    let version = text_field(m, "version")?;
    Ok(NodeInfo10Software { name, version })
}

fn software21_from_json(m: &Vec<JsonMember>) -> (r: Result<NodeInfo21Software, DecodeError>)
    ensures
        match r {
            Ok(s) => software_spec(m@, true) == Ok::<_, DecodeError>(
                SoftwareView {
                    name: s.name@,
                    version: s.version@,
                    homepage: opt_view(s.homepage),
                    repository: opt_view(s.repository),
                },
            ),
            Err(e) => software_spec(m@, true) == Err::<SoftwareView, _>(e),
        },
{
    let name = text_field(m, "name")?;
    let version = text_field(m, "version")?;
    let homepage = opt_text_field(m, "homepage")?;
    let repository = opt_text_field(m, "repository")?;
    Ok(NodeInfo21Software { homepage, name, repository, version })
}

/// Takes the `metadata` member out of `m`, which is known to be an object.
fn take_metadata(m: &mut Vec<JsonMember>) -> (r: Vec<JsonMember>)
    requires
        object_field_spec(old(m)@, "metadata"@) is Ok,
    ensures
        object_field_spec(old(m)@, "metadata"@) == Ok::<_, DecodeError>(r@),
{
    match find_field(m, "metadata") {
        Some(i) => {
            let member = m.remove(i);
            match member.value {
                JsonValue::Object(x) => x,
                _ => Vec::new(),
            }
        },
        None => Vec::new(),
    }
}

impl NodeInfo {
    /// Reads a document of any known version. The metadata object is moved
    /// into the result, without repeated names.
    pub fn from_json(v: JsonValue) -> (r: Result<NodeInfo, DecodeError>)
        ensures
            match r {
                Ok(n) => nodeinfo_json_spec(v) == Ok::<_, DecodeError>(n.view()) && n.wf(),
                Err(e) => nodeinfo_json_spec(v) == Err::<NodeInfoView, _>(e),
            },
    {
        let mut m = match v {
            JsonValue::Object(m) => m,
            _ => return Err(DecodeError::ExpectedObject),
        };
        let ghost m0 = m@;
        assert(v matches JsonValue::Object(x) && x@ == m0);
        proof {
            versions_differ();
        }
        let ver = text_field(&m, "version")?;
        let is_10 = same_text(ver.as_str(), "1.0");
        let is_11 = same_text(ver.as_str(), "1.1");
        let is_20 = same_text(ver.as_str(), "2.0");
        let is_21 = same_text(ver.as_str(), "2.1");
        if !is_10 && !is_11 && !is_20 && !is_21 {
            return Err(DecodeError::UnknownVersion);
        }
        object_field(&m, "metadata")?;
        let open_registrations = bool_field(&m, "openRegistrations")?;
        if is_20 || is_21 {
            let protocols = text_set_field(&m, "protocols")?;
            let services = services_from_json(object_field(&m, "services")?)?;
            let swm = object_field(&m, "software")?;
            if is_20 {
                let software = software10_from_json(swm)?;
                let usage = usage_from_json(object_field(&m, "usage")?)?;
                let metadata = dedup_keys(take_metadata(&mut m));
                let r = NodeInfo20 { metadata, open_registrations, protocols, services, software, usage };
                Ok(NodeInfo::V2_0(r))
            } else {
                let software = software21_from_json(swm)?;
                let usage = usage_from_json(object_field(&m, "usage")?)?;
                let metadata = dedup_keys(take_metadata(&mut m));
                let r = NodeInfo21 { metadata, open_registrations, protocols, services, software, usage };
                Ok(NodeInfo::V2_1(r))
            }
        } else {
            let protocols = protocols10_from_json(object_field(&m, "protocols")?)?;
            let services = services_from_json(object_field(&m, "services")?)?;
            let software = software10_from_json(object_field(&m, "software")?)?;
            let usage = usage_from_json(object_field(&m, "usage")?)?;
            let metadata = dedup_keys(take_metadata(&mut m));
            if is_10 {
                Ok(NodeInfo::V1_0(NodeInfo10 { metadata, open_registrations, protocols, services, software, usage }))
            } else {
                Ok(NodeInfo::V1_1(NodeInfo11 { metadata, open_registrations, protocols, services, software, usage }))
            }
        }
    }
}

proof fn versions_differ()
    ensures
        "1.0"@ != "1.1"@,
        "1.0"@ != "2.0"@,
        "1.0"@ != "2.1"@,
        "1.1"@ != "2.0"@,
        "1.1"@ != "2.1"@,
        "2.0"@ != "2.1"@,
{
    reveal_strlit("1.0");
    reveal_strlit("1.1");
    reveal_strlit("2.0");
    reveal_strlit("2.1");
    assert("1.0"@[0] != "2.0"@[0]);
    assert("1.0"@[0] != "2.1"@[0]);
    assert("1.1"@[0] != "2.0"@[0]);
    assert("1.1"@[0] != "2.1"@[0]);
    assert("1.0"@[2] != "1.1"@[2]);
    assert("2.0"@[2] != "2.1"@[2]);
}

proof fn top_level_keys_differ()
    ensures
        "version"@ != "metadata"@,
        "version"@ != "openRegistrations"@,
        "version"@ != "protocols"@,
        "version"@ != "services"@,
        "version"@ != "software"@,
        "version"@ != "usage"@,
        "metadata"@ != "openRegistrations"@,
        "metadata"@ != "protocols"@,
        "metadata"@ != "services"@,
        "metadata"@ != "software"@,
        "metadata"@ != "usage"@,
        "openRegistrations"@ != "protocols"@,
        "openRegistrations"@ != "services"@,
        "openRegistrations"@ != "software"@,
        "openRegistrations"@ != "usage"@,
        "protocols"@ != "services"@,
        "protocols"@ != "software"@,
        "protocols"@ != "usage"@,
        "services"@ != "software"@,
        "services"@ != "usage"@,
        "software"@ != "usage"@,
{
    reveal_strlit("version");
    reveal_strlit("metadata");
    reveal_strlit("openRegistrations");
    reveal_strlit("protocols");
    reveal_strlit("services");
    reveal_strlit("software");
    reveal_strlit("usage");
    assert("version"@.len() == 7 && "metadata"@.len() == 8 && "openRegistrations"@.len() == 17);
    assert("protocols"@.len() == 9 && "services"@.len() == 8 && "software"@.len() == 8 && "usage"@.len() == 5);
    assert("metadata"@[0] != "services"@[0]);
    assert("metadata"@[0] != "software"@[0]);
    assert("services"@[1] != "software"@[1]);
}

/// The member names of an object of two name sets.
pub open spec fn pair_keys() -> Seq<Seq<char>> {
    seq!["inbound"@, "outbound"@]
}

/// The member names of written user counts: only the counts that are known.
pub open spec fn users_keys(u: NodeInfo10UsageUsers) -> Seq<Seq<char>> {
    key_if(u.active_halfyear is Some, "activeHalfyear"@) + key_if(u.active_month is Some, "activeMonth"@)
        + key_if(u.total is Some, "total"@)
}

/// The member names of written usage: the known counts, then `users`.
pub open spec fn usage_keys(u: NodeInfo10Usage) -> Seq<Seq<char>> {
    key_if(u.local_comments is Some, "localComments"@) + key_if(u.local_posts is Some, "localPosts"@)
        + seq!["users"@]
}

/// The member names of written software: `homepage` and `repository` only
/// where they are known.
pub open spec fn software_keys(homepage: bool, repository: bool) -> Seq<Seq<char>> {
    seq!["name"@, "version"@] + key_if(homepage, "homepage"@) + key_if(repository, "repository"@)
}

/// The member names of a written document, in order.
pub open spec fn top_keys() -> Seq<Seq<char>> {
    seq!["version"@, "metadata"@, "openRegistrations"@, "protocols"@, "services"@, "software"@, "usage"@]
}

/// `x` is an object of exactly the name sets `inbound` and `outbound`.
pub open spec fn pair_layout(x: JsonValue, a: Set<Seq<char>>, b: Set<Seq<char>>) -> bool {
    &&& x is Object
    &&& keys_of(x->Object_0@) == pair_keys()
    &&& text_set_spec(x->Object_0@[0].value) == Ok::<_, DecodeError>(a)
    &&& text_set_spec(x->Object_0@[1].value) == Ok::<_, DecodeError>(b)
}

/// `x` is written usage with exactly the members that `u` knows.
pub open spec fn usage_layout(x: JsonValue, u: NodeInfo10Usage) -> bool {
    &&& x is Object
    &&& keys_of(x->Object_0@) == usage_keys(u)
    &&& x->Object_0@.last().value is Object
    &&& keys_of(x->Object_0@.last().value->Object_0@) == users_keys(u.users)
}

/// The shape of a written document: each member once, in a fixed order,
/// and no member for a count or link that is not known.
pub open spec fn nodeinfo_layout(r: JsonValue, v: NodeInfoView) -> bool {
    &&& r is Object
    &&& keys_of(r->Object_0@) == top_keys()
    &&& is_text(r->Object_0@[0].value, v.version)
    &&& r->Object_0@[1].value is Object
    &&& r->Object_0@[1].value->Object_0@ == v.metadata
    &&& r->Object_0@[2].value == JsonValue::Bool(v.open_registrations)
    &&& if v.version == "2.0"@ || v.version == "2.1"@ {
        text_set_spec(r->Object_0@[3].value) == Ok::<_, DecodeError>(v.protocols)
    } else {
        pair_layout(r->Object_0@[3].value, v.protocols, v.outbound_protocols)
    }
    &&& pair_layout(r->Object_0@[4].value, v.services_inbound, v.services_outbound)
    &&& r->Object_0@[5].value is Object
    &&& keys_of(r->Object_0@[5].value->Object_0@) == software_keys(v.homepage is Some, v.repository is Some)
    &&& usage_layout(r->Object_0@[6].value, v.usage)
}

/// What a written document reads back as: itself, but for metadata names
/// used twice.
pub open spec fn read_back_view(v: NodeInfoView) -> NodeInfoView {
    NodeInfoView {
        version: v.version,
        metadata: dedup_keys_spec(v.metadata),
        open_registrations: v.open_registrations,
        protocols: v.protocols,
        outbound_protocols: v.outbound_protocols,
        services_inbound: v.services_inbound,
        services_outbound: v.services_outbound,
        software_name: v.software_name,
        software_version: v.software_version,
        homepage: v.homepage,
        repository: v.repository,
        usage: v.usage,
    }
}

fn pair_sets_to_json(inbound: &Vec<String>, outbound: &Vec<String>) -> (r: JsonValue)
    ensures
        r is Object,
        pair_sets_spec(r->Object_0@) == Ok::<_, DecodeError>((text_set(inbound@), text_set(outbound@))),
        pair_layout(r, text_set(inbound@), text_set(outbound@)),
{
    broadcast use lemma_field_push;
    proof {
        reveal_strlit("inbound");
        reveal_strlit("outbound");
    }
    assert("inbound"@.len() == 7 && "outbound"@.len() == 8);
    let mut m: Vec<JsonMember> = Vec::new();
    m.push(JsonMember { key: string_from("inbound"), value: text_list_to_json(inbound) });
    m.push(JsonMember { key: string_from("outbound"), value: text_list_to_json(outbound) });
    assert(keys_of(m@) =~= pair_keys());
    JsonValue::Object(m)
}

fn push_opt_int(m: &mut Vec<JsonMember>, key: &str, n: Option<i64>)
    ensures
        forall|k: Seq<char>| #![auto] k != key@ ==> field_spec(final(m)@, k) == field_spec(old(m)@, k),
        field_spec(old(m)@, key@) is None ==> opt_int_field_spec(final(m)@, key@) == Ok::<_, DecodeError>(n),
        keys_of(final(m)@) == keys_of(old(m)@) + key_if(n is Some, key@),
{
    broadcast use lemma_field_push;
    if let Some(x) = n {
        m.push(JsonMember { key: string_from(key), value: JsonValue::Number(x) });
        assert(keys_of(m@) =~= keys_of(old(m)@) + key_if(n is Some, key@));
    } else {
        assert(keys_of(m@) =~= keys_of(old(m)@) + key_if(n is Some, key@));
    }
}

fn push_opt_text(m: &mut Vec<JsonMember>, key: &str, t: &Option<String>)
    ensures
        forall|k: Seq<char>| #![auto] k != key@ ==> field_spec(final(m)@, k) == field_spec(old(m)@, k),
        field_spec(old(m)@, key@) is None ==> opt_text_field_spec(final(m)@, key@) == Ok::<_, DecodeError>(opt_view(*t)),
        keys_of(final(m)@) == keys_of(old(m)@) + key_if(t is Some, key@),
{
    broadcast use lemma_field_push;
    if let Some(x) = t {
        m.push(JsonMember { key: string_from(key), value: JsonValue::Str(x.clone()) });
        assert(keys_of(m@) =~= keys_of(old(m)@) + key_if(t is Some, key@));
    } else {
        assert(keys_of(m@) =~= keys_of(old(m)@) + key_if(t is Some, key@));
    }
}

fn users_to_json(u: &NodeInfo10UsageUsers) -> (r: JsonValue)
    ensures
        r is Object,
        users_spec(r->Object_0@) == Ok::<_, DecodeError>(*u),
        keys_of(r->Object_0@) == users_keys(*u),
{
    proof {
        reveal_strlit("activeHalfyear");
        reveal_strlit("activeMonth");
        reveal_strlit("total");
        assert("activeHalfyear"@.len() == 14 && "activeMonth"@.len() == 11 && "total"@.len() == 5);
    }
    let mut m: Vec<JsonMember> = Vec::new();
    assert(keys_of(m@) =~= seq![]);
    push_opt_int(&mut m, "activeHalfyear", u.active_halfyear);
    push_opt_int(&mut m, "activeMonth", u.active_month);
    push_opt_int(&mut m, "total", u.total);
    assert(keys_of(m@) =~= users_keys(*u));
    JsonValue::Object(m)
}

fn usage_to_json(u: &NodeInfo10Usage) -> (r: JsonValue)
    ensures
        r is Object,
        usage_spec(r->Object_0@) == Ok::<_, DecodeError>(*u),
        usage_layout(r, *u),
{
    broadcast use lemma_field_push;
    proof {
        reveal_strlit("localComments");
        reveal_strlit("localPosts");
        reveal_strlit("users");
        assert("localComments"@.len() == 13 && "localPosts"@.len() == 10 && "users"@.len() == 5);
    }
    let mut m: Vec<JsonMember> = Vec::new();
    assert(keys_of(m@) =~= seq![]);
    push_opt_int(&mut m, "localComments", u.local_comments);
    push_opt_int(&mut m, "localPosts", u.local_posts);
    let ghost before = m@;
    m.push(JsonMember { key: string_from("users"), value: users_to_json(&u.users) });
    assert(keys_of(m@) =~= keys_of(before).push("users"@));
    assert(keys_of(m@) =~= usage_keys(*u));
    JsonValue::Object(m)
}

fn software_to_json(name: &String, version: &String, homepage: &Option<String>, repository: &Option<String>) -> (r: JsonValue)
    ensures
        r is Object,
        software_spec(r->Object_0@, true) == Ok::<_, DecodeError>(
            SoftwareView { name: name@, version: version@, homepage: opt_view(*homepage), repository: opt_view(*repository) },
        ),
        software_spec(r->Object_0@, false) == Ok::<_, DecodeError>(
            SoftwareView { name: name@, version: version@, homepage: None, repository: None },
        ),
        keys_of(r->Object_0@) == software_keys(homepage is Some, repository is Some),
{
    broadcast use lemma_field_push;
    proof {
        reveal_strlit("name");
        reveal_strlit("version");
        reveal_strlit("homepage");
        reveal_strlit("repository");
        assert("name"@.len() == 4 && "version"@.len() == 7 && "homepage"@.len() == 8 && "repository"@.len() == 10);
    }
    let mut m: Vec<JsonMember> = Vec::new();
    m.push(JsonMember { key: string_from("name"), value: JsonValue::Str(name.clone()) });
    m.push(JsonMember { key: string_from("version"), value: JsonValue::Str(version.clone()) });
    assert(keys_of(m@) =~= seq!["name"@, "version"@]);
    push_opt_text(&mut m, "homepage", homepage);
    push_opt_text(&mut m, "repository", repository);
    assert(keys_of(m@) =~= software_keys(homepage is Some, repository is Some));
    JsonValue::Object(m)
}

/// The members that every version shares, from `openRegistrations` on, with
/// the given `protocols` value.
fn push_body(
    m: &mut Vec<JsonMember>,
    open_registrations: bool,
    protocols: JsonValue,
    services: &NodeInfo10Services,
    software: JsonValue,
    usage: &NodeInfo10Usage,
)
    requires
        field_spec(old(m)@, "openRegistrations"@) is None,
        field_spec(old(m)@, "protocols"@) is None,
        field_spec(old(m)@, "services"@) is None,
        field_spec(old(m)@, "software"@) is None,
        field_spec(old(m)@, "usage"@) is None,
    ensures
        forall|k: Seq<char>|
            #![auto]
            k != "openRegistrations"@ && k != "protocols"@ && k != "services"@ && k != "software"@ && k
                != "usage"@ ==> field_spec(final(m)@, k) == field_spec(old(m)@, k),
        bool_field_spec(final(m)@, "openRegistrations"@) == Ok::<_, DecodeError>(open_registrations),
        field_spec(final(m)@, "protocols"@) == Some(protocols),
        object_field_spec(final(m)@, "services"@) matches Ok(sm) && pair_sets_spec(sm) == Ok::<_, DecodeError>(
            (text_set(services.inbound@), text_set(services.outbound@)),
        ),
        field_spec(final(m)@, "software"@) == Some(software),
        object_field_spec(final(m)@, "usage"@) matches Ok(um) && usage_spec(um) == Ok::<_, DecodeError>(*usage),
        final(m)@.len() == old(m)@.len() + 5,
        forall|i: int| 0 <= i < old(m)@.len() ==> final(m)@[i] == old(m)@[i],
        keys_of(final(m)@) == keys_of(old(m)@) + seq!["openRegistrations"@, "protocols"@, "services"@, "software"@, "usage"@],
        final(m)@[old(m)@.len() as int].value == JsonValue::Bool(open_registrations),
        final(m)@[old(m)@.len() + 1 as int].value == protocols,
        pair_layout(final(m)@[old(m)@.len() + 2 as int].value, text_set(services.inbound@), text_set(services.outbound@)),
        final(m)@[old(m)@.len() + 3 as int].value == software,
        usage_layout(final(m)@[old(m)@.len() + 4 as int].value, *usage),
{
    broadcast use lemma_field_push;
    proof {
        reveal_strlit("openRegistrations");
        reveal_strlit("protocols");
        reveal_strlit("services");
        reveal_strlit("software");
        reveal_strlit("usage");
        top_level_keys_differ();
    }
    let ghost start = m@;
    m.push(JsonMember { key: string_from("openRegistrations"), value: JsonValue::Bool(open_registrations) });
    m.push(JsonMember { key: string_from("protocols"), value: protocols });
    m.push(JsonMember { key: string_from("services"), value: pair_sets_to_json(&services.inbound, &services.outbound) });
    m.push(JsonMember { key: string_from("software"), value: software });
    m.push(JsonMember { key: string_from("usage"), value: usage_to_json(usage) });
    assert(keys_of(m@) =~= keys_of(start) + seq!["openRegistrations"@, "protocols"@, "services"@, "software"@, "usage"@]);
}

impl NodeInfo {
    /// Writes the document: the members of `top_keys` once each, in that
    /// order, and no member for a count or link that is not known. What is
    /// written reads back as the same document, but for metadata names used
    /// twice, of which the first is kept.
    pub fn to_json(self) -> (r: JsonValue)
        ensures
            nodeinfo_layout(r, self.view()),
            nodeinfo_json_spec(r) == Ok::<_, DecodeError>(read_back_view(self.view())),
            self.wf() ==> nodeinfo_json_spec(r) == Ok::<_, DecodeError>(self.view()),
    {
        broadcast use lemma_field_push;
        proof {
            reveal_strlit("version");
            reveal_strlit("metadata");
            reveal_strlit("1.0");
            reveal_strlit("1.1");
            reveal_strlit("2.0");
            reveal_strlit("2.1");
            reveal_strlit("openRegistrations");
            reveal_strlit("protocols");
            reveal_strlit("services");
            reveal_strlit("software");
            reveal_strlit("usage");
            top_level_keys_differ();
            versions_differ();
        }
        let ghost view = self.view();
        let ghost wf = self.wf();
        let mut m: Vec<JsonMember> = Vec::new();
        match self {
            NodeInfo::V1_0(n) => {
                m.push(JsonMember { key: string_from("version"), value: JsonValue::Str(string_from("1.0")) });
                m.push(JsonMember { key: string_from("metadata"), value: JsonValue::Object(n.metadata) });
                let p = pair_sets_to_json(&n.protocols.inbound, &n.protocols.outbound);
                let sw = software_to_json(&n.software.name, &n.software.version, &None, &None);
                push_body(&mut m, n.open_registrations, p, &n.services, sw, &n.usage);
            },
            NodeInfo::V1_1(n) => {
                m.push(JsonMember { key: string_from("version"), value: JsonValue::Str(string_from("1.1")) });
                m.push(JsonMember { key: string_from("metadata"), value: JsonValue::Object(n.metadata) });
                let p = pair_sets_to_json(&n.protocols.inbound, &n.protocols.outbound);
                let sw = software_to_json(&n.software.name, &n.software.version, &None, &None);
                push_body(&mut m, n.open_registrations, p, &n.services, sw, &n.usage);
            },
            NodeInfo::V2_0(n) => {
                m.push(JsonMember { key: string_from("version"), value: JsonValue::Str(string_from("2.0")) });
                m.push(JsonMember { key: string_from("metadata"), value: JsonValue::Object(n.metadata) });
                let p = text_list_to_json(&n.protocols);
                let sw = software_to_json(&n.software.name, &n.software.version, &None, &None);
                push_body(&mut m, n.open_registrations, p, &n.services, sw, &n.usage);
            },
            NodeInfo::V2_1(n) => {
                m.push(JsonMember { key: string_from("version"), value: JsonValue::Str(string_from("2.1")) });
                m.push(JsonMember { key: string_from("metadata"), value: JsonValue::Object(n.metadata) });
                let p = text_list_to_json(&n.protocols);
                let sw = software_to_json(
                    &n.software.name,
                    &n.software.version,
                    &n.software.homepage,
                    &n.software.repository,
                );
                push_body(&mut m, n.open_registrations, p, &n.services, sw, &n.usage);
            },
        }
        let r = JsonValue::Object(m);
        assert(keys_of(m@) =~= top_keys());
        assert(nodeinfo_json_spec(r) =~= Ok::<_, DecodeError>(read_back_view(view)));
        proof {
            if wf {
                lemma_dedup_keys_distinct(view.metadata);
                assert(read_back_view(view) == view);
            }
        }
        r
    }
}

} // verus!
