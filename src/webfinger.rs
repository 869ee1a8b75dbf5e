//! WebFinger documents and the resolution of a WebFinger query.
use vstd::prelude::*;
use crate::acct::{acct_scheme, parse_spec, serialize_spec, Acct};
use crate::error::DecodeError;
use crate::json::{field_spec, field_text, field_text_spec, get_field, is_text, is_text_list, member_is, text_member, JsonMember, JsonValue};
use crate::config::MagnetarNetworking;
use crate::tag::{lenient_parse_acct_decode, parse_tag_decoded_spec, tag_text_spec, FediverseTag};
use crate::tags::{field_accepts, field_accepts_spec, ContentActivityStreams, ContentHtml, RelOStatusSubscribe, RelSelf, RelWebFingerProfilePage, TaggedString};
use crate::text::{concat, has_prefix, opt_view, same_text, starts_with};

verus! {

/// What a WebFinger query or document is about.
#[derive(Clone, Debug, PartialEq, Eq)]
pub enum WebFingerSubject {
    Acct(Acct),
    Url(String),
}

/// The view of a subject.
pub enum SubjectView {
    Acct(Seq<char>),
    Url(Seq<char>),
}

impl View for WebFingerSubject {
    type V = SubjectView;

    open spec fn view(&self) -> SubjectView {
        match self {
            WebFingerSubject::Acct(a) => SubjectView::Acct(a@),
            WebFingerSubject::Url(u) => SubjectView::Url(u@),
        }
    }
}

/// One link of a WebFinger document. Which kind it is shows in which
/// fields it has and in the literals that they hold.
#[derive(Clone, Debug, PartialEq, Eq)]
pub enum WebFingerRel {
    RelWebFingerProfilePage { rel: RelWebFingerProfilePage, content_type: ContentHtml, href: String },
    RelSelf { rel: RelSelf, content_type: ContentActivityStreams, href: String },
    RelOStatusSubscribe { rel: RelOStatusSubscribe, template: String },
}

/// The view of a link: its kind, and its target or template.
pub enum LinkView {
    ProfilePage(Seq<char>),
    SelfLink(Seq<char>),
    Subscribe(Seq<char>),
}

impl View for WebFingerRel {
    type V = LinkView;

    open spec fn view(&self) -> LinkView {
        match self {
            WebFingerRel::RelWebFingerProfilePage { href, .. } => LinkView::ProfilePage(href@),
            WebFingerRel::RelSelf { href, .. } => LinkView::SelfLink(href@),
            WebFingerRel::RelOStatusSubscribe { template, .. } => LinkView::Subscribe(template@),
        }
    }
}

/// A WebFinger (JRD) document.
#[derive(Clone, Debug, PartialEq, Eq)]
pub struct WebFinger {
    pub subject: WebFingerSubject,
    pub aliases: Vec<WebFingerSubject>,
    pub links: Vec<WebFingerRel>,
}

pub open spec fn subjects_view(s: Seq<WebFingerSubject>) -> Seq<SubjectView> {
    s.map_values(|x: WebFingerSubject| x@)
}

pub open spec fn links_view(s: Seq<WebFingerRel>) -> Seq<LinkView> {
    s.map_values(|x: WebFingerRel| x@)
}

/// The account that a user record names, as a lookup asks for it.
pub enum QueryView {
    ByTag { name: Seq<char>, host: Option<Seq<char>> },
    ByUri { uri: Seq<char> },
}

/// How the user that a query is about is looked up.
#[derive(Clone, Debug, PartialEq, Eq)]
pub enum UserQuery {
    /// By name, and by host where the account is not local.
    ByTag { name: String, host: Option<String> },
    /// By the exact URI of the account.
    ByUri { uri: String },
}

impl View for UserQuery {
    type V = QueryView;

    open spec fn view(&self) -> QueryView {
        match self {
            UserQuery::ByTag { name, host } => QueryView::ByTag { name: name@, host: opt_view(*host) },
            UserQuery::ByUri { uri } => QueryView::ByUri { uri: uri@ },
        }
    }
}

/// How a WebFinger query ends when it does not end in a document.
#[derive(Clone, Copy, Debug, PartialEq, Eq, Structural)]
pub enum WebFingerError {
    /// The resource does not read as a valid tag.
    Unprocessable,
    /// No account matches.
    NotFound,
    /// The account store failed.
    Internal,
}

impl WebFingerError {
    /// The HTTP status that answers the query.
    pub fn status_code(&self) -> (r: u16)
        ensures
            *self == WebFingerError::Unprocessable ==> r == 422,
            *self == WebFingerError::NotFound ==> r == 404,
            *self == WebFingerError::Internal ==> r == 500,
    {
        match self {
            WebFingerError::Unprocessable => 422,
            WebFingerError::NotFound => 404,
            WebFingerError::Internal => 500,
        }
    }
}

/// The account store could not answer.
#[derive(Clone, Copy, Debug, PartialEq, Eq, Structural)]
pub struct LookupFailed;

/// The fields of an account record that a WebFinger answer reads.
#[derive(Clone, Debug, PartialEq, Eq)]
pub struct UserRecord {
    pub username: String,
    /// The host of a remote account; absent for a local one.
    pub host: Option<String>,
    /// The canonical URI of the account's actor, where it is known.
    pub uri: Option<String>,
}

/// A resource that is not an `http:` or `https:` URL is read as an account
/// identifier that lacks its scheme.
pub open spec fn normalize_spec(s: SubjectView) -> SubjectView {
    match s {
        SubjectView::Url(u) => if !has_prefix(u, "http:"@) && !has_prefix(u, "https:"@) {
            SubjectView::Acct(u)
        } else {
            SubjectView::Url(u)
        },
        SubjectView::Acct(a) => SubjectView::Acct(a),
    }
}

/// The lookup that a query resource asks for. A local host is left out, so
/// that local accounts are found whatever host they were named with.
pub open spec fn plan_spec(resource: SubjectView, local_host: Seq<char>) -> Result<QueryView, WebFingerError> {
    match normalize_spec(resource) {
        SubjectView::Acct(a) => match parse_tag_decoded_spec(a) {
            Err(_) => Err(WebFingerError::Unprocessable),
            Ok(t) => Ok(
                QueryView::ByTag {
                    name: t.0,
                    host: match t.1 {
                        Some(h) => if h == local_host {
                            None
                        } else {
                            Some(h)
                        },
                        None => None,
                    },
                },
            ),
        },
        SubjectView::Url(u) => Ok(QueryView::ByUri { uri: u }),
    }
}

/// The host of an account record: its own, or this server's for a local one.
pub open spec fn canonical_host_spec(user: UserRecord, local_host: Seq<char>) -> Seq<char> {
    match user.host {
        Some(h) => h@,
        None => local_host,
    }
}

/// The address of a local account's profile page.
pub open spec fn profile_url_spec(proto: Seq<char>, host: Seq<char>, name: Seq<char>) -> Seq<char> {
    proto + "://"@ + host + "/@"@ + name
}

/// The subscribe template of this server.
pub open spec fn subscribe_template_spec(proto: Seq<char>, host: Seq<char>) -> Seq<char> {
    proto + "://"@ + host + "/authorize-follow?acct={uri}"@
}

/// The subject of the answer for an account record.
pub open spec fn answer_subject_spec(user: UserRecord, net: MagnetarNetworking) -> SubjectView {
    SubjectView::Acct(
        parse_spec(tag_text_spec((user.username@, Some(canonical_host_spec(user, net.host@))))),
    )
}

/// The account is local: its host is this server's.
pub open spec fn is_local_spec(user: UserRecord, net: MagnetarNetworking) -> bool {
    canonical_host_spec(user, net.host@) == net.host@
}

/// The links of the answer: the subscribe template and the profile page
/// for a local account, then the actor link where the record has a URI.
pub open spec fn answer_links_spec(user: UserRecord, net: MagnetarNetworking) -> Seq<LinkView> {
    let proto = net.protocol.text();
    let local: Seq<LinkView> = if is_local_spec(user, net) {
        seq![
            LinkView::Subscribe(subscribe_template_spec(proto, net.host@)),
            LinkView::ProfilePage(profile_url_spec(proto, net.host@, user.username@)),
        ]
    } else {
        seq![]
    };
    match user.uri {
        Some(u) => local.push(LinkView::SelfLink(u@)),
        None => local,
    }
}

/// The aliases of the answer: the profile page of a local account.
pub open spec fn answer_aliases_spec(user: UserRecord, net: MagnetarNetworking) -> Seq<SubjectView> {
    if is_local_spec(user, net) {
        seq![SubjectView::Url(profile_url_spec(net.protocol.text(), net.host@, user.username@))]
    } else {
        seq![]
    }
}

/// The answer for an account record.
pub open spec fn answer_spec(w: WebFinger, user: UserRecord, net: MagnetarNetworking) -> bool {
    &&& w.subject@ == answer_subject_spec(user, net)
    &&& subjects_view(w.aliases@) == answer_aliases_spec(user, net)
    &&& links_view(w.links@) == answer_links_spec(user, net)
}

/// Reads a resource that is not an `http:` or `https:` URL as an account.
pub fn normalize_subject(resource: WebFingerSubject) -> (r: WebFingerSubject)
    ensures
        r@ == normalize_spec(resource@),
{
    match resource {
        WebFingerSubject::Acct(a) => WebFingerSubject::Acct(a),
        WebFingerSubject::Url(url) => {
            if !starts_with(url.as_str(), "http:") && !starts_with(url.as_str(), "https:") {
                WebFingerSubject::Acct(Acct::new(url.as_str()))
            } else {
                WebFingerSubject::Url(url)
            }
        },
    }
}

/// Decides how the account that a query resource names is looked up.
pub fn plan_user_query(resource: WebFingerSubject, local_host: &str) -> (r: Result<UserQuery, WebFingerError>)
    ensures
        match r {
            Ok(q) => plan_spec(resource@, local_host@) == Ok::<QueryView, WebFingerError>(q@),
            Err(e) => plan_spec(resource@, local_host@) == Err::<QueryView, WebFingerError>(e),
        },
{
    match normalize_subject(resource) {
        WebFingerSubject::Acct(acct) => {
            let tag: FediverseTag = match lenient_parse_acct_decode(&acct) {
                Ok(t) => t,
                Err(_) => return Err(WebFingerError::Unprocessable),
            };
            let FediverseTag { name, host } = tag;
            let host = match host {
                Some(h) => if same_text(h.as_str(), local_host) {
                    None
                } else {
                    Some(h)
                },
                None => None,
            };
            Ok(UserQuery::ByTag { name, host })
        },
        WebFingerSubject::Url(uri) => Ok(UserQuery::ByUri { uri }),
    }
}

/// Builds the answer for the account record that a lookup found.
pub fn build_webfinger(user: &UserRecord, networking: &MagnetarNetworking) -> (r: WebFinger)
    ensures
        answer_spec(r, *user, *networking),
{
    let local_host = networking.host.as_str();
    let host: &str = match &user.host {
        Some(h) => h.as_str(),
        None => local_host,
    };
    let tag = FediverseTag::from_parts(user.username.as_str(), Some(host));
    let mut links: Vec<WebFingerRel> = Vec::new();
    let mut aliases: Vec<WebFingerSubject> = Vec::new();
    let proto = networking.protocol.as_str();
    let base = concat(concat(proto, "://").as_str(), local_host);
    if same_text(host, local_host) {
        let template = concat(base.as_str(), "/authorize-follow?acct={uri}");
        let user_url = concat(concat(base.as_str(), "/@").as_str(), user.username.as_str());
        links.push(WebFingerRel::RelOStatusSubscribe { rel: RelOStatusSubscribe, template });
        links.push(
            WebFingerRel::RelWebFingerProfilePage {
                rel: RelWebFingerProfilePage,
                content_type: ContentHtml,
                href: user_url.clone(),
            },
        );
        aliases.push(WebFingerSubject::Url(user_url));
        assert(links_view(links@) =~= seq![
            LinkView::Subscribe(subscribe_template_spec(proto@, local_host@)),
            LinkView::ProfilePage(profile_url_spec(proto@, local_host@, user.username@)),
        ]);
        assert(subjects_view(aliases@) =~= answer_aliases_spec(*user, *networking));
    } else {
        assert(links_view(links@) =~= seq![]);
        assert(subjects_view(aliases@) =~= answer_aliases_spec(*user, *networking));
    }
    let ghost before = links_view(links@);
    if let Some(uri) = &user.uri {
        links.push(
            WebFingerRel::RelSelf {
                rel: RelSelf,
                content_type: ContentActivityStreams,
                href: uri.clone(),
            },
        );
        assert(links_view(links@) =~= before.push(LinkView::SelfLink(uri@)));
    }
    WebFinger { subject: WebFingerSubject::Acct(tag.to_acct()), aliases, links }
}

/// Ends a WebFinger query once the lookup has answered: a store failure is
/// an internal error, no account is not found, and an account gets its
/// document.
pub fn webfinger_response(lookup: Result<Option<UserRecord>, LookupFailed>, networking: &MagnetarNetworking) -> (r: Result<WebFinger, WebFingerError>)
    ensures
        lookup is Err ==> r == Err::<WebFinger, WebFingerError>(WebFingerError::Internal),
        lookup == Ok::<Option<UserRecord>, LookupFailed>(None) ==> r == Err::<WebFinger, WebFingerError>(WebFingerError::NotFound),
        lookup matches Ok(Some(u)) ==> (r matches Ok(w) && answer_spec(w, u, *networking)),
{
    match lookup {
        Err(_) => Err(WebFingerError::Internal),
        Ok(None) => Err(WebFingerError::NotFound),
        Ok(Some(user)) => Ok(build_webfinger(&user, networking)),
    }
}

/// The wire string of a subject.
pub open spec fn subject_wire_spec(s: SubjectView) -> Seq<char> {
    match s {
        SubjectView::Acct(a) => serialize_spec(a),
        SubjectView::Url(u) => u,
    }
}

/// The subject that a JSON value reads as: an account where the string has
/// the `acct:` scheme, else a URL.
pub open spec fn subject_json_spec(v: JsonValue) -> Option<SubjectView> {
    match v {
        JsonValue::Str(s) => if has_prefix(s@, acct_scheme()) {
            Some(SubjectView::Acct(s@.skip(acct_scheme().len() as int)))
        } else {
            Some(SubjectView::Url(s@))
        },
        _ => None,
    }
}

/// The link that a JSON value reads as: the profile page, actor and
/// subscribe shapes are tried in that order.
pub open spec fn link_json_spec(v: JsonValue) -> Option<LinkView> {
    match v {
        JsonValue::Object(m) => if field_accepts_spec::<RelWebFingerProfilePage>(m@, "rel"@)
            && field_accepts_spec::<ContentHtml>(m@, "type"@) && field_text_spec(m@, "href"@) is Some {
            Some(LinkView::ProfilePage(field_text_spec(m@, "href"@)->Some_0))
        } else if field_accepts_spec::<RelSelf>(m@, "rel"@) && field_accepts_spec::<ContentActivityStreams>(
            m@,
            "type"@,
        ) && field_text_spec(m@, "href"@) is Some {
            Some(LinkView::SelfLink(field_text_spec(m@, "href"@)->Some_0))
        } else if field_accepts_spec::<RelOStatusSubscribe>(m@, "rel"@) && field_text_spec(
            m@,
            "template"@,
        ) is Some {
            Some(LinkView::Subscribe(field_text_spec(m@, "template"@)->Some_0))
        } else {
            None
        },
        _ => None,
    }
}

/// The JSON form of a link, with its members in the order rel, type, href
/// (or rel, template).
pub open spec fn link_json_shape(v: JsonValue, l: LinkView) -> bool {
    &&& v is Object
    &&& match l {
        LinkView::ProfilePage(h) => v->Object_0@.len() == 3 && member_is(
            v->Object_0@[0],
            "rel"@,
            RelWebFingerProfilePage::literal(),
        ) && member_is(v->Object_0@[1], "type"@, ContentHtml::literal()) && member_is(
            v->Object_0@[2],
            "href"@,
            h,
        ),
        LinkView::SelfLink(h) => v->Object_0@.len() == 3 && member_is(
            v->Object_0@[0],
            "rel"@,
            RelSelf::literal(),
        ) && member_is(v->Object_0@[1], "type"@, ContentActivityStreams::literal()) && member_is(
            v->Object_0@[2],
            "href"@,
            h,
        ),
        LinkView::Subscribe(t) => v->Object_0@.len() == 2 && member_is(
            v->Object_0@[0],
            "rel"@,
            RelOStatusSubscribe::literal(),
        ) && member_is(v->Object_0@[1], "template"@, t),
    }
}

pub open spec fn subject_of_json(v: JsonValue) -> SubjectView {
    match subject_json_spec(v) {
        Some(s) => s,
        None => SubjectView::Url(seq![]),
    }
}

pub open spec fn link_of_json(v: JsonValue) -> LinkView {
    match link_json_spec(v) {
        Some(l) => l,
        None => LinkView::SelfLink(seq![]),
    }
}

/// The subjects that a list of JSON values reads as, where each of them does.
pub open spec fn subjects_json_spec(items: Seq<JsonValue>) -> Option<Seq<SubjectView>> {
    if forall|i: int| 0 <= i < items.len() ==> (#[trigger] subject_json_spec(items[i])) is Some {
        Some(items.map_values(|x: JsonValue| subject_of_json(x)))
    } else {
        None
    }
}

/// The links that a list of JSON values reads as, where each of them does.
pub open spec fn links_json_spec(items: Seq<JsonValue>) -> Option<Seq<LinkView>> {
    if forall|i: int| 0 <= i < items.len() ==> (#[trigger] link_json_spec(items[i])) is Some {
        Some(items.map_values(|x: JsonValue| link_of_json(x)))
    } else {
        None
    }
}

/// The view of a whole document.
pub open spec fn webfinger_view(w: WebFinger) -> (SubjectView, Seq<SubjectView>, Seq<LinkView>) {
    (w.subject@, subjects_view(w.aliases@), links_view(w.links@))
}

/// The document that a JSON value reads as. `subject` and `links` are
/// required; absent `aliases` are none.
pub open spec fn webfinger_json_spec(v: JsonValue) -> Result<
    (SubjectView, Seq<SubjectView>, Seq<LinkView>),
    DecodeError,
> {
    match v {
        JsonValue::Object(m) => match field_spec(m@, "subject"@) {
            None => Err(DecodeError::MissingField),
            Some(sv) => match subject_json_spec(sv) {
                None => Err(DecodeError::NoVariantMatched),
                Some(subject) => {
                    let aliases: Result<Seq<SubjectView>, DecodeError> = match field_spec(
                        m@,
                        "aliases"@,
                    ) {
                        None => Ok(seq![]),
                        Some(JsonValue::Array(items)) => match subjects_json_spec(items@) {
                            Some(a) => Ok(a),
                            None => Err(DecodeError::NoVariantMatched),
                        },
                        Some(_) => Err(DecodeError::ExpectedArray),
                    };
                    match aliases {
                        Err(e) => Err(e),
                        Ok(a) => match field_spec(m@, "links"@) {
                            None => Err(DecodeError::MissingField),
                            Some(JsonValue::Array(items)) => match links_json_spec(items@) {
                                Some(l) => Ok((subject, a, l)),
                                None => Err(DecodeError::NoVariantMatched),
                            },
                            Some(_) => Err(DecodeError::ExpectedArray),
                        },
                    }
                },
            },
        },
        _ => Err(DecodeError::ExpectedObject),
    }
}

impl WebFingerSubject {
    /// Reads a subject: an `acct:` string is an account, any other string a
    /// URL.
    pub fn from_json(v: &JsonValue) -> (r: Result<WebFingerSubject, DecodeError>)
        ensures
            match r {
                Ok(s) => subject_json_spec(*v) == Some(s@),
                Err(e) => subject_json_spec(*v) is None && e == DecodeError::NoVariantMatched,
            },
    {
        if let Ok(a) = Acct::from_json(v) {
            return Ok(WebFingerSubject::Acct(a));
        }
        match v {
            JsonValue::Str(s) => Ok(WebFingerSubject::Url(s.clone())),
            _ => Err(DecodeError::NoVariantMatched),
        }
    }

    /// Writes a subject as its wire string.
    pub fn to_json(&self) -> (r: JsonValue)
        ensures
            is_text(r, subject_wire_spec(self@)),
    {
        match self {
            WebFingerSubject::Acct(a) => a.to_json(),
            WebFingerSubject::Url(u) => JsonValue::Str(u.clone()),
        }
    }
}

impl WebFingerRel {
    /// Reads a link, trying its three shapes in order.
    pub fn from_json(v: &JsonValue) -> (r: Result<WebFingerRel, DecodeError>)
        ensures
            match r {
                Ok(l) => link_json_spec(*v) == Some(l@),
                Err(e) => link_json_spec(*v) is None && e == DecodeError::NoVariantMatched,
            },
    {
        let m = match v {
            JsonValue::Object(m) => m,
            _ => return Err(DecodeError::NoVariantMatched),
        };
        let href = field_text(m, "href");
        if field_accepts::<RelWebFingerProfilePage>(m, "rel") && field_accepts::<ContentHtml>(m, "type") {
            if let Some(h) = href {
                return Ok(
                    WebFingerRel::RelWebFingerProfilePage {
                        rel: RelWebFingerProfilePage,
                        content_type: ContentHtml,
                        href: h,
                    },
                );
            }
        }
        let href = field_text(m, "href");
        if field_accepts::<RelSelf>(m, "rel") && field_accepts::<ContentActivityStreams>(m, "type") {
            if let Some(h) = href {
                return Ok(
                    WebFingerRel::RelSelf { rel: RelSelf, content_type: ContentActivityStreams, href: h },
                );
            }
        }
        if field_accepts::<RelOStatusSubscribe>(m, "rel") {
            if let Some(t) = field_text(m, "template") {
                return Ok(WebFingerRel::RelOStatusSubscribe { rel: RelOStatusSubscribe, template: t });
            }
        }
        Err(DecodeError::NoVariantMatched)
    }

    /// Writes a link with its literals.
    pub fn to_json(&self) -> (r: JsonValue)
        ensures
            link_json_shape(r, self@),
    {
        let mut m: Vec<JsonMember> = Vec::new();
        match self {
            WebFingerRel::RelWebFingerProfilePage { rel, content_type, href } => {
                m.push(text_member("rel", rel.as_str().to_owned()));
                m.push(text_member("type", content_type.as_str().to_owned()));
                m.push(text_member("href", href.clone()));
            },
            WebFingerRel::RelSelf { rel, content_type, href } => {
                m.push(text_member("rel", rel.as_str().to_owned()));
                m.push(text_member("type", content_type.as_str().to_owned()));
                m.push(text_member("href", href.clone()));
            },
            WebFingerRel::RelOStatusSubscribe { rel, template } => {
                m.push(text_member("rel", rel.as_str().to_owned()));
                m.push(text_member("template", template.clone()));
            },
        }
        JsonValue::Object(m)
    }
}

fn subjects_from_json(items: &Vec<JsonValue>) -> (r: Result<Vec<WebFingerSubject>, DecodeError>)
    ensures
        match r {
            Ok(v) => subjects_json_spec(items@) == Some(subjects_view(v@)),
            Err(e) => subjects_json_spec(items@) is None && e == DecodeError::NoVariantMatched,
        },
{
    let mut out: Vec<WebFingerSubject> = Vec::new();
    let mut i: usize = 0;
    while i < items.len()
        invariant
            i <= items@.len(),
            out@.len() == i,
            forall|j: int| 0 <= j < i ==> subject_json_spec(#[trigger] items@[j]) == Some(out@[j]@),
        decreases items@.len() - i,
    {
        match WebFingerSubject::from_json(&items[i]) {
            Ok(s) => out.push(s),
            Err(e) => {
                assert(subject_json_spec(items@[i as int]) is None);
                return Err(e);
            },
        }
        i = i + 1;
    }
    assert(subjects_view(out@) =~= items@.map_values(|x: JsonValue| subject_of_json(x)));
    Ok(out)
}

fn links_from_json(items: &Vec<JsonValue>) -> (r: Result<Vec<WebFingerRel>, DecodeError>)
    ensures
        match r {
            Ok(v) => links_json_spec(items@) == Some(links_view(v@)),
            Err(e) => links_json_spec(items@) is None && e == DecodeError::NoVariantMatched,
        },
{
    let mut out: Vec<WebFingerRel> = Vec::new();
    let mut i: usize = 0;
    while i < items.len()
        invariant
            i <= items@.len(),
            out@.len() == i,
            forall|j: int| 0 <= j < i ==> link_json_spec(#[trigger] items@[j]) == Some(out@[j]@),
        decreases items@.len() - i,
    {
        match WebFingerRel::from_json(&items[i]) {
            Ok(l) => out.push(l),
            Err(e) => {
                assert(link_json_spec(items@[i as int]) is None);
                return Err(e);
            },
        }
        i = i + 1;
    }
    assert(links_view(out@) =~= items@.map_values(|x: JsonValue| link_of_json(x)));
    Ok(out)
}

impl WebFinger {
    /// Reads a document.
    pub fn from_json(v: &JsonValue) -> (r: Result<WebFinger, DecodeError>)
        ensures
            match r {
                Ok(w) => webfinger_json_spec(*v) == Ok::<_, DecodeError>(webfinger_view(w)),
                Err(e) => webfinger_json_spec(*v) == Err::<(SubjectView, Seq<SubjectView>, Seq<LinkView>), _>(e),
            },
    {
        let m = match v {
            JsonValue::Object(m) => m,
            _ => return Err(DecodeError::ExpectedObject),
        };
        let subject = match get_field(m, "subject") {
            None => return Err(DecodeError::MissingField),
            Some(sv) => WebFingerSubject::from_json(sv)?,
        };
        let aliases = match get_field(m, "aliases") {
            None => Vec::new(),
            Some(JsonValue::Array(items)) => subjects_from_json(items)?,
            Some(_) => return Err(DecodeError::ExpectedArray),
        };
        proof {
            if field_spec(m@, "aliases"@) is None {
                assert(subjects_view(aliases@) =~= seq![]);
            }
        }
        let links = match get_field(m, "links") {
            None => return Err(DecodeError::MissingField),
            Some(JsonValue::Array(items)) => links_from_json(items)?,
            Some(_) => return Err(DecodeError::ExpectedArray),
        };
        Ok(WebFinger { subject, aliases, links })
    }

    /// Writes a document: `subject`, then `aliases` where there are any,
    /// then `links`.
    pub fn to_json(&self) -> (r: JsonValue)
        ensures
            r is Object,
            self.aliases@.len() == 0 ==> r->Object_0@.len() == 2,
            self.aliases@.len() > 0 ==> r->Object_0@.len() == 3,
            member_is(r->Object_0@[0], "subject"@, subject_wire_spec(self.subject@)),
            self.aliases@.len() > 0 ==> r->Object_0@[1].key@ == "aliases"@ && is_text_list(
                r->Object_0@[1].value,
                subjects_view(self.aliases@).map_values(|s: SubjectView| subject_wire_spec(s)),
            ),
            r->Object_0@.last().key@ == "links"@,
            r->Object_0@.last().value is Array,
            r->Object_0@.last().value->Array_0@.len() == self.links@.len(),
            forall|i: int|
                0 <= i < self.links@.len() ==> link_json_shape(
                    #[trigger] r->Object_0@.last().value->Array_0@[i],
                    self.links@[i]@,
                ),
    {
        let mut m: Vec<JsonMember> = Vec::new();
        m.push(JsonMember { key: "subject".to_owned(), value: self.subject.to_json() });
        if self.aliases.len() > 0 {
            let mut items: Vec<JsonValue> = Vec::new();
            let mut i: usize = 0;
            while i < self.aliases.len()
                invariant
                    i <= self.aliases@.len(),
                    items@.len() == i,
                    forall|j: int| 0 <= j < i ==> is_text(#[trigger] items@[j], subject_wire_spec(self.aliases@[j]@)),
                decreases self.aliases@.len() - i,
            {
                items.push(self.aliases[i].to_json());
                i = i + 1;
            }
            m.push(JsonMember { key: "aliases".to_owned(), value: JsonValue::Array(items) });
        }
        let mut links: Vec<JsonValue> = Vec::new();
        let mut i: usize = 0;
        while i < self.links.len()
            invariant
                i <= self.links@.len(),
                links@.len() == i,
                forall|j: int| 0 <= j < i ==> link_json_shape(#[trigger] links@[j], self.links@[j]@),
            decreases self.links@.len() - i,
        {
            links.push(self.links[i].to_json());
            i = i + 1;
        }
        m.push(JsonMember { key: "links".to_owned(), value: JsonValue::Array(links) });
        JsonValue::Object(m)
    }
}

} // verus!
