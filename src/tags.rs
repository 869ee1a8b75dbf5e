//! Marker types bound to fixed strings: content types, link relations and
//! the ActivityStreams context. Each has one value, writes its canonical
//! literal, and reads only the strings it accepts.
use vstd::prelude::*;
use crate::error::DecodeError;
use crate::json::{field_spec, get_field, is_text, JsonMember, JsonValue};
use crate::text::same_text;

verus! {

/// A type with exactly one value, written on the wire as a fixed string.
pub trait TaggedString: Sized {
    /// The strings that read as this type.
    spec fn accepts(s: Seq<char>) -> bool;

    /// The string that this type is written as.
    spec fn literal() -> Seq<char>;

    /// The canonical literal is accepted.
    proof fn lemma_accepts_literal()
        ensures
            Self::accepts(Self::literal()),
    ;

    /// The canonical literal.
    fn as_str(&self) -> (r: &'static str)
        ensures
            r@ == Self::literal(),
    ;

    /// Reads `s`, which must be one of the accepted strings.
    fn from_str(s: &str) -> (r: Result<Self, DecodeError>)
        ensures
            r is Ok <==> Self::accepts(s@),
            r matches Err(e) ==> (e matches DecodeError::LiteralMismatch(t) && t@ == s@),
    ;
}

/// `v` is a string that reads as `T`.
pub open spec fn str_accepted<T: TaggedString>(v: JsonValue) -> bool {
    v matches JsonValue::Str(s) && T::accepts(s@)
}

/// Reads a tag from a JSON value, which must be an accepted string.
pub fn tag_from_json<T: TaggedString>(v: &JsonValue) -> (r: Result<T, DecodeError>)
    ensures
        !(v is Str) ==> (r matches Err(e) && e == DecodeError::ExpectedString),
        v is Str ==> (r is Ok <==> str_accepted::<T>(*v)),
        v matches JsonValue::Str(s) ==> (r matches Err(e) ==> (e matches DecodeError::LiteralMismatch(t) && t@ == s@)),
{
    match v {
        JsonValue::Str(s) => T::from_str(s.as_str()),
        _ => Err(DecodeError::ExpectedString),
    }
}

/// Writes a tag as its canonical literal.
pub fn tag_to_json<T: TaggedString>(t: &T) -> (r: JsonValue)
    ensures
        is_text(r, T::literal()),
{
    JsonValue::Str(t.as_str().to_owned())
}

/// The ActivityStreams JSON media type.
#[derive(Clone, Copy, Debug, PartialEq, Eq, Structural)]
pub struct ContentActivityStreams;

impl TaggedString for ContentActivityStreams {
    open spec fn accepts(s: Seq<char>) -> bool {
        s == "application/activity+json"@
    }

    open spec fn literal() -> Seq<char> {
        "application/activity+json"@
    }

    proof fn lemma_accepts_literal() {
    }

    fn as_str(&self) -> (r: &'static str) {
        "application/activity+json"
    }

    fn from_str(s: &str) -> (r: Result<Self, DecodeError>) {
        if same_text(s, "application/activity+json") {
            Ok(ContentActivityStreams)
        } else {
            Err(DecodeError::LiteralMismatch(s.to_owned()))
        }
    }
}

/// The HTML media type.
#[derive(Clone, Copy, Debug, PartialEq, Eq, Structural)]
pub struct ContentHtml;

impl TaggedString for ContentHtml {
    open spec fn accepts(s: Seq<char>) -> bool {
        s == "text/html"@
    }

    open spec fn literal() -> Seq<char> {
        "text/html"@
    }

    proof fn lemma_accepts_literal() {
    }

    fn as_str(&self) -> (r: &'static str) {
        "text/html"
    }

    fn from_str(s: &str) -> (r: Result<Self, DecodeError>) {
        if same_text(s, "text/html") {
            Ok(ContentHtml)
        } else {
            Err(DecodeError::LiteralMismatch(s.to_owned()))
        }
    }
}

/// The JSON media type.
#[derive(Clone, Copy, Debug, PartialEq, Eq, Structural)]
pub struct ContentJson;

impl TaggedString for ContentJson {
    open spec fn accepts(s: Seq<char>) -> bool {
        s == "application/json"@
    }

    open spec fn literal() -> Seq<char> {
        "application/json"@
    }

    proof fn lemma_accepts_literal() {
    }

    fn as_str(&self) -> (r: &'static str) {
        "application/json"
    }

    fn from_str(s: &str) -> (r: Result<Self, DecodeError>) {
        if same_text(s, "application/json") {
            Ok(ContentJson)
        } else {
            Err(DecodeError::LiteralMismatch(s.to_owned()))
        }
    }
}

/// The multipart form media type.
#[derive(Clone, Copy, Debug, PartialEq, Eq, Structural)]
pub struct ContentMultipartFormData;

impl TaggedString for ContentMultipartFormData {
    open spec fn accepts(s: Seq<char>) -> bool {
        s == "multipart/form-data"@
    }

    open spec fn literal() -> Seq<char> {
        "multipart/form-data"@
    }

    proof fn lemma_accepts_literal() {
    }

    fn as_str(&self) -> (r: &'static str) {
        "multipart/form-data"
    }

    fn from_str(s: &str) -> (r: Result<Self, DecodeError>) {
        if same_text(s, "multipart/form-data") {
            Ok(ContentMultipartFormData)
        } else {
            Err(DecodeError::LiteralMismatch(s.to_owned()))
        }
    }
}

/// The URL-encoded form media type.
#[derive(Clone, Copy, Debug, PartialEq, Eq, Structural)]
pub struct ContentUrlEncoded;

impl TaggedString for ContentUrlEncoded {
    open spec fn accepts(s: Seq<char>) -> bool {
        s == "application/x-www-form-urlencoded"@
    }

    open spec fn literal() -> Seq<char> {
        "application/x-www-form-urlencoded"@
    }

    proof fn lemma_accepts_literal() {
    }

    fn as_str(&self) -> (r: &'static str) {
        "application/x-www-form-urlencoded"
    }

    fn from_str(s: &str) -> (r: Result<Self, DecodeError>) {
        if same_text(s, "application/x-www-form-urlencoded") {
            Ok(ContentUrlEncoded)
        } else {
            Err(DecodeError::LiteralMismatch(s.to_owned()))
        }
    }
}

/// The JSON Resource Descriptor media type.
#[derive(Clone, Copy, Debug, PartialEq, Eq, Structural)]
pub struct ContentJrdJson;

impl TaggedString for ContentJrdJson {
    open spec fn accepts(s: Seq<char>) -> bool {
        s == "application/jrd+json"@
    }

    open spec fn literal() -> Seq<char> {
        "application/jrd+json"@
    }

    proof fn lemma_accepts_literal() {
    }

    fn as_str(&self) -> (r: &'static str) {
        "application/jrd+json"
    }

    fn from_str(s: &str) -> (r: Result<Self, DecodeError>) {
        if same_text(s, "application/jrd+json") {
            Ok(ContentJrdJson)
        } else {
            Err(DecodeError::LiteralMismatch(s.to_owned()))
        }
    }
}

/// The WebFinger profile-page link relation.
#[derive(Clone, Copy, Debug, PartialEq, Eq, Structural)]
pub struct RelWebFingerProfilePage;

impl TaggedString for RelWebFingerProfilePage {
    open spec fn accepts(s: Seq<char>) -> bool {
        s == "http://webfinger.net/rel/profile-page"@
    }

    open spec fn literal() -> Seq<char> {
        "http://webfinger.net/rel/profile-page"@
    }

    proof fn lemma_accepts_literal() {
    }

    fn as_str(&self) -> (r: &'static str) {
        "http://webfinger.net/rel/profile-page"
    }

    fn from_str(s: &str) -> (r: Result<Self, DecodeError>) {
        if same_text(s, "http://webfinger.net/rel/profile-page") {
            Ok(RelWebFingerProfilePage)
        } else {
            Err(DecodeError::LiteralMismatch(s.to_owned()))
        }
    }
}

/// The `self` link relation.
#[derive(Clone, Copy, Debug, PartialEq, Eq, Structural)]
pub struct RelSelf;

impl TaggedString for RelSelf {
    open spec fn accepts(s: Seq<char>) -> bool {
        s == "self"@
    }

    open spec fn literal() -> Seq<char> {
        "self"@
    }

    proof fn lemma_accepts_literal() {
    }

    fn as_str(&self) -> (r: &'static str) {
        "self"
    }

    fn from_str(s: &str) -> (r: Result<Self, DecodeError>) {
        if same_text(s, "self") {
            Ok(RelSelf)
        } else {
            Err(DecodeError::LiteralMismatch(s.to_owned()))
        }
    }
}

/// The OStatus subscribe-template link relation.
#[derive(Clone, Copy, Debug, PartialEq, Eq, Structural)]
pub struct RelOStatusSubscribe;

impl TaggedString for RelOStatusSubscribe {
    open spec fn accepts(s: Seq<char>) -> bool {
        s == "http://ostatus.org/schema/1.0/subscribe"@
    }

    open spec fn literal() -> Seq<char> {
        "http://ostatus.org/schema/1.0/subscribe"@
    }

    proof fn lemma_accepts_literal() {
    }

    fn as_str(&self) -> (r: &'static str) {
        "http://ostatus.org/schema/1.0/subscribe"
    }

    fn from_str(s: &str) -> (r: Result<Self, DecodeError>) {
        if same_text(s, "http://ostatus.org/schema/1.0/subscribe") {
            Ok(RelOStatusSubscribe)
        } else {
            Err(DecodeError::LiteralMismatch(s.to_owned()))
        }
    }
}

/// The link relation of a NodeInfo 2.0 document.
#[derive(Clone, Copy, Debug, PartialEq, Eq, Structural)]
pub struct RelNodeInfo20;

impl TaggedString for RelNodeInfo20 {
    open spec fn accepts(s: Seq<char>) -> bool {
        s == "http://nodeinfo.diaspora.software/ns/schema/2.0"@
    }

    open spec fn literal() -> Seq<char> {
        "http://nodeinfo.diaspora.software/ns/schema/2.0"@
    }

    proof fn lemma_accepts_literal() {
    }

    fn as_str(&self) -> (r: &'static str) {
        "http://nodeinfo.diaspora.software/ns/schema/2.0"
    }

    fn from_str(s: &str) -> (r: Result<Self, DecodeError>) {
        if same_text(s, "http://nodeinfo.diaspora.software/ns/schema/2.0") {
            Ok(RelNodeInfo20)
        } else {
            Err(DecodeError::LiteralMismatch(s.to_owned()))
        }
    }
}

/// The link relation of a NodeInfo 2.1 document.
#[derive(Clone, Copy, Debug, PartialEq, Eq, Structural)]
pub struct RelNodeInfo21;

impl TaggedString for RelNodeInfo21 {
    open spec fn accepts(s: Seq<char>) -> bool {
        s == "http://nodeinfo.diaspora.software/ns/schema/2.1"@
    }

    open spec fn literal() -> Seq<char> {
        "http://nodeinfo.diaspora.software/ns/schema/2.1"@
    }

    proof fn lemma_accepts_literal() {
    }

    fn as_str(&self) -> (r: &'static str) {
        "http://nodeinfo.diaspora.software/ns/schema/2.1"
    }

    fn from_str(s: &str) -> (r: Result<Self, DecodeError>) {
        if same_text(s, "http://nodeinfo.diaspora.software/ns/schema/2.1") {
            Ok(RelNodeInfo21)
        } else {
            Err(DecodeError::LiteralMismatch(s.to_owned()))
        }
    }
}

/// The ActivityStreams JSON-LD context. It is written with `https`, and
/// read with either `https` or `http`.
#[derive(Clone, Copy, Debug, PartialEq, Eq, Structural)]
pub struct ContextActivityStreams;

impl TaggedString for ContextActivityStreams {
    open spec fn accepts(s: Seq<char>) -> bool {
        s == "https://www.w3.org/ns/activitystreams"@ || s == "http://www.w3.org/ns/activitystreams"@
    }

    open spec fn literal() -> Seq<char> {
        "https://www.w3.org/ns/activitystreams"@
    }

    proof fn lemma_accepts_literal() {
    }

    fn as_str(&self) -> (r: &'static str) {
        "https://www.w3.org/ns/activitystreams"
    }

    fn from_str(s: &str) -> (r: Result<Self, DecodeError>) {
        if same_text(s, "https://www.w3.org/ns/activitystreams") || same_text(
            s,
            "http://www.w3.org/ns/activitystreams",
        ) {
            Ok(ContextActivityStreams)
        } else {
            Err(DecodeError::LiteralMismatch(s.to_owned()))
        }
    }
}

/// The member named `key` is a string that reads as `T`.
pub open spec fn field_accepts_spec<T: TaggedString>(members: Seq<JsonMember>, key: Seq<char>) -> bool {
    field_spec(members, key) matches Some(f) && str_accepted::<T>(f)
}

/// Whether the member named `key` is a string that reads as `T`.
pub fn field_accepts<T: TaggedString>(members: &Vec<JsonMember>, key: &str) -> (r: bool)
    ensures
        r == field_accepts_spec::<T>(members@, key@),
{
    match get_field(members, key) {
        Some(JsonValue::Str(s)) => T::from_str(s.as_str()).is_ok(),
        _ => false,
    }
}

} // verus!
