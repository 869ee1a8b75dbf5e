//! Account identifiers of the `acct:` URI scheme.
use vstd::prelude::*;
use vstd::string::*;
use crate::error::DecodeError;
use crate::json::JsonValue;
use crate::text::{has_prefix, starts_with, string_from};

verus! {

/// The scheme token of an account URI, as characters.
pub open spec fn acct_scheme() -> Seq<char> {
    "acct:"@
}

/// The unprefixed form that the lenient constructor keeps of `raw`.
pub open spec fn parse_spec(raw: Seq<char>) -> Seq<char> {
    if has_prefix(raw, acct_scheme()) {
        raw.skip(acct_scheme().len() as int)
    } else {
        raw
    }
}

/// The wire form of the unprefixed identifier `inner`.
pub open spec fn serialize_spec(inner: Seq<char>) -> Seq<char> {
    acct_scheme() + inner
}

/// An account identifier, `name@host` or `name`, held without its scheme.
#[derive(Debug, Clone, PartialEq, Eq, Hash)]
pub struct Acct(String);

impl View for Acct {
    type V = Seq<char>;

    closed spec fn view(&self) -> Seq<char> {
        self.0@
    }
}

/// Removes the scheme from `raw` if it is there.
fn strip_scheme(raw: &str) -> (r: Option<String>)
    ensures
        r is Some <==> has_prefix(raw@, acct_scheme()),
        r matches Some(s) ==> s@ == raw@.skip(acct_scheme().len() as int),
{
    let scheme = "acct:";
    if starts_with(raw, scheme) {
        let n = scheme.unicode_len();
        let rest = raw.substring_char(n, raw.unicode_len());
        Some(string_from(rest))
    } else {
        None
    }
}

impl Acct {
    /// Wraps an identifier that carries no scheme.
    pub fn new(uri_without_acct: &str) -> (r: Acct)
        ensures
            r@ == uri_without_acct@,
    {
        Acct(string_from(uri_without_acct))
    }

    /// Builds an identifier from a raw string, dropping a leading `acct:`
    /// if there is one. Never fails.
    pub fn parse(raw: &str) -> (r: Acct)
        ensures
            r@ == parse_spec(raw@),
    {
        match strip_scheme(raw) {
            Some(rest) => Acct(rest),
            None => Acct(string_from(raw)),
        }
    }

    /// The identifier without its scheme.
    pub fn as_str(&self) -> (r: &str)
        ensures
            r@ == self@,
    {
        self.0.as_str()
    }

    /// The wire form: always `acct:` followed by the identifier.
    pub fn serialize(&self) -> (r: String)
        ensures
            r@ == serialize_spec(self@),
    {
        let mut r = string_from("acct:");
        r.append(self.0.as_str());
        r
    }

    /// Reads the wire form, which must begin with `acct:`.
    pub fn deserialize(raw: &str) -> (r: Result<Acct, DecodeError>)
        ensures
            r is Ok <==> has_prefix(raw@, acct_scheme()),
            r matches Ok(a) ==> a@ == raw@.skip(acct_scheme().len() as int),
            r matches Err(e) ==> e == DecodeError::MissingAcctScheme,
    {
        match strip_scheme(raw) {
            Some(rest) => Ok(Acct(rest)),
            None => Err(DecodeError::MissingAcctScheme),
        }
    }

    /// Reads a JSON value that must be a string in the wire form.
    pub fn from_json(v: &JsonValue) -> (r: Result<Acct, DecodeError>)
        ensures
            !(v is Str) ==> r == Err::<Acct, DecodeError>(DecodeError::ExpectedString),
            v matches JsonValue::Str(s) ==> {
                &&& (r is Ok <==> has_prefix(s@, acct_scheme()))
                &&& (r matches Ok(a) ==> a@ == s@.skip(acct_scheme().len() as int))
                &&& (r matches Err(e) ==> e == DecodeError::MissingAcctScheme)
            },
    {
        match v {
            JsonValue::Str(s) => Acct::deserialize(s.as_str()),
            _ => Err(DecodeError::ExpectedString),
        }
    }

    /// The JSON form: the wire string.
    pub fn to_json(&self) -> (r: JsonValue)
        ensures
            r matches JsonValue::Str(s) && s@ == serialize_spec(self@),
    {
        JsonValue::Str(self.serialize())
    }
}

/// Reading back the wire form of a leniently parsed identifier gives the
/// same identifier.
pub proof fn lemma_parse_serialize_round_trip(s: Seq<char>)
    ensures
        parse_spec(serialize_spec(parse_spec(s))) == parse_spec(s),
{
    let inner = parse_spec(s);
    let w = serialize_spec(inner);
    assert(w.subrange(0, acct_scheme().len() as int) =~= acct_scheme());
    assert(w.skip(acct_scheme().len() as int) =~= inner);
}

/// The strict reader accepts exactly the wire form, and gives back the
/// identifier that was written.
pub proof fn lemma_deserialize_serialize(inner: Seq<char>)
    ensures
        has_prefix(serialize_spec(inner), acct_scheme()),
        serialize_spec(inner).skip(acct_scheme().len() as int) == inner,
{
    let w = serialize_spec(inner);
    assert(w.subrange(0, acct_scheme().len() as int) =~= acct_scheme());
    assert(w.skip(acct_scheme().len() as int) =~= inner);
}

} // verus!
