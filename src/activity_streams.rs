//! The JSON-LD `@context` of an ActivityStreams document.
use vstd::prelude::*;
use crate::error::DecodeError;
use crate::json::{field_spec, get_field, is_text, is_text_list, JsonMember, JsonValue};
use crate::tags::{str_accepted, tag_to_json, ContextActivityStreams, TaggedString};

verus! {

/// A list of which at least one element is a string that reads as `T`.
/// Only that element is kept; it is written back as a list of one string.
#[derive(Clone, Copy, Debug, PartialEq, Eq, Structural)]
pub struct ListContaining<T>(pub T);

/// Some element of `items` is a string that reads as `T`.
pub open spec fn list_has<T: TaggedString>(items: Seq<JsonValue>) -> bool {
    exists|i: int| 0 <= i < items.len() && str_accepted::<T>(#[trigger] items[i])
}

impl<T: TaggedString> ListContaining<T> {
    /// Reads a JSON array, skipping every element but the first string that
    /// reads as `T`.
    pub fn from_json(v: &JsonValue) -> (r: Result<Self, DecodeError>)
        ensures
            !(v is Array) ==> (r matches Err(e) && e == DecodeError::ExpectedArray),
            v matches JsonValue::Array(items) ==> (r is Ok <==> list_has::<T>(items@)),
            v is Array ==> (r matches Err(e) ==> e == DecodeError::NoMatchingElement),
    {
        match v {
            JsonValue::Array(items) => {
                let mut i: usize = 0;
                while i < items.len()
                    invariant
                        v is Array,
                        v->Array_0@ == items@,
                        i <= items@.len(),
                        forall|j: int| 0 <= j < i ==> !str_accepted::<T>(#[trigger] items@[j]),
                    decreases items@.len() - i,
                {
                    if let JsonValue::Str(s) = &items[i] {
                        if let Ok(t) = T::from_str(s.as_str()) {
                            assert(str_accepted::<T>(items@[i as int]));
                            return Ok(ListContaining(t));
                        }
                    }
                    i = i + 1;
                }
                Err(DecodeError::NoMatchingElement)
            },
            _ => Err(DecodeError::ExpectedArray),
        }
    }

    /// Writes the list of the one element kept.
    pub fn to_json(&self) -> (r: JsonValue)
        ensures
            is_text_list(r, seq![T::literal()]),
    {
        let mut items: Vec<JsonValue> = Vec::new();
        items.push(JsonValue::Str(self.0.as_str().to_owned()));
        JsonValue::Array(items)
    }
}

/// The JSON-LD context: a bare context string, an object whose `@vocab` is
/// that string, or a list that holds it.
#[derive(Clone, Copy, Debug, PartialEq, Eq, Structural)]
pub enum Context {
    String(ContextActivityStreams),
    Object { ld_vocab: ContextActivityStreams },
    List(ListContaining<ContextActivityStreams>),
}

/// The context that a JSON value reads as: its shapes are tried in the
/// order string, object, list.
pub open spec fn context_spec(v: JsonValue) -> Result<Context, DecodeError> {
    if str_accepted::<ContextActivityStreams>(v) {
        Ok(Context::String(ContextActivityStreams))
    } else if v matches JsonValue::Object(m) && field_spec(m@, "@vocab"@) matches Some(f)
        && str_accepted::<ContextActivityStreams>(f) {
        Ok(Context::Object { ld_vocab: ContextActivityStreams })
    } else if v matches JsonValue::Array(a) && list_has::<ContextActivityStreams>(a@) {
        Ok(Context::List(ListContaining(ContextActivityStreams)))
    } else {
        Err(DecodeError::NoVariantMatched)
    }
}

/// The context of a document, given the value of its `@context` member if
/// it has one.
pub open spec fn document_context_spec(field: Option<JsonValue>) -> Result<Context, DecodeError> {
    match field {
        None => Ok(Context::String(ContextActivityStreams)),
        Some(v) => context_spec(v),
    }
}

impl Default for Context {
    /// The bare ActivityStreams context string.
    fn default() -> (r: Context)
        ensures
            r == Context::String(ContextActivityStreams),
    {
        Context::String(ContextActivityStreams)
    }
}

impl Context {
    /// Reads a context from any of its three shapes.
    pub fn from_json(v: &JsonValue) -> (r: Result<Context, DecodeError>)
        ensures
            r == context_spec(*v),
    {
        if let JsonValue::Str(s) = v {
            if let Ok(_) = ContextActivityStreams::from_str(s.as_str()) {
                return Ok(Context::String(ContextActivityStreams));
            }
        }
        if let JsonValue::Object(m) = v {
            if let Some(f) = get_field(m, "@vocab") {
                if let JsonValue::Str(s) = f {
                    if let Ok(_) = ContextActivityStreams::from_str(s.as_str()) {
                        return Ok(Context::Object { ld_vocab: ContextActivityStreams });
                    }
                }
            }
        }
        if let JsonValue::Array(_) = v {
            if let Ok(_) = ListContaining::<ContextActivityStreams>::from_json(v) {
                return Ok(Context::List(ListContaining(ContextActivityStreams)));
            }
        }
        Err(DecodeError::NoVariantMatched)
    }

    /// Writes the context in the shape it was read from.
    pub fn to_json(&self) -> (r: JsonValue)
        ensures
            self is String ==> is_text(r, ContextActivityStreams::literal()),
            self is Object ==> (r matches JsonValue::Object(m) && m@.len() == 1 && m@[0].key@
                == "@vocab"@ && is_text(m@[0].value, ContextActivityStreams::literal())),
            self is List ==> is_text_list(r, seq![ContextActivityStreams::literal()]),
    {
        match self {
            Context::String(t) => tag_to_json(t),
            Context::Object { ld_vocab } => {
                let mut m: Vec<JsonMember> = Vec::new();
                m.push(JsonMember { key: "@vocab".to_owned(), value: tag_to_json(ld_vocab) });
                JsonValue::Object(m)
            },
            Context::List(l) => l.to_json(),
        }
    }
}

/// The context of an ActivityStreams document: the value of its `@context`
/// member, or the bare ActivityStreams context where that member is absent.
pub fn document_context(doc: &JsonValue) -> (r: Result<Context, DecodeError>)
    ensures
        !(doc is Object) ==> r == Err::<Context, DecodeError>(DecodeError::ExpectedObject),
        doc matches JsonValue::Object(m) ==> r == document_context_spec(field_spec(m@, "@context"@)),
{
    match doc {
        JsonValue::Object(m) => match get_field(m, "@context") {
            Some(v) => Context::from_json(v),
            None => Ok(Context::default()),
        },
        _ => Err(DecodeError::ExpectedObject),
    }
}

/// The three shapes of the ActivityStreams context, and its absence from a
/// document, read as the same context up to the shape it came in.
pub proof fn lemma_context_shapes(s: JsonValue, o: JsonValue, a: JsonValue)
    requires
        str_accepted::<ContextActivityStreams>(s),
        o matches JsonValue::Object(m) && field_spec(m@, "@vocab"@) matches Some(f)
            && str_accepted::<ContextActivityStreams>(f),
        a matches JsonValue::Array(items) && list_has::<ContextActivityStreams>(items@),
    ensures
        context_spec(s) == Ok::<Context, DecodeError>(Context::String(ContextActivityStreams)),
        context_spec(o) == Ok::<Context, DecodeError>(Context::Object { ld_vocab: ContextActivityStreams }),
        context_spec(a) == Ok::<Context, DecodeError>(Context::List(ListContaining(ContextActivityStreams))),
        document_context_spec(None) == Ok::<Context, DecodeError>(Context::String(ContextActivityStreams)),
{
}

} // verus!
