//! Why a wire value could not be read as one of the library's types.
use vstd::prelude::*;

verus! {

#[derive(Clone, Debug, PartialEq, Eq)]
pub enum DecodeError {
    /// A string was expected.
    ExpectedString,
    /// An integer was expected.
    ExpectedInteger,
    /// A boolean was expected.
    ExpectedBool,
    /// An array was expected.
    ExpectedArray,
    /// An object was expected.
    ExpectedObject,
    /// A required field is absent.
    MissingField,
    /// A string, held here, differs from every literal that its type
    /// accepts.
    LiteralMismatch(String),
    /// An account identifier lacks its `acct:` scheme.
    MissingAcctScheme,
    /// No element of a list has the required form.
    NoMatchingElement,
    /// The value has none of the shapes of a union type.
    NoVariantMatched,
    /// A NodeInfo document names a schema version that is not known.
    UnknownVersion,
}

} // verus!
