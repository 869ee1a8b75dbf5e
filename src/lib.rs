//! Federation metadata for a social-networking server: account identifiers,
//! WebFinger discovery, NodeInfo documents and the ActivityStreams context.
use vstd::prelude::*;

pub mod acct;
pub mod activity_streams;
pub mod config;
pub mod error;
pub mod json;
pub mod nodeinfo;
pub mod tag;
pub mod tags;
pub mod text;
pub mod webfinger;

verus! {

} // verus!
