//! Shape compilation for EdgeDB queries.
//!
//! A record type's fields carry annotations (`alias`, `exp`, `nested`) that
//! say how each field is projected. [`parser`] turns those annotations into
//! field specifications, [`compiler`] turns a record type into its projection
//! text ("shape"), composing the shapes of nested record types, and
//! [`template`] splices shapes into query templates at `shape::Name`
//! placeholders. [`cache`] keeps one expanded query per call site, and
//! [`tx_variant`] derives the transaction variant of a database function's
//! signature.

use vstd::prelude::*;

pub mod cache;
pub mod compiler;
pub mod model;
pub mod parser;
pub mod template;
pub mod tx_variant;

verus! {

/// A type whose query projection text is fixed for the whole program.
pub trait QueryProjection {
    fn project() -> &'static str;
}

} // verus!
