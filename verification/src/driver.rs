//! The driver's types that pass through this library unopened.

use vstd::prelude::*;

verus! {

/// `mongodb::Client`, the live connection handle. Nothing is claimed of what
/// it holds: the library keeps it and hands it back.
#[verifier::external_type_specification]
#[verifier::external_body]
pub struct ExClient(mongodb::Client);

/// `<mongodb::Client as Clone>::clone`. The driver keeps a `Client` behind a
/// shared pointer and a clone copies the pointer, so the copy is a handle to
/// the same client; the contract says no more than that.
pub assume_specification[ <mongodb::Client as Clone>::clone ](client: &mongodb::Client) -> (copy:
    mongodb::Client)
    ensures
        copy == *client,
;

/// `bson::Document`, the shape of a query filter. Nothing is claimed of what
/// it holds: a filter goes to the driver as the caller gave it.
#[verifier::external_type_specification]
#[verifier::external_body]
pub struct ExDocument(bson::Document);

/// `mongodb::error::Error`, what the driver reports when a query fails.
/// Nothing is claimed of what it holds.
#[verifier::external_type_specification]
#[verifier::external_body]
pub struct ExError(mongodb::error::Error);

} // verus!
