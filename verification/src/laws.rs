//! What holds of every lookup, whatever the store answers.
//!
//! A lookup has two halves around the store's answer: the client states the
//! request, and the reply is sorted into an outcome. The laws below are
//! stated over both, with the reply, or the store as a whole, left open.

use crate::client::{FindOneRequestView, MongoDBClient};
use crate::outcome::FindOutcome;
use bson::Document;
use mongodb::error::Error;
use vstd::prelude::*;

verus! {

/// A document that the store answers with reaches the caller as it was
/// decoded, and no other document does.
pub proof fn lemma_found_document_is_handed_on<T>(
    reply: Result<Option<T>, Error>,
    outcome: FindOutcome<T>,
    document: T,
)
    requires
        outcome.settles(reply),
        reply == Ok::<Option<T>, Error>(Some(document)),
    ensures
        outcome == FindOutcome::Found(document),
        outcome.document() == Some(document),
        forall|other: T| other != document ==> outcome.document() != Some(other),
{
}

/// Where the store answers that nothing matches, the caller is left with
/// none: no fault is reported and no document is made up.
pub proof fn lemma_no_match_is_none<T>(reply: Result<Option<T>, Error>, outcome: FindOutcome<T>)
    requires
        outcome.settles(reply),
        reply == Ok::<Option<T>, Error>(None),
    ensures
        outcome == FindOutcome::<T>::NotFound,
        outcome.document().is_none(),
        outcome.diagnostic().is_none(),
{
}

/// A fault of the driver never reaches the caller as a fault: the caller is
/// left with none, as if nothing had matched, and the fault goes to the log.
pub proof fn lemma_fault_is_none<T>(reply: Result<Option<T>, Error>, outcome: FindOutcome<T>)
    requires
        outcome.settles(reply),
        reply is Err,
    ensures
        outcome is QueryFailed,
        outcome.document().is_none(),
        outcome.diagnostic().is_some(),
{
}

/// Asking twice gives the same document. `store` stands for a store that
/// does not change between the two lookups: it answers equal requests alike.
/// Both lookups go through one client, name one collection and carry one
/// filter; how the driver words a fault may differ between them.
pub proof fn lemma_repeated_lookup<T>(
    client: MongoDBClient,
    collection: Seq<char>,
    filter: Option<Document>,
    store: spec_fn(FindOneRequestView) -> Result<Option<T>, Error>,
    first_request: FindOneRequestView,
    second_request: FindOneRequestView,
    first: FindOutcome<T>,
    second: FindOutcome<T>,
)
    requires
        first_request == client.request(collection, filter),
        second_request == client.request(collection, filter),
        first.settles(store(first_request)),
        second.settles(store(second_request)),
    ensures
        first.document() == second.document(),
{
}

} // verus!
