//! What one lookup of a single document ends in.

use mongodb::error::Error;
use vstd::prelude::*;
use vstd::string::to_string_from_display_ensures;

verus! {

/// The three ways in which a lookup of one document can end.
#[derive(Debug)]
pub enum FindOutcome<T> {
    /// The store held a matching document, and this is it.
    Found(T),
    /// The query ran and nothing matched.
    NotFound,
    /// The query could not be run, or its answer could not be decoded. The
    /// text is the driver's own description of the fault.
    QueryFailed(String),
}

impl<T> FindOutcome<T> {
    /// The document that the caller is left with: the one found, or none.
    pub open spec fn document(self) -> Option<T> {
        match self {
            FindOutcome::Found(document) => Some(document),
            FindOutcome::NotFound => None,
            FindOutcome::QueryFailed(_) => None,
        }
    }

    /// The line that goes to the log: the description of a fault, or none
    /// where the query ran.
    pub open spec fn diagnostic(self) -> Option<Seq<char>> {
        match self {
            FindOutcome::Found(_) => None,
            FindOutcome::NotFound => None,
            FindOutcome::QueryFailed(text) => Some(text@),
        }
    }

    /// Whether this outcome is what the driver's `reply` amounts to. A found
    /// document is kept as it was decoded, an empty answer is `NotFound`, and
    /// an error is `QueryFailed` with the text that the error displays as.
    pub open spec fn settles(self, reply: Result<Option<T>, Error>) -> bool {
        match reply {
            Ok(Some(document)) => self == FindOutcome::Found(document),
            Ok(None) => self == FindOutcome::<T>::NotFound,
            Err(error) => self matches FindOutcome::QueryFailed(text)
                && to_string_from_display_ensures::<Error>(&error, text),
        }
    }

    /// Sorts the driver's reply to a lookup into one of the three outcomes.
    /// The caller is left with the document of the reply if it has one, and
    /// with none both where nothing matched and where the driver failed.
    pub fn from_reply(reply: Result<Option<T>, Error>) -> (outcome: Self)
        ensures
            outcome.settles(reply),
            outcome.document() == (match reply {
                Ok(found) => found,
                Err(_) => None,
            }),
            outcome.diagnostic().is_some() <==> reply is Err,
    {
        match reply {
            Ok(Some(document)) => FindOutcome::Found(document),
            Ok(None) => FindOutcome::NotFound,
            Err(error) => FindOutcome::QueryFailed(error.to_string()),
        }
    }

    /// The line to log, if the lookup met a fault.
    pub fn log_line(&self) -> (line: Option<&str>)
        ensures
            match line {
                Some(text) => self.diagnostic() == Some(text@),
                None => self.diagnostic().is_none(),
            },
    {
        match self {
            FindOutcome::Found(_) => None,
            FindOutcome::NotFound => None,
            FindOutcome::QueryFailed(text) => Some(text.as_str()),
        }
    }

    /// Gives up the distinction between a fault and an empty answer: the
    /// caller gets the found document, or none.
    pub fn into_option(self) -> (found: Option<T>)
        ensures
            found == self.document(),
    {
        match self {
            FindOutcome::Found(document) => Some(document),
            FindOutcome::NotFound => None,
            FindOutcome::QueryFailed(_) => None,
        }
    }
}

} // verus!
