use bson::{Bson, Document};
use database_connector::outcome::FindOutcome;
use mongodb::error::Error;

fn profile(name: &str, age: i32, location: &str) -> Document {
    let mut document = Document::new();
    document.insert("name", Bson::String(name.to_string()));
    document.insert("age", Bson::Int32(age));
    document.insert("location", Bson::String(location.to_string()));
    document
}

fn refused() -> Error {
    Error::from(std::io::Error::new(
        std::io::ErrorKind::ConnectionRefused,
        "connection refused",
    ))
}

#[test]
fn a_found_document_is_kept_as_decoded() {
    let stored = profile("oliver.bannister", 24, "Toronto");
    let outcome = FindOutcome::from_reply(Ok(Some(stored.clone())));
    assert!(matches!(outcome, FindOutcome::Found(_)));
    assert_eq!(outcome.log_line(), None);
    assert_eq!(outcome.into_option(), Some(stored));
}

#[test]
fn a_found_value_of_any_type_is_kept() {
    let outcome: FindOutcome<(String, i32)> =
        FindOutcome::from_reply(Ok(Some(("john.doe".to_string(), 35))));
    assert_eq!(outcome.into_option(), Some(("john.doe".to_string(), 35)));
}

#[test]
fn an_empty_answer_is_not_found() {
    let outcome: FindOutcome<Document> = FindOutcome::from_reply(Ok(None));
    assert!(matches!(outcome, FindOutcome::NotFound));
    assert_eq!(outcome.log_line(), None);
    assert_eq!(outcome.into_option(), None);
}

#[test]
fn an_empty_answer_is_no_default_document() {
    let outcome: FindOutcome<Document> = FindOutcome::from_reply(Ok(None));
    assert_ne!(outcome.into_option(), Some(Document::new()));
}

#[test]
fn a_fault_is_query_failed_with_the_drivers_words() {
    let error = refused();
    let words = error.to_string();
    let outcome: FindOutcome<Document> = FindOutcome::from_reply(Err(error));
    assert!(words.contains("connection refused"));
    assert_eq!(outcome.log_line(), Some(words.as_str()));
    match outcome {
        FindOutcome::QueryFailed(text) => assert_eq!(text, words),
        other => panic!("a fault was sorted as {:?}", other),
    }
}

#[test]
fn a_fault_leaves_the_caller_with_none() {
    let outcome: FindOutcome<Document> = FindOutcome::from_reply(Err(refused()));
    assert_eq!(outcome.into_option(), None);
}

#[test]
fn a_custom_fault_is_swallowed_too() {
    let error = Error::custom("the decoder gave up".to_string());
    let words = error.to_string();
    let outcome: FindOutcome<i32> = FindOutcome::from_reply(Err(error));
    assert_eq!(outcome.log_line(), Some(words.as_str()));
    assert_eq!(outcome.into_option(), None);
}

#[test]
fn the_same_reply_gives_the_same_document() {
    let stored = profile("john.doe", 35, "London");
    let first = FindOutcome::from_reply(Ok(Some(stored.clone()))).into_option();
    let second = FindOutcome::from_reply(Ok(Some(stored.clone()))).into_option();
    assert_eq!(first, second);
    assert_eq!(first, Some(stored));
}

#[test]
fn the_same_fault_gives_none_both_times() {
    let first: Option<Document> = FindOutcome::from_reply(Err(refused())).into_option();
    let second: Option<Document> = FindOutcome::from_reply(Err(refused())).into_option();
    assert_eq!(first, None);
    assert_eq!(second, None);
}

#[test]
fn outcomes_made_directly_behave_alike() {
    let found = FindOutcome::Found(7);
    assert_eq!(found.log_line(), None);
    assert_eq!(found.into_option(), Some(7));
    let failed: FindOutcome<i32> = FindOutcome::QueryFailed("no route".to_string());
    assert_eq!(failed.log_line(), Some("no route"));
    assert_eq!(failed.into_option(), None);
    let missing: FindOutcome<i32> = FindOutcome::NotFound;
    assert_eq!(missing.log_line(), None);
    assert_eq!(missing.into_option(), None);
}
