//! The client: a connection handle bound to one database, and the request
//! that a lookup through it puts to the driver.

use bson::Document;
use mongodb::Client;
use vstd::prelude::*;

verus! {

/// A lookup of at most one document, as it is put to the driver: where to
/// look and what to match. No sort order and no other option goes with it.
#[derive(Debug)]
pub struct FindOneRequest {
    /// The database that holds the collection.
    pub database: String,
    /// The collection to search.
    pub collection: String,
    /// The query filter; `None` matches any document.
    pub filter: Option<Document>,
}

/// A `FindOneRequest` with its names as sequences of characters.
pub struct FindOneRequestView {
    pub database: Seq<char>,
    pub collection: Seq<char>,
    pub filter: Option<Document>,
}

impl View for FindOneRequest {
    type V = FindOneRequestView;

    open spec fn view(&self) -> FindOneRequestView {
        FindOneRequestView {
            database: self.database@,
            collection: self.collection@,
            filter: self.filter,
        }
    }
}

/// A connection handle together with the name of the database that every
/// lookup through it addresses. Neither changes after construction.
#[derive(Debug)]
pub struct MongoDBClient {
    client: Client,
    db_name: String,
}

impl Clone for MongoDBClient {
    /// A second handle to the same connection, bound to the same database.
    fn clone(&self) -> (copy: Self)
        ensures
            copy.handle() == self.handle(),
            copy.database() == self.database(),
    {
        MongoDBClient { client: self.client.clone(), db_name: self.db_name.clone() }
    }
}

impl MongoDBClient {
    /// The connection handle that the client owns.
    pub closed spec fn handle(self) -> Client {
        self.client
    }

    /// The name of the database that the client is bound to.
    pub closed spec fn database(self) -> Seq<char> {
        self.db_name@
    }

    /// The request that a lookup in `collection` with `filter` puts to the
    /// driver: the bound database, the collection as named, the filter as given.
    pub open spec fn request(self, collection: Seq<char>, filter: Option<Document>)
        -> FindOneRequestView {
        FindOneRequestView { database: self.database(), collection, filter }
    }

    /// Binds a connection handle to a database. Whether the database exists
    /// is not asked: a store creates it on the first write.
    pub fn new(client: Client, db_name: String) -> (bound: Self)
        ensures
            bound.handle() == client,
            bound.database() == db_name@,
    {
        MongoDBClient { client, db_name }
    }

    /// The connection handle, for whoever carries a request to the store.
    pub fn client(&self) -> (handle: &Client)
        ensures
            *handle == self.handle(),
    {
        &self.client
    }

    /// The name of the database that the client is bound to.
    pub fn db_name(&self) -> (name: &str)
        ensures
            name@ == self.database(),
    {
        self.db_name.as_str()
    }

    /// The request that looks in `collection_name` of the bound database for
    /// one document matching `query`. The filter is passed on as it came.
    pub fn find_one_request(&self, collection_name: String, query: Option<Document>) -> (request:
        FindOneRequest)
        ensures
            request@ == self.request(collection_name@, query),
    {
        FindOneRequest {
            database: self.db_name.clone(),
            collection: collection_name,
            filter: query,
        }
    }
}

} // verus!
