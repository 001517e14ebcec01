//! The decisions of a connector that reads single documents from a MongoDB
//! deployment.
//!
//! The connector has two operations. Connecting parses a connection string,
//! pins the server API version and builds a client handle; a lookup names a
//! collection of the bound database, hands the driver a filter and takes at
//! most one document back. The waiting on the network is the driver's. What
//! this library holds is everything around it: the settings that connecting
//! starts from and the message it is given up with ([`connection`]), the
//! client and the request that a lookup puts to the driver ([`client`]), and
//! what a reply of the driver becomes for the caller ([`outcome`]). What holds
//! of every lookup is proved in [`laws`]; the driver's types that pass through
//! are declared in [`driver`].

pub mod client;
pub mod connection;
pub mod driver;
pub mod laws;
pub mod outcome;

pub use crate::client::{FindOneRequest, MongoDBClient};
pub use crate::connection::{ConnectionSettings, InitStep, ServerApiVersion};
pub use crate::outcome::FindOutcome;
