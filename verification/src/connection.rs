//! What connecting decides by itself: the settings that go to the driver and
//! the words with which a failed attempt is given up.

use vstd::prelude::*;

verus! {

/// The version of the server API that a connection declares.
#[derive(Debug, Clone, Copy, PartialEq, Eq, Structural)]
pub enum ServerApiVersion {
    /// Version 1 of the stable API.
    V1,
}

/// The two calls to the driver that connecting consists of. Either may fail,
/// and a failure is final.
#[derive(Debug, Clone, Copy, PartialEq, Eq, Structural)]
pub enum InitStep {
    /// The connection string is parsed into client options.
    ParseUri,
    /// The client handle is built from the options.
    BuildClient,
}

/// What the driver is given to connect with.
#[derive(Debug)]
pub struct ConnectionSettings {
    /// The connection string, as the caller wrote it.
    pub uri: String,
    /// The server API version that the client declares on every command.
    pub server_api: ServerApiVersion,
}

/// `ConnectionSettings` with the connection string as a sequence of characters.
pub struct ConnectionSettingsView {
    pub uri: Seq<char>,
    pub server_api: ServerApiVersion,
}

impl View for ConnectionSettings {
    type V = ConnectionSettingsView;

    open spec fn view(&self) -> ConnectionSettingsView {
        ConnectionSettingsView { uri: self.uri@, server_api: self.server_api }
    }
}

/// The message with which connecting to `uri` is abandoned when `step` fails.
pub open spec fn failure_text(step: InitStep, uri: Seq<char>) -> Seq<char> {
    match step {
        InitStep::ParseUri => "Cannot connect to the database on "@ + uri,
        InitStep::BuildClient => "Cannot create a database client"@,
    }
}

impl ConnectionSettings {
    /// The settings for a connection to `uri`: the string itself, and the
    /// server API pinned to version 1.
    pub fn new(uri: String) -> (settings: Self)
        ensures
            settings@ == (ConnectionSettingsView { uri: uri@, server_api: ServerApiVersion::V1 }),
    {
        ConnectionSettings { uri, server_api: ServerApiVersion::V1 }
    }

    /// The message to abort with when `step` has failed for these settings.
    pub fn failure_message(&self, step: InitStep) -> (message: String)
        ensures
            message@ == failure_text(step, self@.uri),
    {
        match step {
            InitStep::ParseUri => {
                String::from_str("Cannot connect to the database on ").concat(self.uri.as_str())
            },
            InitStep::BuildClient => String::from_str("Cannot create a database client"),
        }
    }
}

} // verus!
