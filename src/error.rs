//! Errors of the client core.
use vstd::prelude::*;

verus! {

/// An error of the client core. Errors that come from a collaborator (the
/// store, the file system, a serializer) carry that collaborator's message.
#[derive(Debug)]
pub enum XmppError {
    AuthenticationError(String),
    ConnectionError(String),
    ProtocolError(String),
    SerializationError(String),
    DatabaseError(String),
    IoError(String),
    ConfigError(String),
    FileTransferError(String),
    InvalidJid(String),
    TimeoutError,
    TlsError(String),
    /// A command needs an open transport and there is none.
    NotConnected,
}

/// The message of an error, as shown to a user.
pub open spec fn error_text(e: XmppError) -> Seq<char> {
    match e {
        XmppError::AuthenticationError(s) => "Authentication failed: "@ + s@,
        XmppError::ConnectionError(s) => "Connection error: "@ + s@,
        XmppError::ProtocolError(s) => "Protocol error: "@ + s@,
        XmppError::SerializationError(s) => "Serialization error: "@ + s@,
        XmppError::DatabaseError(s) => "Database error: "@ + s@,
        XmppError::IoError(s) => "IO error: "@ + s@,
        XmppError::ConfigError(s) => "Configuration error: "@ + s@,
        XmppError::FileTransferError(s) => "File transfer error: "@ + s@,
        XmppError::InvalidJid(s) => "Invalid JID: "@ + s@,
        XmppError::TimeoutError => "Network timeout"@,
        XmppError::TlsError(s) => "TLS error: "@ + s@,
        XmppError::NotConnected => "Not connected"@,
    }
}

fn prefixed(prefix: &str, s: &String) -> (r: String)
    ensures
        r@ == prefix@ + s@,
{
    String::from_str(prefix).concat(s.as_str())
}

impl XmppError {
    /// The message of this error, as shown to a user.
    pub fn to_string(&self) -> (r: String)
        ensures
            r@ == error_text(*self),
    {
        match self {
            XmppError::AuthenticationError(s) => prefixed("Authentication failed: ", s),
            XmppError::ConnectionError(s) => prefixed("Connection error: ", s),
            XmppError::ProtocolError(s) => prefixed("Protocol error: ", s),
            XmppError::SerializationError(s) => prefixed("Serialization error: ", s),
            XmppError::DatabaseError(s) => prefixed("Database error: ", s),
            XmppError::IoError(s) => prefixed("IO error: ", s),
            XmppError::ConfigError(s) => prefixed("Configuration error: ", s),
            XmppError::FileTransferError(s) => prefixed("File transfer error: ", s),
            XmppError::InvalidJid(s) => prefixed("Invalid JID: ", s),
            XmppError::TimeoutError => String::from_str("Network timeout"),
            XmppError::TlsError(s) => prefixed("TLS error: ", s),
            XmppError::NotConnected => String::from_str("Not connected"),
        }
    }
}

} // verus!
