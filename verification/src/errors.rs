//! The closed error taxonomy of the library.
//!
//! Every fallible operation reports one of these kinds. Errors are built at
//! the point of failure and handed to the caller unchanged; nothing in the
//! library retries or recovers. Failures coming from outside crates are
//! carried as their rendered message.

use vstd::prelude::*;

verus! {

/// Payload of an error about a feature that has no implementation yet.
#[derive(Debug, Clone)]
pub struct MissingImplementationContent {
    pub message: String,
}

impl MissingImplementationContent {
    /// The message rendered for display.
    pub fn to_message(&self) -> (r: String)
        ensures
            r@ == "error message: "@ + self.message@,
    {
        let prefix: String = "error message: ".to_owned();
        prefix.concat(self.message.as_str())
    }
}

/// Everything that can go wrong in this library.
///
/// Transport failures, header construction, URL parsing, query serialization
/// and JSON decoding carry the message of the underlying failure; the
/// upstream-status kinds mirror the HTTP status dispatch of the transport.
#[derive(Debug, Clone)]
pub enum RedCrabError {
    Generic(String),
    NoMarketPair,
    MissingImplementation(MissingImplementationContent),
    AssetNotFound,
    NoApiKeySet,
    InternalServerError,
    ServiceUnavailable,
    Unauthorized,
    SymbolNotFound,
    SocketError,
    WebSocketMessageNotSupported,
    GetTimestampFailed,
    ReqError(String),
    InvalidHeaderError(String),
    InvalidPayloadSignature(String),
    IoError(String),
    PoisonError,
    JsonError(String),
    ParseFloatError(String),
    UrlParserError(String),
    TimestampError(String),
    UnkownResponse(String),
    NotParsableResponse(String),
    MissingParameter(String),
    InvalidParameter(String),
}

} // verus!
