//! The failures that a caller sees, by cause.

use vstd::prelude::*;
use vstd::std_specs::convert::FromSpecImpl;

verus! {

#[verifier::external_type_specification]
#[verifier::external_body]
pub struct ExTransportError(tokio_tungstenite::tungstenite::Error);

#[verifier::external_type_specification]
#[verifier::external_body]
pub struct ExParseError(url::ParseError);

#[verifier::external_type_specification]
#[verifier::external_body]
pub struct ExJsonError(serde_json::Error);

/// Why an operation failed: the transport, the configured endpoint, the JSON
/// layer, or the clock.
#[derive(Debug)]
pub enum BridgeError {
    Ws(tokio_tungstenite::tungstenite::Error),
    Url(url::ParseError),
    Json(serde_json::Error),
    /// The system's clock stands before the Unix epoch, so an event has no
    /// timestamp.
    Clock,
}

impl From<tokio_tungstenite::tungstenite::Error> for BridgeError {
    fn from(e: tokio_tungstenite::tungstenite::Error) -> (r: Self) {
        BridgeError::Ws(e)
    }
}

impl FromSpecImpl<tokio_tungstenite::tungstenite::Error> for BridgeError {
    open spec fn obeys_from_spec() -> bool {
        true
    }

    open spec fn from_spec(e: tokio_tungstenite::tungstenite::Error) -> Self {
        BridgeError::Ws(e)
    }
}

impl From<url::ParseError> for BridgeError {
    fn from(e: url::ParseError) -> (r: Self) {
        BridgeError::Url(e)
    }
}

impl FromSpecImpl<url::ParseError> for BridgeError {
    open spec fn obeys_from_spec() -> bool {
        true
    }

    open spec fn from_spec(e: url::ParseError) -> Self {
        BridgeError::Url(e)
    }
}

impl From<serde_json::Error> for BridgeError {
    fn from(e: serde_json::Error) -> (r: Self) {
        BridgeError::Json(e)
    }
}

impl FromSpecImpl<serde_json::Error> for BridgeError {
    open spec fn obeys_from_spec() -> bool {
        true
    }

    open spec fn from_spec(e: serde_json::Error) -> Self {
        BridgeError::Json(e)
    }
}

/// `tungstenite::Error::AlreadyClosed`: the error that the transport gives
/// for a write on a connection that is closed. Nothing is claimed of it.
#[verifier::external_body]
pub(crate) fn already_closed() -> tokio_tungstenite::tungstenite::Error {
    tokio_tungstenite::tungstenite::Error::AlreadyClosed
}

} // verus!
