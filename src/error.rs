use vstd::prelude::*;

verus! {

/// Every failure that the library reports to a caller.
#[derive(Debug, PartialEq, Eq)]
pub enum FyersError {
    /// The HTTP request could not be made or returned a failure status.
    Network(String),
    /// A response body could not be parsed.
    Parse(String),
    /// The service answered with an envelope whose status is not `"ok"`.
    ApiError { s: String, code: i64, message: String },
    /// The authorization flow failed.
    AuthError(String),
    /// The streaming transport reported an error.
    WebsocketError(String),
    /// `connect` was called while a connection is live.
    AlreadyConnected,
    /// An operation that needs a live connection was called without one.
    NotConnected,
    /// A caller broke an argument contract (an empty symbol list).
    InvalidArgument,
    /// The endpoint URL could not be parsed or names no host.
    InvalidUrl,
    /// The upgrade handshake was answered with a status other than the upgrade status 101.
    HandshakeFailed(u16),
    /// Any other failure.
    Unknown(String),
}

} // verus!
