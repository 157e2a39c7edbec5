use vstd::prelude::*;

verus! {

/// Failure of a call to the payment service.
#[derive(Clone, Debug, PartialEq, Eq)]
pub enum ApiError {
    /// The request could not be carried out (connection, timeout, TLS).
    Network(String),
    /// The server answered with a status that the call does not accept.
    UnexpectedStatus { status: u16, body: String },
    /// The reply is not JSON, or matches neither the error shape nor the payload.
    Decode(String),
    /// The server reported an application-level error.
    Remote(String),
}

} // verus!
