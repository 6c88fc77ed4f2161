//! The ways in which a call can fail.
use vstd::prelude::*;

verus! {

/// Why a client could not be made or a call gave no value. Nothing is
/// retried and nothing is swallowed: a call ends in a value or in exactly
/// one of these.
#[derive(Clone, Debug, PartialEq, Eq)]
pub enum ClientError {
    /// The credentials were missing when the client was made.
    Configuration { details: String },
    /// The network failed before any reply arrived.
    Transport { details: String },
    /// The service replied with a status that reports a failure, or with its
    /// error object. The body is kept as it came, for the caller to read.
    Api { status: u16, body: String },
    /// The service reported success, yet the body does not have the shape
    /// that the endpoint declares. The body is kept as it came.
    Decode { details: String, body: String },
}

} // verus!
