//! The ways a call can fail.

use vstd::prelude::*;

verus! {

/// Why a call did not yield a decoded response. A failed call fails with
/// exactly one of these.
#[derive(Debug)]
pub enum ServiceStackError {
    /// The transport could not complete the exchange.
    RequestError(reqwest::Error),
    /// A body did not have the shape of the expected type.
    JsonError(serde_json::Error),
    /// The service answered with a status outside the success range.
    ApiError { status: u16, message: String },
    /// The verb is not one the dispatcher knows; holds the verb as given.
    UnsupportedMethod(String),
    /// A failure described by its message only.
    Other(String),
}

} // verus!
