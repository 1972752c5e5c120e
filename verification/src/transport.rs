//! The outside types and calls the dispatcher rests on.

use vstd::prelude::*;

verus! {

/// `reqwest::Client`, the transport handle. Opaque: nothing is stated of
/// what it holds.
#[verifier::external_type_specification]
#[verifier::external_body]
pub struct ExClient(reqwest::Client);

/// `Clone::clone` of `reqwest::Client`: a handle of its own on the client
/// that was cloned. Nothing is claimed of it.
pub assume_specification[ <reqwest::Client as Clone>::clone ](handle: &reqwest::Client) -> (copy:
    reqwest::Client);

/// `reqwest::Error`, the transport's own failure value. Opaque.
#[verifier::external_type_specification]
#[verifier::external_body]
pub struct ExTransportError(reqwest::Error);

/// `serde_json::Error`, the JSON codec's diagnostic. Opaque.
#[verifier::external_type_specification]
#[verifier::external_body]
pub struct ExJsonError(serde_json::Error);

/// Calls `reqwest::ClientBuilder::build` on a fresh builder whose only
/// setting, made with `ClientBuilder::timeout`, is a total per-request
/// timeout of `timeout_secs` seconds. Whether a client
/// can be built depends on the machine (TLS backend, resolver
/// configuration), so nothing is claimed of the result.
#[verifier::external_body]
pub(crate) fn build_client(timeout_secs: u64) -> (built: Result<reqwest::Client, reqwest::Error>) {
    reqwest::Client::builder().timeout(std::time::Duration::from_secs(timeout_secs)).build()
}

/// What `str::to_uppercase` returns for a text: its uppercase form under
/// the Unicode case mappings.
pub uninterp spec fn uppercase(text: Seq<char>) -> Seq<char>;

/// Calls `str::to_uppercase`. The result is a function of the text alone;
/// the contract gives it its name.
#[verifier::external_body]
pub(crate) fn to_uppercase(text: &str) -> (upper: String)
    ensures
        upper@ == uppercase(text@),
{
    text.to_uppercase()
}

} // verus!
