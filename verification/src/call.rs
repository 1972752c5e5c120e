//! A call as plain data: what the dispatcher asks the transport to issue.

use vstd::prelude::*;

use crate::traits::HttpMethod;

verus! {

/// One HTTP call, ready to be issued.
#[derive(Debug, Clone, PartialEq, Eq)]
pub struct HttpCall {
    /// The verb.
    pub method: HttpMethod,
    /// The absolute target.
    pub url: String,
    /// The bearer credential to send in the `Authorization` header, if any.
    pub bearer_token: Option<String>,
    /// The JSON text to send as the body, if any.
    pub body: Option<String>,
}

/// The mathematical content of an [`HttpCall`].
pub struct HttpCallView {
    pub method: HttpMethod,
    pub url: Seq<char>,
    pub bearer_token: Option<Seq<char>>,
    pub body: Option<Seq<char>>,
}

impl View for HttpCall {
    type V = HttpCallView;

    open spec fn view(&self) -> HttpCallView {
        HttpCallView {
            method: self.method,
            url: self.url@,
            bearer_token: text_of(self.bearer_token),
            body: text_of(self.body),
        }
    }
}

/// The characters of an optional string.
pub open spec fn text_of(text: Option<String>) -> Option<Seq<char>> {
    match text {
        Some(t) => Some(t@),
        None => None,
    }
}

/// The call that a dispatcher with endpoint base `base` and credential
/// `credential` issues for a verb, a path and a serialized request: the
/// target is the base followed by the path, the credential goes along
/// whenever there is one, and the body goes along unless the verb is
/// retrieval.
pub open spec fn planned_call(
    base: Seq<char>,
    credential: Option<Seq<char>>,
    method: HttpMethod,
    path: Seq<char>,
    body: Option<Seq<char>>,
) -> HttpCallView {
    HttpCallView {
        method,
        url: crate::url::join(base, path),
        bearer_token: credential,
        body: if method.carries_body() {
            body
        } else {
            None
        },
    }
}

/// Copies an optional string.
pub fn copy_text(text: &Option<String>) -> (copy: Option<String>)
    ensures
        text_of(copy) == text_of(*text),
{
    match text {
        Some(t) => Some(t.clone()),
        None => None,
    }
}

} // verus!
