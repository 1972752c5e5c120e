//! The message contract: verbs, and how a request names its endpoint.

use vstd::prelude::*;
use vstd::string::*;

use crate::transport::{to_uppercase, uppercase};

verus! {

/// The closed set of HTTP verbs a call can use.
#[derive(Debug, Clone, Copy, PartialEq, Eq, Structural)]
pub enum HttpMethod {
    Get,
    Post,
    Put,
    Delete,
    Patch,
}

impl HttpMethod {
    /// The verb's token.
    pub open spec fn name(self) -> Seq<char> {
        match self {
            HttpMethod::Get => "GET"@,
            HttpMethod::Post => "POST"@,
            HttpMethod::Put => "PUT"@,
            HttpMethod::Delete => "DELETE"@,
            HttpMethod::Patch => "PATCH"@,
        }
    }

    /// The verb whose token is exactly `name`, if there is one.
    pub open spec fn named(name: Seq<char>) -> Option<HttpMethod> {
        if name == "GET"@ {
            Some(HttpMethod::Get)
        } else if name == "POST"@ {
            Some(HttpMethod::Post)
        } else if name == "PUT"@ {
            Some(HttpMethod::Put)
        } else if name == "DELETE"@ {
            Some(HttpMethod::Delete)
        } else if name == "PATCH"@ {
            Some(HttpMethod::Patch)
        } else {
            None
        }
    }

    /// The verb that `verb` stands for when letter case is ignored: the one
    /// whose token is the uppercase form of `verb`.
    pub open spec fn recognized(verb: Seq<char>) -> Option<HttpMethod> {
        Self::named(uppercase(verb))
    }

    /// A call with this verb carries a body. Only retrieval does not.
    pub open spec fn carries_body(self) -> bool {
        self != HttpMethod::Get
    }

    /// The verb's token, as it goes on the wire.
    pub fn as_str(&self) -> (s: &'static str)
        ensures
            s@ == self.name(),
    {
        match self {
            HttpMethod::Get => "GET",
            HttpMethod::Post => "POST",
            HttpMethod::Put => "PUT",
            HttpMethod::Delete => "DELETE",
            HttpMethod::Patch => "PATCH",
        }
    }

    /// Reads a verb from its exact token.
    pub fn from_name(name: &str) -> (found: Option<HttpMethod>)
        ensures
            found == Self::named(name@),
    {
        if same_text(name, "GET") {
            Some(HttpMethod::Get)
        } else if same_text(name, "POST") {
            Some(HttpMethod::Post)
        } else if same_text(name, "PUT") {
            Some(HttpMethod::Put)
        } else if same_text(name, "DELETE") {
            Some(HttpMethod::Delete)
        } else if same_text(name, "PATCH") {
            Some(HttpMethod::Patch)
        } else {
            None
        }
    }

    /// Reads a verb from a string, ignoring letter case.
    pub fn parse(verb: &str) -> (found: Option<HttpMethod>)
        ensures
            found == Self::recognized(verb@),
    {
        let upper = to_uppercase(verb);
        Self::from_name(upper.as_str())
    }

    /// Whether a call with this verb carries a body.
    pub fn has_body(&self) -> (yes: bool)
        ensures
            yes == self.carries_body(),
    {
        match self {
            HttpMethod::Get => false,
            _ => true,
        }
    }
}

/// The five tokens are pairwise different, so a verb is read back from its
/// own token.
pub proof fn lemma_named_inverts_name(method: HttpMethod)
    ensures
        HttpMethod::named(method.name()) == Some(method),
{
    reveal_strlit("GET");
    reveal_strlit("POST");
    reveal_strlit("PUT");
    reveal_strlit("DELETE");
    reveal_strlit("PATCH");
    assert("GET"@.len() == 3 && "PUT"@.len() == 3 && "POST"@.len() == 4);
    assert("PATCH"@.len() == 5 && "DELETE"@.len() == 6);
    assert("GET"@[0] != "PUT"@[0]);
}

/// Whether two strings hold the same characters.
pub fn same_text(left: &str, right: &str) -> (same: bool)
    ensures
        same == (left@ == right@),
{
    let len = left.unicode_len();
    if len != right.unicode_len() {
        return false;
    }
    let mut at: usize = 0;
    while at < len
        invariant
            at <= len,
            len == left@.len(),
            len == right@.len(),
            forall|i: int| 0 <= i < at ==> left@[i] == right@[i],
        decreases len - at,
    {
        if left.get_char(at) != right.get_char(at) {
            return false;
        }
        at = at + 1;
    }
    assert(left@ =~= right@);
    true
}

/// Marker for types a response body can be decoded into.
pub trait ServiceStackResponse {
}

/// Binds a request value to its response type, its path and its verb.
pub trait ServiceStackRequest {
    /// What a successful call yields.
    type Response: ServiceStackResponse;

    /// The path of the endpoint this request goes to.
    fn path(&self) -> String;

    /// The verb this request asks for. A request type that does not
    /// override this declares submission.
    fn method(&self) -> (verb: HttpMethod)
        default_ensures
            verb == HttpMethod::Post,
    {
        HttpMethod::Post
    }
}

/// `path` is a path that `request` resolves to.
pub open spec fn resolves_to<T: ServiceStackRequest>(request: &T, path: Seq<char>) -> bool {
    exists|p: String| p@ == path && call_ensures(T::path, (request,), p)
}

/// `method` is a verb that `request` declares.
pub open spec fn declares<T: ServiceStackRequest>(request: &T, method: HttpMethod) -> bool {
    call_ensures(T::method, (request,), method)
}

/// `request` resolves to `path` and to no other path.
pub open spec fn has_fixed_path<T: ServiceStackRequest>(request: &T, path: Seq<char>) -> bool {
    forall|other: Seq<char>| resolves_to(request, other) ==> other == path
}

/// `request` declares `method` and no other verb.
pub open spec fn has_fixed_method<T: ServiceStackRequest>(request: &T, method: HttpMethod) -> bool {
    forall|other: HttpMethod| declares(request, other) ==> other == method
}

} // verus!
