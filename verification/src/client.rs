//! The dispatcher: an endpoint base, an optional bearer credential and a
//! transport handle, and the calls it plans from them.

use vstd::prelude::*;
use vstd::string::*;

use crate::call::{copy_text, planned_call, text_of, HttpCall, HttpCallView};
use crate::error::ServiceStackError;
use crate::traits::{
    declares, has_fixed_method, has_fixed_path, resolves_to, HttpMethod, ServiceStackRequest,
};
use crate::transport::build_client;
use crate::url::{ends_with_separator, normalize_base, resolve, trim_separators};

verus! {

/// Seconds a call may take in all, for a transport that [`JsonServiceClient::new`] builds.
pub const DEFAULT_TIMEOUT_SECS: u64 = 30;

/// Plans typed calls against one service endpoint.
pub struct JsonServiceClient {
    base_url: String,
    http_client: reqwest::Client,
    bearer_token: Option<String>,
}

impl JsonServiceClient {
    /// The endpoint base never ends with a path separator.
    #[verifier::type_invariant]
    spec fn base_is_normalized(self) -> bool {
        !ends_with_separator(self.base_url@)
    }

    /// The endpoint base.
    pub closed spec fn base(&self) -> Seq<char> {
        self.base_url@
    }

    /// The bearer credential currently set, if any.
    pub closed spec fn credential(&self) -> Option<Seq<char>> {
        text_of(self.bearer_token)
    }

    /// The transport handle.
    pub closed spec fn transport(&self) -> reqwest::Client {
        self.http_client
    }

    /// The call this dispatcher issues for a verb, a path and a body.
    pub open spec fn plan(
        &self,
        method: HttpMethod,
        path: Seq<char>,
        body: Option<Seq<char>>,
    ) -> HttpCallView {
        planned_call(self.base(), self.credential(), method, path, body)
    }

    /// `call` is a call that this dispatcher may issue for `request` when
    /// the verb is forced to `method`: the request only chooses the path.
    pub open spec fn issues_forced<T: ServiceStackRequest>(
        &self,
        method: HttpMethod,
        request: &T,
        body: Option<Seq<char>>,
        call: HttpCallView,
    ) -> bool {
        exists|path: Seq<char>| resolves_to(request, path) && call == self.plan(method, path, body)
    }

    /// `call` is a call that this dispatcher may issue for `request` when
    /// the request chooses both the verb and the path.
    pub open spec fn issues_declared<T: ServiceStackRequest>(
        &self,
        request: &T,
        body: Option<Seq<char>>,
        call: HttpCallView,
    ) -> bool {
        exists|method: HttpMethod, path: Seq<char>|
            declares(request, method) && resolves_to(request, path) && call == self.plan(
                method,
                path,
                body,
            )
    }

    /// A dispatcher for the service at `base_url`, with no credential and a
    /// transport whose calls time out after [`DEFAULT_TIMEOUT_SECS`].
    /// Fails only if the transport cannot be built on this machine.
    pub fn new(base_url: &str) -> (made: Result<JsonServiceClient, ServiceStackError>)
        ensures
            match made {
                Ok(client) => client.base() == trim_separators(base_url@) && client.credential()
                    is None,
                Err(error) => error is RequestError,
            },
    {
        match build_client(DEFAULT_TIMEOUT_SECS) {
            Ok(http_client) => Ok(Self::with_client(base_url, http_client)),
            Err(error) => Err(ServiceStackError::RequestError(error)),
        }
    }

    /// A dispatcher for the service at `base_url` that uses `http_client`
    /// as its transport, with no credential.
    pub fn with_client(base_url: &str, http_client: reqwest::Client) -> (client: JsonServiceClient)
        ensures
            client.base() == trim_separators(base_url@),
            client.credential() is None,
            client.transport() == http_client,
    {
        JsonServiceClient { base_url: normalize_base(base_url), http_client, bearer_token: None }
    }

    /// Replaces the credential by `token`.
    pub fn set_bearer_token(&mut self, token: &str)
        ensures
            final(self).credential() == Some(token@),
            final(self).base() == old(self).base(),
            final(self).transport() == old(self).transport(),
    {
        proof {
            use_type_invariant(&*self);
        }
        self.bearer_token = Some(String::from_str(token));
    }

    /// Removes the credential.
    pub fn clear_bearer_token(&mut self)
        ensures
            final(self).credential() is None,
            final(self).base() == old(self).base(),
            final(self).transport() == old(self).transport(),
    {
        proof {
            use_type_invariant(&*self);
        }
        self.bearer_token = None;
    }

    /// The endpoint base.
    pub fn base_url(&self) -> (base: &str)
        ensures
            base@ == self.base(),
            !ends_with_separator(base@),
    {
        proof {
            use_type_invariant(self);
        }
        self.base_url.as_str()
    }

    /// The credential currently set, if any.
    pub fn bearer_token(&self) -> (token: Option<&str>)
        ensures
            match token {
                Some(t) => self.credential() == Some(t@),
                None => self.credential() is None,
            },
    {
        match &self.bearer_token {
            Some(t) => Some(t.as_str()),
            None => None,
        }
    }

    /// The transport handle.
    pub fn http_client(&self) -> (handle: &reqwest::Client)
        ensures
            *handle == self.transport(),
    {
        &self.http_client
    }

    /// The call for `method` on `path` with `body` as the serialized request.
    pub fn call_for(&self, method: HttpMethod, path: &str, body: Option<String>) -> (call: HttpCall)
        ensures
            call@ == self.plan(method, path@, text_of(body)),
    {
        HttpCall {
            method,
            url: resolve(self.base_url.as_str(), path),
            bearer_token: copy_text(&self.bearer_token),
            body: if method.has_body() {
                body
            } else {
                None
            },
        }
    }

    /// The call that carries `request` with the verb forced to `method`.
    fn forced<T: ServiceStackRequest>(
        &self,
        method: HttpMethod,
        request: T,
        body: Option<String>,
    ) -> (call: HttpCall)
        ensures
            self.issues_forced(method, &request, text_of(body), call@),
    {
        let path = request.path();
        let call = self.call_for(method, path.as_str(), body);
        assert(resolves_to(&request, path@));
        call
    }

    /// Plans a retrieval of `request`'s endpoint. No body goes along.
    pub fn get<T: ServiceStackRequest>(&self, request: T) -> (call: HttpCall)
        ensures
            self.issues_forced(HttpMethod::Get, &request, None, call@),
    {
        self.forced(HttpMethod::Get, request, None)
    }

    /// Plans a submission of `request`, whose JSON form is `body`.
    pub fn post<T: ServiceStackRequest>(&self, request: T, body: String) -> (call: HttpCall)
        ensures
            self.issues_forced(HttpMethod::Post, &request, Some(body@), call@),
    {
        self.forced(HttpMethod::Post, request, Some(body))
    }

    /// Plans a replacement with `request`, whose JSON form is `body`.
    pub fn put<T: ServiceStackRequest>(&self, request: T, body: String) -> (call: HttpCall)
        ensures
            self.issues_forced(HttpMethod::Put, &request, Some(body@), call@),
    {
        self.forced(HttpMethod::Put, request, Some(body))
    }

    /// Plans a removal with `request`, whose JSON form is `body`.
    pub fn delete<T: ServiceStackRequest>(&self, request: T, body: String) -> (call: HttpCall)
        ensures
            self.issues_forced(HttpMethod::Delete, &request, Some(body@), call@),
    {
        self.forced(HttpMethod::Delete, request, Some(body))
    }

    /// Plans a partial update with `request`, whose JSON form is `body`.
    pub fn patch<T: ServiceStackRequest>(&self, request: T, body: String) -> (call: HttpCall)
        ensures
            self.issues_forced(HttpMethod::Patch, &request, Some(body@), call@),
    {
        self.forced(HttpMethod::Patch, request, Some(body))
    }

    /// Plans the call for `request` with the verb that the request itself
    /// declares. `body` is the request's JSON form.
    pub fn send<T: ServiceStackRequest>(&self, request: T, body: String) -> (call: HttpCall)
        ensures
            self.issues_declared(&request, Some(body@), call@),
    {
        let method = request.method();
        let path = request.path();
        let call = self.call_for(method, path.as_str(), Some(body));
        assert(declares(&request, method) && resolves_to(&request, path@));
        call
    }

    /// Plans a call from a verb given as a string, a path and an optional
    /// JSON body, without a message contract. The verb is read ignoring
    /// letter case. A verb that is none of the five is refused, and no call
    /// is planned: the error holds the verb as it was given.
    pub fn request(&self, method: &str, path: &str, body: Option<String>) -> (planned: Result<
        HttpCall,
        ServiceStackError,
    >)
        ensures
            match HttpMethod::recognized(method@) {
                Some(verb) => planned matches Ok(call) && call@ == self.plan(
                    verb,
                    path@,
                    text_of(body),
                ),
                None => planned matches Err(ServiceStackError::UnsupportedMethod(given))
                    && given@ == method@,
            },
    {
        match HttpMethod::parse(method) {
            Some(verb) => Ok(self.call_for(verb, path, body)),
            None => Err(ServiceStackError::UnsupportedMethod(String::from_str(method))),
        }
    }
}

impl Clone for JsonServiceClient {
    /// A dispatcher with the same endpoint base and credential, on a handle
    /// cloned from this one's transport.
    fn clone(&self) -> (copy: JsonServiceClient)
        ensures
            copy.base() == self.base(),
            copy.credential() == self.credential(),
    {
        proof {
            use_type_invariant(self);
        }
        JsonServiceClient {
            base_url: self.base_url.clone(),
            http_client: self.http_client.clone(),
            bearer_token: copy_text(&self.bearer_token),
        }
    }
}

/// For a request that resolves to one path only and declares one verb only,
/// letting the request choose the verb and forcing that same verb give the
/// same call: same verb, same target, same credential, same body.
pub proof fn lemma_declared_verb_same_as_forced<T: ServiceStackRequest>(
    client: JsonServiceClient,
    request: &T,
    method: HttpMethod,
    path: Seq<char>,
    body: Option<Seq<char>>,
    declared: HttpCallView,
    forced: HttpCallView,
)
    requires
        has_fixed_path(request, path),
        has_fixed_method(request, method),
        client.issues_declared(request, body, declared),
        client.issues_forced(method, request, body, forced),
    ensures
        declared == forced,
        declared == client.plan(method, path, body),
{
}

/// Retrieval never carries a body, whatever body is offered.
pub proof fn lemma_retrieval_has_no_body(
    client: JsonServiceClient,
    path: Seq<char>,
    body: Option<Seq<char>>,
)
    ensures
        client.plan(HttpMethod::Get, path, body).body is None,
        client.plan(HttpMethod::Get, path, body) == client.plan(HttpMethod::Get, path, None),
{
}

/// Every verb but retrieval carries the body it is given.
pub proof fn lemma_other_verbs_carry_body(
    client: JsonServiceClient,
    method: HttpMethod,
    path: Seq<char>,
    body: Option<Seq<char>>,
)
    requires
        method != HttpMethod::Get,
    ensures
        client.plan(method, path, body).body == body,
{
}

} // verus!
