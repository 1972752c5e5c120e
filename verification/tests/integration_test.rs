use serde::de::{Deserialize, DeserializeOwned, Deserializer};
use serde::ser::{Serialize, SerializeStruct, Serializer};
use servicestack::exchange::{complete, on_delivery, Delivery, Directive, Payload};
use servicestack::{
    HttpCall, HttpMethod, JsonServiceClient, ServiceStackError, ServiceStackRequest,
    ServiceStackResponse,
};

struct HelloRequest {
    name: String,
}

impl Serialize for HelloRequest {
    fn serialize<S: Serializer>(&self, serializer: S) -> Result<S::Ok, S::Error> {
        let mut fields = serializer.serialize_struct("HelloRequest", 1)?;
        fields.serialize_field("name", &self.name)?;
        fields.end()
    }
}

impl ServiceStackRequest for HelloRequest {
    type Response = HelloResponse;

    fn path(&self) -> String {
        "/hello".to_string()
    }
}

#[derive(Debug, PartialEq)]
struct HelloResponse {
    result: String,
}

impl<'de> Deserialize<'de> for HelloResponse {
    fn deserialize<D: Deserializer<'de>>(deserializer: D) -> Result<Self, D::Error> {
        let value = serde_json::Value::deserialize(deserializer)?;
        match value.get("result").and_then(|r| r.as_str()) {
            Some(result) => Ok(HelloResponse { result: result.to_string() }),
            None => Err(serde::de::Error::missing_field("result")),
        }
    }
}

impl ServiceStackResponse for HelloResponse {}

#[derive(Debug, PartialEq)]
struct SearchResponse {
    results: Vec<String>,
}

impl<'de> Deserialize<'de> for SearchResponse {
    fn deserialize<D: Deserializer<'de>>(deserializer: D) -> Result<Self, D::Error> {
        let value = serde_json::Value::deserialize(deserializer)?;
        match value.get("results").and_then(|r| r.as_array()) {
            Some(items) => Ok(SearchResponse {
                results: items.iter().filter_map(|i| i.as_str()).map(|i| i.to_string()).collect(),
            }),
            None => Err(serde::de::Error::missing_field("results")),
        }
    }
}

impl ServiceStackResponse for SearchResponse {}

struct SearchRequest {
    query: String,
    limit: u32,
}

impl Serialize for SearchRequest {
    fn serialize<S: Serializer>(&self, serializer: S) -> Result<S::Ok, S::Error> {
        let mut fields = serializer.serialize_struct("SearchRequest", 2)?;
        fields.serialize_field("query", &self.query)?;
        fields.serialize_field("limit", &self.limit)?;
        fields.end()
    }
}

impl ServiceStackRequest for SearchRequest {
    type Response = SearchResponse;

    fn path(&self) -> String {
        "/search".to_string()
    }

    fn method(&self) -> HttpMethod {
        HttpMethod::Put
    }
}

struct CustomRequest {
    data: String,
}

impl Serialize for CustomRequest {
    fn serialize<S: Serializer>(&self, serializer: S) -> Result<S::Ok, S::Error> {
        let mut fields = serializer.serialize_struct("CustomRequest", 1)?;
        fields.serialize_field("data", &self.data)?;
        fields.end()
    }
}

fn json_of<T: Serialize>(value: &T) -> String {
    serde_json::to_string(value).unwrap()
}

/// A service endpoint played in memory: it answers the one call it
/// expects and turns every other call away.
struct Endpoint {
    origin: &'static str,
    method: HttpMethod,
    path: &'static str,
    authorization: Option<&'static str>,
    status: u16,
    body: &'static str,
    hits: std::cell::Cell<u32>,
}

impl Endpoint {
    fn new(method: HttpMethod, path: &'static str, status: u16, body: &'static str) -> Self {
        Endpoint {
            origin: "http://service.test",
            method,
            path,
            authorization: None,
            status,
            body,
            hits: std::cell::Cell::new(0),
        }
    }

    fn requiring(mut self, authorization: &'static str) -> Self {
        self.authorization = Some(authorization);
        self
    }

    fn url(&self) -> String {
        format!("{}/", self.origin)
    }

    fn serve(&self, call: &HttpCall) -> (u16, String) {
        let header = call.bearer_token.as_ref().map(|token| format!("Bearer {token}"));
        let wanted = format!("{}{}", self.origin, self.path);
        let authorized = match self.authorization {
            Some(required) => header.as_deref() == Some(required),
            None => true,
        };
        if call.method == self.method && call.url == wanted && authorized {
            self.hits.set(self.hits.get() + 1);
            (self.status, self.body.to_string())
        } else {
            (501, String::new())
        }
    }
}

/// Hands `call` to the endpoint and reports to the library at each step.
fn perform<R: DeserializeOwned>(endpoint: &Endpoint, call: HttpCall) -> Result<R, ServiceStackError> {
    let (status, body) = endpoint.serve(&call);
    match on_delivery(Delivery::Responded { status, body }) {
        Directive::Fail(error) => Err(error),
        Directive::ReadErrorText(rejection, body) => Err(rejection.into_error(Some(body))),
        Directive::DecodeBody(body) => complete(match serde_json::from_str::<R>(&body) {
            Ok(value) => Payload::Decoded(value),
            Err(cause) => Payload::Malformed(cause),
        }),
    }
}

#[test]
fn test_post_request() {
    let endpoint = Endpoint::new(HttpMethod::Post, "/hello", 200, r#"{"result":"Hello, World!"}"#);

    let client = JsonServiceClient::new(&endpoint.url()).unwrap();
    let request = HelloRequest { name: "World".to_string() };
    let body = json_of(&request);
    assert_eq!(body, r#"{"name":"World"}"#);

    let call = client.post(request, body);
    assert_eq!(call.body.as_deref(), Some(r#"{"name":"World"}"#));
    let response: HelloResponse = perform(&endpoint, call).unwrap();
    assert_eq!(response.result, "Hello, World!");
    assert_eq!(endpoint.hits.get(), 1);
}

#[test]
fn test_get_request() {
    let endpoint = Endpoint::new(HttpMethod::Get, "/hello", 200, r#"{"result":"Hello, World!"}"#);

    let client = JsonServiceClient::new(&endpoint.url()).unwrap();
    let request = HelloRequest { name: "World".to_string() };

    let response: HelloResponse = perform(&endpoint, client.get(request)).unwrap();
    assert_eq!(response.result, "Hello, World!");
    assert_eq!(endpoint.hits.get(), 1);
}

#[test]
fn test_bearer_token_authentication() {
    let endpoint = Endpoint::new(HttpMethod::Post, "/hello", 200, r#"{"result":"Authenticated!"}"#)
        .requiring("Bearer test-token-123");

    let mut client = JsonServiceClient::new(&endpoint.url()).unwrap();
    client.set_bearer_token("test-token-123");

    let request = HelloRequest { name: "World".to_string() };
    let body = json_of(&request);

    let response: HelloResponse = perform(&endpoint, client.post(request, body)).unwrap();
    assert_eq!(response.result, "Authenticated!");
    assert_eq!(endpoint.hits.get(), 1);
}

#[test]
fn cleared_token_is_rejected_by_the_endpoint() {
    let endpoint = Endpoint::new(HttpMethod::Post, "/hello", 200, r#"{"result":"Authenticated!"}"#)
        .requiring("Bearer test-token-123");

    let mut client = JsonServiceClient::new(&endpoint.url()).unwrap();
    client.set_bearer_token("test-token-123");
    let request = HelloRequest { name: "World".to_string() };
    let body = json_of(&request);
    let first: Result<HelloResponse, ServiceStackError> = perform(&endpoint, client.post(request, body));
    assert!(first.is_ok());

    client.clear_bearer_token();
    let request = HelloRequest { name: "World".to_string() };
    let body = json_of(&request);
    let second: Result<HelloResponse, ServiceStackError> = perform(&endpoint, client.post(request, body));
    match second {
        Err(ServiceStackError::ApiError { status, message }) => {
            assert_eq!(status, 501);
            assert_eq!(message, "");
        }
        _ => panic!("Expected ApiError"),
    }
    assert_eq!(endpoint.hits.get(), 1);
}

#[test]
fn test_api_error_handling() {
    let endpoint = Endpoint::new(HttpMethod::Post, "/hello", 404, "Not Found");

    let client = JsonServiceClient::new(&endpoint.url()).unwrap();
    let request = HelloRequest { name: "World".to_string() };
    let body = json_of(&request);

    let result: Result<HelloResponse, ServiceStackError> = perform(&endpoint, client.post(request, body));
    assert!(result.is_err());

    if let Err(e) = result {
        match e {
            ServiceStackError::ApiError { status, message } => {
                assert_eq!(status, 404);
                assert_eq!(message, "Not Found");
            }
            _ => panic!("Expected ApiError"),
        }
    }
    assert_eq!(endpoint.hits.get(), 1);
}

#[test]
fn test_custom_http_method() {
    let endpoint =
        Endpoint::new(HttpMethod::Put, "/search", 200, r#"{"results":["result1","result2"]}"#);

    let client = JsonServiceClient::new(&endpoint.url()).unwrap();
    let request = SearchRequest { query: "test".to_string(), limit: 10 };
    let body = json_of(&request);
    assert_eq!(body, r#"{"query":"test","limit":10}"#);

    let response: SearchResponse = perform(&endpoint, client.send(request, body)).unwrap();
    assert_eq!(response.results, vec!["result1", "result2"]);
    assert_eq!(endpoint.hits.get(), 1);
}

#[test]
fn test_raw_request_method() {
    let endpoint = Endpoint::new(HttpMethod::Post, "/custom", 200, r#"{"result":"Custom response"}"#);

    let client = JsonServiceClient::new(&endpoint.url()).unwrap();
    let request = CustomRequest { data: "test".to_string() };

    let call = client.request("POST", "/custom", Some(json_of(&request))).unwrap();
    let response: HelloResponse = perform(&endpoint, call).unwrap();

    assert_eq!(response.result, "Custom response");
    assert_eq!(endpoint.hits.get(), 1);
}

#[test]
fn malformed_success_body_is_a_decode_failure() {
    let endpoint = Endpoint::new(HttpMethod::Post, "/hello", 200, "not json");

    let client = JsonServiceClient::new(&endpoint.url()).unwrap();
    let request = HelloRequest { name: "World".to_string() };
    let body = json_of(&request);
    let result: Result<HelloResponse, ServiceStackError> = perform(&endpoint, client.post(request, body));
    assert!(matches!(result, Err(ServiceStackError::JsonError(_))));
}

#[test]
fn well_formed_body_of_another_shape_is_a_decode_failure() {
    let endpoint = Endpoint::new(HttpMethod::Post, "/hello", 200, r#"{"other":1}"#);

    let client = JsonServiceClient::new(&endpoint.url()).unwrap();
    let request = HelloRequest { name: "World".to_string() };
    let body = json_of(&request);
    let result: Result<HelloResponse, ServiceStackError> = perform(&endpoint, client.post(request, body));
    assert!(matches!(result, Err(ServiceStackError::JsonError(_))));
}

#[test]
fn error_body_is_not_decoded_even_if_it_has_the_shape() {
    let endpoint = Endpoint::new(HttpMethod::Post, "/hello", 500, r#"{"result":"looks fine"}"#);

    let client = JsonServiceClient::new(&endpoint.url()).unwrap();
    let request = HelloRequest { name: "World".to_string() };
    let body = json_of(&request);
    let result: Result<HelloResponse, ServiceStackError> = perform(&endpoint, client.post(request, body));
    match result {
        Err(ServiceStackError::ApiError { status, message }) => {
            assert_eq!(status, 500);
            assert_eq!(message, r#"{"result":"looks fine"}"#);
        }
        _ => panic!("Expected ApiError"),
    }
}

#[test]
fn unsupported_verb_never_reaches_the_endpoint() {
    let endpoint = Endpoint::new(HttpMethod::Get, "/hello", 200, "{}");

    let client = JsonServiceClient::new(&endpoint.url()).unwrap();
    match client.request("HEAD", "/hello", None) {
        Err(ServiceStackError::UnsupportedMethod(verb)) => assert_eq!(verb, "HEAD"),
        _ => panic!("expected the unsupported-verb error"),
    }
    assert_eq!(endpoint.hits.get(), 0);
}
