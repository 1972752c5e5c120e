//! Typed JSON-over-HTTP service client: the dispatch rules, verified.

pub mod call;
pub mod client;
pub mod error;
pub mod exchange;
pub mod traits;
pub mod transport;
pub mod url;

pub use call::HttpCall;
pub use client::JsonServiceClient;
pub use error::ServiceStackError;
pub use traits::{HttpMethod, ServiceStackRequest, ServiceStackResponse};
