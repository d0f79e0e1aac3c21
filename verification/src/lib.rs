//! Verified core of an Elasticsearch/OpenSearch HTTP client: request
//! planning, authentication (HTTP Basic and AWS SigV4 header signing),
//! trust-anchor handling, and tolerant decoding of catalog and search
//! responses. Network transport and credential resolution are left to the
//! caller; every function here is a total, verified computation over the
//! request and response data.

pub mod auth;
pub mod base64;
pub mod catalog;
pub mod client;
pub mod decode;
pub mod error;
pub mod json;
pub mod parse;
pub mod request;
pub mod sigv4;
pub mod text;
pub mod tls;
pub mod urls;
