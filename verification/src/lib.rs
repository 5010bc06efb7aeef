//! Pre-dispatch primitives for a generated service client: resource-identifier
//! parsing, region-to-partition classification, URL and host-label validation,
//! endpoint assembly, and a pooled cache of transport clients keyed by
//! connection configuration.

pub mod arn;
pub mod assoc;
pub mod endpoint;
pub mod host_label;
pub mod http_connector;
pub mod parse_url;
pub mod partition;
pub mod pool;
pub mod redact;
pub mod sdk_gen;
pub mod strutil;
pub mod truthy;
