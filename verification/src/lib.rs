//! A minimal HTTP/1.1 request/response pipeline: request parsing, header
//! management, traversal-safe path resolution, an HTTP error taxonomy,
//! response serialization, and a per-connection audit transcript.

pub mod clock;
pub mod headers;
pub mod http_error;
pub mod http_errors;
pub mod http_util;
pub mod request;
pub mod response;
pub mod str_util;
pub mod text;
pub mod transcript;
pub mod util;
pub mod wire;
