//! A small concurrent HTTP dispatch core.
//!
//! A worker owns a compiled route table and a bounded upload buffer. For each
//! connection it resolves the request path, optionally extracts one multipart
//! body part, hands a request view to the matched handler and decides what is
//! sent back. Reading from and writing to the connection is left to the
//! caller, which feeds the worker with plain values.

pub mod err;
pub mod header;
pub mod request;
pub mod route;
pub mod upload;
pub mod worker;

pub use err::{ignore_client_closing_errors, BeakError, BeakResult, IoFault};
pub use request::{Handler, Request};
pub use upload::MultipartEntry;
