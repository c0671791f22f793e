//! HTTP retrieval as callable functions of an embedded database engine.
//!
//! A query can fetch a remote resource as a value of its own, or get a handle
//! that fetches only when a consumer asks for the bytes. The library holds the
//! rules of both: what is requested, what a call returns for each answer of
//! the transport, and how a deferred fetch is stored in the result slot of a
//! call and found again. It performs no input or output itself.

pub mod error;
pub mod functions;
pub mod reader;
pub mod registry;

pub use error::{FetchError, MissingArgument, RetrieveError};
pub use functions::{
    http_debug, http_get_body, http_request, http_version, sqlite3_http_init, EntryPoint,
    ScalarFunction,
};
pub use reader::{GetRequest, RequestReader};
pub use registry::{Handle, Slot, READER_POINTER_NAME};
