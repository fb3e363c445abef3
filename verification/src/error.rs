//! Possible errors in the request-response lifecycle.
use vstd::prelude::*;

verus! {

/// Possible errors in the request-response lifecycle.
///
/// Failures raised by outside collaborators (the transport, the encoders,
/// the operating system) are carried as their message text; protocol
/// failures carry the response status and the raw body bytes.
#[derive(Clone, Debug, PartialEq, Eq)]
pub enum Error {
    /// Transport-level failure.
    Hyper(String),
    /// Malformed request or response at the protocol layer.
    Http(String),
    /// JSON encoding or decoding failure.
    SerdeJson(String),
    /// Query-string encoding failure.
    SerdeQs(String),
    /// Form encoding failure.
    SerdeUrlEncoded(String),
    /// Pagination failure.
    Pagination {
        /// What went wrong.
        msg: String,
    },
    /// The server rejected the request: status in the client-error range,
    /// with the response body.
    ClientError(u16, Vec<u8>),
    /// The server failed or answered outside the success and client-error
    /// ranges: status and response body.
    ServerError(u16, Vec<u8>),
    /// Input-output failure.
    Io(String),
    /// A response body that was not valid text.
    Utf8(String),
}

} // verus!
