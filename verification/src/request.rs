//! Plain descriptions of requests, before a transport turns them into
//! wire calls.
use vstd::prelude::*;

verus! {

/// The request method.
#[derive(Clone, Copy, Debug, PartialEq, Eq)]
pub enum Method {
    /// DELETE
    Delete,
    /// GET
    Get,
    /// HEAD
    Head,
    /// OPTIONS
    Options,
    /// PATCH
    Patch,
    /// POST
    Post,
    /// PUT
    Put,
}

/// The payload a request carries, already rendered to plain bytes.
///
/// Callers with typed payloads render them before handing them over: a
/// form or query payload as the encoded pair string, a JSON payload as
/// its serialized bytes.
#[derive(Clone, Debug, PartialEq, Eq)]
pub enum RequestData {
    /// No payload.
    Empty,
    /// A form-urlencoded body; sent with the matching content type.
    Form(Vec<u8>),
    /// A JSON body; sent with the matching content type.
    Json(Vec<u8>),
    /// A query string, appended to the request's URL.
    Query(Vec<u8>),
}

/// A fully assembled request, ready for a transport to send: the method,
/// the complete URL, the header pairs in order, and the body bytes.
#[derive(Clone, Debug, PartialEq, Eq)]
pub struct FormattedRequest {
    /// The request method.
    pub method: Method,
    /// The complete URL, query included.
    pub url: Vec<u8>,
    /// Header name-value pairs, in the order they are to be applied.
    pub headers: Vec<(Vec<u8>, Vec<u8>)>,
    /// The body bytes; empty when the request carries none.
    pub body: Vec<u8>,
}

} // verus!
