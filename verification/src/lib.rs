//! Building blocks for typed clients of paged REST-style APIs.
//!
//! The heart of the crate is the pagination engine in [`pagination`]: it turns
//! one paginated request description plus an abstract request executor into a
//! pull-based sequence of page results, delivered strictly in issue order,
//! detecting termination and surfacing the first failure as the final item.
//! [`queue`] holds the ordered collection of in-flight invocation handles,
//! [`runs`] states and proves the laws of whole paginated runs, and
//! [`numbered`] instantiates them for consecutively numbered pages.
//!
//! Around the engine, [`client`] assembles wire-ready requests — URL
//! joining, authentication, payload placement — and sorts raw responses
//! into successes and protocol errors, over the plain value types of
//! [`request`] and [`error`]. The transport that carries the bytes is a
//! collaborator outside this crate: it implements [`Executor`], hands
//! these functions plain values, and takes plain values back.

pub mod client;
pub mod error;
pub mod numbered;
pub mod pagination;
pub mod queue;
pub mod request;
pub mod runs;

pub use client::format_request;
pub use client::handle_response;
pub use client::Authorization;
pub use error::Error;
pub use pagination::Executor;
pub use pagination::PaginatedRequest;
pub use pagination::PaginationStream;
pub use pagination::PollNext;
pub use pagination::ServiceExt;
pub use pagination::State;
pub use request::FormattedRequest;
pub use request::Method;
pub use request::RequestData;
