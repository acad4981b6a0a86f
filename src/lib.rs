//! A relay that forwards HTTP exchanges to one fixed upstream service and
//! serves stored files straight from disk, removing each file once it has
//! been delivered in full.
//!
//! This crate holds the decisions of both engines: which requests are
//! refused, which path a file request names, what goes upstream and what
//! comes back, and when a delivered file is due for removal. The server
//! around it performs the I/O and acts on those decisions.

pub mod error;
pub mod file_delivery;
pub mod relay;
pub mod text;

pub use error::RelayError;
pub use file_delivery::{
    check_segments, content_type_for, extension_of, resolve_file, storage_path, DeletionIntent,
    FileSession, ReadOutcome, CHUNK_SIZE,
};
pub use relay::{
    forward_request_headers, forward_response_headers, without_header, Header, InboundHead,
    OutboundRequest, UpstreamTarget,
};
pub use text::{contains_dot_dot, eq_ignore_ascii_case};
