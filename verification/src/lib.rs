//! The span exporter of an OTLP pipeline, over gRPC.
//!
//! An exporter owns a session (a gRPC stub and an interceptor) until it
//! is shut down. One export call runs in three steps:
//!
//! 1. [`exporter::TonicTracesClient::prepare`] looks at the exporter's state,
//!    asks the interceptor for the call's metadata and takes a clone of the
//!    stub;
//! 2. [`call::PreparedCall::into_outbound`] turns the batch into the request
//!    and lists the span names for the caller to report;
//! 3. the caller sends the request and hands the reply to
//!    [`reply::conclude`], which says how the call ended.
//!
//! Sending is left to the caller: it is the one step that waits on the
//! network.

pub mod call;
pub mod error;
pub mod exporter;
pub mod laws;
pub mod reply;
pub mod wire;
