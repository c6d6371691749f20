//! Why an export call failed.

use tonic::Status;
use vstd::prelude::*;

verus! {

/// What the exporter says of a call made after `shutdown`.
pub const SHUT_DOWN_MESSAGE: &'static str = "exporter is already shut down";

/// The failure of one export call. The exporter neither retries nor hides a
/// failure: each is handed to the caller with its cause.
#[derive(Debug)]
pub enum ExportError {
    /// The call came after `shutdown`; nothing was sent, and nothing will be.
    AlreadyShutDown,
    /// The interceptor refused the call; nothing was sent.
    InterceptorError(Status),
    /// The RPC itself failed: no connection, a deadline, or a status other
    /// than success from the collector.
    TransportError(Status),
}

} // verus!
