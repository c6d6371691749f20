//! How an export call ends once the collector has answered, or has not.

use crate::error::ExportError;
use crate::wire::read_partial_success;
use crate::wire::reported_partial_success;
use opentelemetry_proto::tonic::collector::trace::v1::ExportTraceServiceResponse;
use tonic::Response;
use tonic::Status;
use vstd::prelude::*;

verus! {

/// The collector's note on a call that it accepted: how many spans it
/// rejected all the same, and what it has to say about that. A call with
/// such a note has still succeeded; the note is for the caller to report.
pub struct PartialSuccess {
    pub rejected_spans: i64,
    pub error_message: String,
}

impl View for PartialSuccess {
    type V = (i64, Seq<char>);

    open spec fn view(&self) -> (i64, Seq<char>) {
        (self.rejected_spans, self.error_message@)
    }
}

/// What a note says, if there is one.
pub open spec fn note_view(note: Option<PartialSuccess>) -> Option<(i64, Seq<char>)> {
    match note {
        Some(partial) => Some(partial@),
        None => None,
    }
}

/// How a call ends after `reply`, where a reply that came holds the
/// collector's note: a reply is success, with the note to report, and a
/// failure of the RPC is handed on with its cause.
pub open spec fn settled(reply: Result<Option<PartialSuccess>, Status>) -> Result<
    Option<PartialSuccess>,
    ExportError,
> {
    match reply {
        Ok(note) => Ok(note),
        Err(status) => Err(ExportError::TransportError(status)),
    }
}

/// Decides how a call ends after `reply`. Rejected spans do not make the
/// call fail, however many they are.
pub fn settle(reply: Result<Option<PartialSuccess>, Status>) -> (outcome: Result<
    Option<PartialSuccess>,
    ExportError,
>)
    ensures
        outcome == settled(reply),
{
    match reply {
        Ok(note) => Ok(note),
        Err(status) => Err(ExportError::TransportError(status)),
    }
}

/// The last step of an export call: reads the collector's note out of the
/// response, if one came, and settles the call. On `Ok` the caller reports
/// the note, present or not, and the call has succeeded.
pub fn conclude(reply: Result<Response<ExportTraceServiceResponse>, Status>) -> (outcome: Result<
    Option<PartialSuccess>,
    ExportError,
>)
    ensures
        match reply {
            Ok(response) => outcome matches Ok(note) && note_view(note)
                == reported_partial_success(response),
            Err(status) => outcome == Err::<Option<PartialSuccess>, ExportError>(
                ExportError::TransportError(status),
            ),
        },
{
    match reply {
        Ok(response) => settle(Ok(read_partial_success(response))),
        Err(status) => settle(Err(status)),
    }
}

} // verus!
