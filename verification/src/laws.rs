//! What holds of export calls and shutdowns taken together.
//!
//! The laws speak of an exporter's state as `prepare` and `shutdown` do
//! (its stub, or `None` once it is shut down), of the interceptor's reply,
//! and of the reply of the RPC with the collector's note already read out
//! of it.

use crate::call::PreparedCall;
use crate::error::ExportError;
use crate::exporter::admission;
use crate::exporter::after_shutdown;
use crate::exporter::granted;
use crate::reply::settled;
use crate::reply::PartialSuccess;
use opentelemetry_proto::tonic::collector::trace::v1::trace_service_client::TraceServiceClient;
use tonic::transport::Channel;
use tonic::Request;
use tonic::Status;
use vstd::prelude::*;

verus! {

/// How a whole export call ends: turned away by the exporter or by the
/// interceptor before anything is sent, or else settled by the reply of the
/// RPC.
pub open spec fn export_outcome(
    stub: Option<TraceServiceClient<Channel>>,
    interceptor_reply: Result<Request<()>, Status>,
    rpc_reply: Result<Option<PartialSuccess>, Status>,
) -> Result<Option<PartialSuccess>, ExportError> {
    match admission(stub, interceptor_reply) {
        Ok(_) => settled(rpc_reply),
        Err(error) => Err(error),
    }
}

/// One step taken on an exporter: the start of an export call, with what
/// the interceptor answers if it is asked, or a shutdown.
pub enum Step {
    Export { interceptor_reply: Result<Request<()>, Status> },
    Shutdown,
}

/// The stub that an exporter is left with by one step.
pub open spec fn stub_after_step(stub: Option<TraceServiceClient<Channel>>, step: Step) -> Option<
    TraceServiceClient<Channel>,
> {
    match step {
        Step::Export { .. } => stub,
        Step::Shutdown => after_shutdown(stub),
    }
}

/// The stub that an exporter is left with by a run of steps, one after the
/// other.
pub open spec fn stub_after(stub: Option<TraceServiceClient<Channel>>, steps: Seq<Step>) -> Option<
    TraceServiceClient<Channel>,
>
    decreases steps.len(),
{
    if steps.len() == 0 {
        stub
    } else {
        stub_after_step(stub_after(stub, steps.drop_last()), steps.last())
    }
}

/// Whether one of the first `upto` steps is a shutdown.
pub open spec fn shut_down_within(steps: Seq<Step>, upto: int) -> bool {
    exists|j: int| 0 <= j < upto && j < steps.len() && #[trigger] steps[j] is Shutdown
}

/// After `shutdown`, every export call is turned away with
/// `AlreadyShutDown`, whatever the state was before the shutdown and
/// whatever the interceptor would have said: no call is prepared, so
/// nothing is built and nothing is sent.
pub proof fn lemma_no_export_after_shutdown(
    stub: Option<TraceServiceClient<Channel>>,
    interceptor_reply: Result<Request<()>, Status>,
    rpc_reply: Result<Option<PartialSuccess>, Status>,
)
    ensures
        admission(after_shutdown(stub), interceptor_reply) == Err::<PreparedCall, ExportError>(
            ExportError::AlreadyShutDown,
        ),
        export_outcome(after_shutdown(stub), interceptor_reply, rpc_reply) == Err::<
            Option<PartialSuccess>,
            ExportError,
        >(ExportError::AlreadyShutDown),
{
}

/// Shutting down twice leaves the exporter as shutting down once does.
pub proof fn lemma_shutdown_is_idempotent(stub: Option<TraceServiceClient<Channel>>)
    ensures
        after_shutdown(after_shutdown(stub)) == after_shutdown(stub),
        after_shutdown(stub) is None,
{
}

/// Where the interceptor refsteps a call, no call is prepared: nothing is
/// sent, the reply of the RPC plays no part, and on an active exporter the
/// call ends with the interceptor's own status.
pub proof fn lemma_refused_call_sends_nothing(
    stub: Option<TraceServiceClient<Channel>>,
    refusal: Status,
    rpc_reply: Result<Option<PartialSuccess>, Status>,
)
    ensures
        admission(stub, Err(refusal)) is Err,
        stub is Some ==> export_outcome(stub, Err(refusal), rpc_reply) == Err::<
            Option<PartialSuccess>,
            ExportError,
        >(ExportError::InterceptorError(refusal)),
{
}

/// A call that was sent and answered has succeeded, however many spans the
/// collector rejected, and the note that is reported is the collector's,
/// unchanged.
pub proof fn lemma_partial_success_is_success(
    client: TraceServiceClient<Channel>,
    envelope: Request<()>,
    note: Option<PartialSuccess>,
)
    ensures
        settled(Ok(note)) == Ok::<Option<PartialSuccess>, ExportError>(note),
        export_outcome(Some(client), Ok(envelope), Ok(note)) == Ok::<
            Option<PartialSuccess>,
            ExportError,
        >(note),
{
}

/// A call whose RPC failed ends with `TransportError` around the very
/// status that the RPC failed with. (The exporter is not in reach of that
/// step: `prepare` has left it as it was, and settling takes no exporter.)
pub proof fn lemma_transport_failure_keeps_cause(
    client: TraceServiceClient<Channel>,
    envelope: Request<()>,
    cause: Status,
)
    ensures
        settled(Err(cause)) == Err::<Option<PartialSuccess>, ExportError>(
            ExportError::TransportError(cause),
        ),
        export_outcome(Some(client), Ok(envelope), Err(cause)) == Err::<
            Option<PartialSuccess>,
            ExportError,
        >(ExportError::TransportError(cause)),
        stub_after_step(Some(client), Step::Export { interceptor_reply: Ok(envelope) }) == Some(
            client,
        ),
{
}

/// An export call goes one of two ways, and the state it finds decides
/// which. On a shut-down exporter it ends with `AlreadyShutDown`. On an
/// active one it takes the session's path, to the end that the two replies
/// give it, and that end is never `AlreadyShutDown`.
pub proof fn lemma_call_resolves_by_state(
    stub: Option<TraceServiceClient<Channel>>,
    interceptor_reply: Result<Request<()>, Status>,
    rpc_reply: Result<Option<PartialSuccess>, Status>,
)
    ensures
        stub is None <==> export_outcome(stub, interceptor_reply, rpc_reply) == Err::<
            Option<PartialSuccess>,
            ExportError,
        >(ExportError::AlreadyShutDown),
        stub matches Some(client) ==> admission(stub, interceptor_reply) == granted(
            client,
            interceptor_reply,
        ) && export_outcome(stub, interceptor_reply, rpc_reply) == match interceptor_reply {
            Ok(_) => settled(rpc_reply),
            Err(refusal) => Err(ExportError::InterceptorError(refusal)),
        },
{
}

/// However export calls and shutdowns follow one another, the exporter is
/// always in one of its two states: it has the stub it began with until
/// the first shutdown, and none from then on.
pub proof fn lemma_state_after_any_run(stub: Option<TraceServiceClient<Channel>>, steps: Seq<Step>)
    ensures
        stub_after(stub, steps) == if shut_down_within(steps, steps.len() as int) {
            None
        } else {
            stub
        },
    decreases steps.len(),
{
    if steps.len() > 0 {
        let earlier = steps.drop_last();
        lemma_state_after_any_run(stub, earlier);
        if shut_down_within(earlier, earlier.len() as int) {
            let j = choose|j: int| 0 <= j < earlier.len() && #[trigger] earlier[j] is Shutdown;
            assert(steps[j] is Shutdown);
        }
        if steps.last() is Shutdown {
            assert(steps[steps.len() - 1] is Shutdown);
        }
        if shut_down_within(steps, steps.len() as int) && !(steps.last() is Shutdown) {
            let j = choose|j: int| 0 <= j < steps.len() && #[trigger] steps[j] is Shutdown;
            assert(earlier[j] is Shutdown);
        }
    }
}

/// In any run of export calls and shutdowns on one exporter, each call is
/// decided by whether a shutdown came before it, and by nothing else: if
/// one did, or the exporter was shut down to begin with, the call is
/// turned away with `AlreadyShutDown`; if not, it goes the session's way
/// with the stub that the exporter began with. A shutdown that comes
/// after a call's first step has no part in that call.
pub proof fn lemma_each_call_sees_one_state(
    stub: Option<TraceServiceClient<Channel>>,
    steps: Seq<Step>,
    at: int,
)
    requires
        0 <= at < steps.len(),
        steps[at] is Export,
    ensures
        admission(stub_after(stub, steps.take(at)), steps[at]->interceptor_reply) == match stub {
            Some(client) => if shut_down_within(steps, at) {
                Err(ExportError::AlreadyShutDown)
            } else {
                granted(client, steps[at]->interceptor_reply)
            },
            None => Err(ExportError::AlreadyShutDown),
        },
{
    let earlier = steps.take(at);
    lemma_state_after_any_run(stub, earlier);
    if shut_down_within(earlier, earlier.len() as int) {
        let j = choose|j: int| 0 <= j < earlier.len() && #[trigger] earlier[j] is Shutdown;
        assert(steps[j] is Shutdown);
    }
    if shut_down_within(steps, at) {
        let j = choose|j: int| 0 <= j < at && j < steps.len() && #[trigger] steps[j] is Shutdown;
        assert(earlier[j] is Shutdown);
    }
}

} // verus!
