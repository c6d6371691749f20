//! The exporter and its one-way state.

use crate::call::PreparedCall;
use crate::error::ExportError;
use crate::wire::bind_stub;
use crate::wire::bound_stub;
use crate::wire::call_interceptor;
use crate::wire::clone_stub;
use crate::wire::compress_requests;
use crate::wire::compressed_stub;
use crate::wire::envelope_into_parts;
use crate::wire::envelope_parts;
use crate::wire::stub_clone;
use crate::wire::BoxInterceptor;
use opentelemetry_proto::tonic::collector::trace::v1::trace_service_client::TraceServiceClient;
use tonic::codec::CompressionEncoding;
use tonic::transport::Channel;
use tonic::Request;
use tonic::Status;
use vstd::prelude::*;

verus! {

/// What an active exporter owns: the stub, bound to its transport, and the
/// interceptor. Each export call works on a clone of the stub; the clones
/// share the one transport.
pub struct Session {
    pub client: TraceServiceClient<Channel>,
    pub interceptor: BoxInterceptor,
}

/// The exporter. It is active, and owns a session, from `new` until
/// `shutdown`; after that it is shut down for good.
pub struct TonicTracesClient {
    inner: Option<Session>,
}

/// The stub of a new exporter: bound to `channel`, and compressing what it
/// sends if a codec was chosen.
pub open spec fn configured_stub(
    channel: Channel,
    compression: Option<CompressionEncoding>,
) -> TraceServiceClient<Channel> {
    match compression {
        Some(encoding) => compressed_stub(bound_stub(channel), encoding),
        None => bound_stub(channel),
    }
}

/// The stub that `shutdown` leaves an exporter with: none, whatever it had.
pub open spec fn after_shutdown(stub: Option<TraceServiceClient<Channel>>) -> Option<
    TraceServiceClient<Channel>,
> {
    None
}

/// What becomes of an export call on a session with stub `client`, once the
/// interceptor has given `reply`: the call goes on with a clone of the stub
/// and the envelope's metadata and extensions, or ends with the
/// interceptor's refusal.
pub open spec fn granted(client: TraceServiceClient<Channel>, reply: Result<Request<()>, Status>)
    -> Result<PreparedCall, ExportError> {
    match reply {
        Ok(envelope) => Ok(
            PreparedCall {
                client: stub_clone(client),
                metadata: envelope_parts(envelope).0,
                extensions: envelope_parts(envelope).1,
            },
        ),
        Err(status) => Err(ExportError::InterceptorError(status)),
    }
}

/// What becomes of an export call that finds the exporter with `stub`,
/// where `reply` is what the interceptor answers if it is asked. An exporter
/// without a stub is shut down, and turns the call away whatever `reply` is.
pub open spec fn admission(
    stub: Option<TraceServiceClient<Channel>>,
    reply: Result<Request<()>, Status>,
) -> Result<PreparedCall, ExportError> {
    match stub {
        Some(client) => granted(client, reply),
        None => Err(ExportError::AlreadyShutDown),
    }
}

/// Decides how an export call on a session with stub `client` goes on after
/// the interceptor's `reply`.
pub fn grant(client: &TraceServiceClient<Channel>, reply: Result<Request<()>, Status>) -> (outcome:
    Result<PreparedCall, ExportError>)
    ensures
        outcome == granted(*client, reply),
{
    match reply {
        Ok(envelope) => {
            let (metadata, extensions) = envelope_into_parts(envelope);
            Ok(PreparedCall { client: clone_stub(client), metadata, extensions })
        },
        Err(status) => Err(ExportError::InterceptorError(status)),
    }
}

impl TonicTracesClient {
    /// The exporter's state: its session while it is active, `None` once it
    /// is shut down.
    pub closed spec fn session(&self) -> Option<Session> {
        self.inner
    }

    /// The stub of the exporter's session, which is all of its state that
    /// an export call depends on: `None` once it is shut down.
    pub open spec fn stub(&self) -> Option<TraceServiceClient<Channel>> {
        match self.session() {
            Some(session) => Some(session.client),
            None => None,
        }
    }

    /// Whether the exporter has been shut down.
    pub open spec fn spec_is_shut_down(&self) -> bool {
        self.session() is None
    }

    /// An active exporter on `channel`. Its stub compresses outgoing
    /// requests with `compression` if one is given.
    pub fn new(
        channel: Channel,
        interceptor: BoxInterceptor,
        compression: Option<CompressionEncoding>,
    ) -> (exporter: Self)
        ensures
            exporter.session() == Some(
                Session { client: configured_stub(channel, compression), interceptor },
            ),
    {
        let mut client = bind_stub(channel);
        if let Some(encoding) = compression {
            client = compress_requests(client, encoding);
        }
        TonicTracesClient { inner: Some(Session { client, interceptor }) }
    }

    /// The name under which the exporter shows in debug output. Its session
    /// is not shown.
    pub fn name(&self) -> (name: &'static str)
        ensures
            name@ == "TonicTracesClient"@,
    {
        "TonicTracesClient"
    }

    /// Whether the exporter has been shut down.
    #[verifier::when_used_as_spec(spec_is_shut_down)]
    pub fn is_shut_down(&self) -> (shut_down: bool)
        ensures
            shut_down == self.spec_is_shut_down(),
    {
        self.inner.is_none()
    }

    /// The first step of an export call. A shut-down exporter turns the call
    /// away at once. An active one asks the interceptor for the call's
    /// metadata, on a fresh envelope, and lets the call through with a clone
    /// of the stub unless the interceptor refuses. Either way the exporter
    /// stays in the state it was in, with the stub it had.
    pub fn prepare(&mut self) -> (outcome: Result<PreparedCall, ExportError>)
        ensures
            exists|reply: Result<Request<()>, Status>|
                outcome == #[trigger] admission(old(self).stub(), reply),
            old(self).is_shut_down() <==> outcome matches Err(ExportError::AlreadyShutDown),
            final(self).stub() == old(self).stub(),
            old(self).is_shut_down() ==> *final(self) == *old(self),
    {
        match &mut self.inner {
            Some(session) => {
                let reply = call_interceptor(&mut session.interceptor);
                let outcome = grant(&session.client, reply);
                proof {
                    assert(outcome == admission(old(self).stub(), reply));
                }
                outcome
            },
            None => {
                proof {
                    let reply: Result<Request<()>, Status> = arbitrary();
                    assert(admission(old(self).stub(), reply) == Err::<
                        PreparedCall,
                        ExportError,
                    >(ExportError::AlreadyShutDown));
                }
                Err(ExportError::AlreadyShutDown)
            },
        }
    }

    /// Shuts the exporter down and lets go of its session. On an exporter
    /// that is already shut down this does nothing. Calls that `prepare` has
    /// let through are not touched: they own what they need.
    pub fn shutdown(&mut self)
        ensures
            final(self).session() is None,
            final(self).stub() == after_shutdown(old(self).stub()),
    {
        let _ = self.inner.take();
    }
}

} // verus!
