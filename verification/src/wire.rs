//! The gRPC and OTLP types this crate hands through, and the calls it makes
//! on them.
//!
//! Everything in this module is trusted: Verus sees the types as opaque and
//! believes the contracts of the functions without reading their bodies.
//! Each function makes one call into `tonic`, `opentelemetry_sdk` or
//! `opentelemetry-proto`; its doc comment says what is assumed of that call.

use crate::reply::note_view;
use crate::reply::PartialSuccess;
use opentelemetry_proto::tonic::collector::trace::v1::trace_service_client::TraceServiceClient;
use opentelemetry_proto::tonic::collector::trace::v1::ExportTraceServiceRequest;
use opentelemetry_proto::tonic::collector::trace::v1::ExportTraceServiceResponse;
use opentelemetry_proto::tonic::trace::v1::ResourceSpans;
use opentelemetry_sdk::export::trace::SpanData;
use tonic::codec::CompressionEncoding;
use tonic::metadata::MetadataMap;
use tonic::service::Interceptor;
use tonic::transport::Channel;
use tonic::Extensions;
use tonic::Request;
use tonic::Response;
use tonic::Status;
use vstd::prelude::*;

verus! {

/// `tonic::transport::Channel`: a connected transport handle.
#[verifier::external_type_specification]
#[verifier::external_body]
pub struct ExChannel(Channel);

/// The generated gRPC stub of the OTLP trace service.
#[verifier::external_type_specification]
#[verifier::external_body]
#[verifier::reject_recursive_types(T)]
pub struct ExTraceServiceClient<T>(TraceServiceClient<T>);

/// `tonic::codec::CompressionEncoding`: a payload compression codec.
#[verifier::external_type_specification]
#[verifier::external_body]
pub struct ExCompressionEncoding(CompressionEncoding);

/// `tonic::Request`: a message with the metadata and extensions of its call.
#[verifier::external_type_specification]
#[verifier::external_body]
#[verifier::reject_recursive_types(T)]
pub struct ExRequest<T>(Request<T>);

/// `tonic::Response`: a reply message with its metadata.
#[verifier::external_type_specification]
#[verifier::external_body]
#[verifier::reject_recursive_types(T)]
pub struct ExResponse<T>(Response<T>);

/// `tonic::Status`: why an interceptor or an RPC failed.
#[verifier::external_type_specification]
#[verifier::external_body]
pub struct ExStatus(Status);

/// `tonic::metadata::MetadataMap`: the headers of a call.
#[verifier::external_type_specification]
#[verifier::external_body]
pub struct ExMetadataMap(MetadataMap);

/// `tonic::Extensions`: typed values attached to a call.
#[verifier::external_type_specification]
#[verifier::external_body]
pub struct ExExtensions(Extensions);

/// `opentelemetry_sdk::export::trace::SpanData`: one completed span.
#[verifier::external_type_specification]
#[verifier::external_body]
pub struct ExSpanData(SpanData);

/// The OTLP message that groups spans under one resource.
#[verifier::external_type_specification]
#[verifier::external_body]
pub struct ExResourceSpans(ResourceSpans);

/// The OTLP request message of the trace service.
#[verifier::external_type_specification]
#[verifier::external_body]
pub struct ExExportTraceServiceRequest(ExportTraceServiceRequest);

/// The OTLP response message of the trace service.
#[verifier::external_type_specification]
#[verifier::external_body]
pub struct ExExportTraceServiceResponse(ExportTraceServiceResponse);

/// A boxed `tonic::service::Interceptor`: the capability that fills in the
/// metadata of an outgoing call, or refuses the call. What it does is the
/// business of whoever supplied it; this crate knows nothing of its inside.
/// The whole struct is opaque to Verus, which has no way to take a boxed
/// object of a trait from another crate as a field.
#[verifier::external_body]
pub struct BoxInterceptor {
    inner: Box<dyn Interceptor + Send + Sync>,
}

/// The stub that `TraceServiceClient::new` binds to a channel.
pub uninterp spec fn bound_stub(channel: Channel) -> TraceServiceClient<Channel>;

/// The stub that `TraceServiceClient::send_compressed` makes of another one.
pub uninterp spec fn compressed_stub(
    client: TraceServiceClient<Channel>,
    encoding: CompressionEncoding,
) -> TraceServiceClient<Channel>;

/// The stub that cloning a stub gives.
pub uninterp spec fn stub_clone(client: TraceServiceClient<Channel>) -> TraceServiceClient<Channel>;

/// The metadata and extensions that `Request::into_parts` takes out of an
/// envelope.
pub uninterp spec fn envelope_parts(envelope: Request<()>) -> (MetadataMap, Extensions);

/// The name of a span, as its `name` field holds it.
pub uninterp spec fn span_name(span: SpanData) -> Seq<char>;

/// The names of the spans in a group, scope by scope: entry `i` lists, in
/// order, the `name` of each span in `scope_spans[i].spans`.
pub uninterp spec fn scope_span_names(group: ResourceSpans) -> Seq<Seq<Seq<char>>>;

/// The request that `Request::from_parts` makes of a call's metadata and
/// extensions and of a message that holds `groups`.
pub uninterp spec fn framed_request(
    metadata: MetadataMap,
    extensions: Extensions,
    groups: Seq<ResourceSpans>,
) -> Request<ExportTraceServiceRequest>;

/// The `partial_success` field of a response's message: the count of
/// rejected spans and the message, where the field is set.
pub uninterp spec fn reported_partial_success(
    response: Response<ExportTraceServiceResponse>,
) -> Option<(i64, Seq<char>)>;

impl BoxInterceptor {
    /// Boxes a function as an interceptor (`tonic` takes any such function
    /// for one). Nothing is claimed of the result.
    #[verifier::external_body]
    pub fn new<F>(interceptor: F) -> (boxed: BoxInterceptor) where
        F: FnMut(Request<()>) -> Result<Request<()>, Status> + Send + Sync + 'static,
     {
        BoxInterceptor { inner: Box::new(interceptor) }
    }
}

/// `ResourceSpans::from(SpanData)`: the wire form of one span. Of the
/// result only this is claimed: it holds one scope, and that scope holds
/// one span, under the name of `span`. (Its other fields are not fixed by
/// `span` alone: the resource's attributes come in whatever order its hash
/// map hands them out.)
#[verifier::external_body]
pub(crate) fn to_resource_spans(span: SpanData) -> (group: ResourceSpans)
    ensures
        scope_span_names(group) == seq![seq![span_name(span)]],
{
    ResourceSpans::from(span)
}

/// The length of a group's `scope_spans`.
#[verifier::external_body]
pub(crate) fn scope_count(group: &ResourceSpans) -> (count: usize)
    ensures
        count == scope_span_names(*group).len(),
{
    group.scope_spans.len()
}

/// The length of `scope_spans[scope].spans` in a group.
#[verifier::external_body]
pub(crate) fn span_count(group: &ResourceSpans, scope: usize) -> (count: usize)
    requires
        scope < scope_span_names(*group).len(),
    ensures
        count == scope_span_names(*group)[scope as int].len(),
{
    group.scope_spans[scope].spans.len()
}

/// A copy of the `name` of `scope_spans[scope].spans[span]` in a group.
#[verifier::external_body]
pub(crate) fn span_name_at(group: &ResourceSpans, scope: usize, span: usize) -> (name: String)
    requires
        scope < scope_span_names(*group).len(),
        span < scope_span_names(*group)[scope as int].len(),
    ensures
        name@ == scope_span_names(*group)[scope as int][span as int],
{
    group.scope_spans[scope].spans[span].name.clone()
}

/// `Request::from_parts` on a message that holds `groups` as its
/// `resource_spans`. The request is assumed to depend on the three
/// arguments alone.
#[verifier::external_body]
pub(crate) fn frame_request(
    metadata: MetadataMap,
    extensions: Extensions,
    groups: Vec<ResourceSpans>,
) -> (request: Request<ExportTraceServiceRequest>)
    ensures
        request == framed_request(metadata, extensions, groups@),
{
    Request::from_parts(metadata, extensions, ExportTraceServiceRequest { resource_spans: groups })
}

/// `Interceptor::call` on a fresh, empty envelope (`Request::new(())`).
/// Nothing is claimed of the reply: the interceptor may fill the envelope
/// in or refuse it, and may change its own state while doing so.
#[verifier::external_body]
pub(crate) fn call_interceptor(interceptor: &mut BoxInterceptor) -> (reply: Result<
    Request<()>,
    Status,
>) {
    interceptor.inner.call(Request::new(()))
}

/// `Request::into_parts` on an envelope: hands out its metadata and its
/// extensions, and drops the empty message. The two are assumed to depend
/// on the envelope alone.
#[verifier::external_body]
pub(crate) fn envelope_into_parts(envelope: Request<()>) -> (parts: (MetadataMap, Extensions))
    ensures
        parts == envelope_parts(envelope),
{
    let (metadata, extensions, _) = envelope.into_parts();
    (metadata, extensions)
}

/// `TraceServiceClient::new`: binds a fresh stub to `channel`. The stub is
/// assumed to depend on the channel alone.
#[verifier::external_body]
pub(crate) fn bind_stub(channel: Channel) -> (client: TraceServiceClient<Channel>)
    ensures
        client == bound_stub(channel),
{
    TraceServiceClient::new(channel)
}

/// `TraceServiceClient::send_compressed`: the same stub, set to compress its
/// outgoing requests with `encoding`. The result is assumed to depend on the
/// two arguments alone.
#[verifier::external_body]
pub(crate) fn compress_requests(
    client: TraceServiceClient<Channel>,
    encoding: CompressionEncoding,
) -> (compressed: TraceServiceClient<Channel>)
    ensures
        compressed == compressed_stub(client, encoding),
{
    client.send_compressed(encoding)
}

/// `Clone::clone` of a stub: a second handle on the same transport with
/// the same settings. The clone is assumed to depend on the stub alone.
#[verifier::external_body]
pub(crate) fn clone_stub(client: &TraceServiceClient<Channel>) -> (copy: TraceServiceClient<Channel>)
    ensures
        copy == stub_clone(*client),
{
    client.clone()
}

/// `Response::into_inner`, and the `partial_success` field of the message
/// that comes out, moved into this crate's own type field by field.
#[verifier::external_body]
pub(crate) fn read_partial_success(response: Response<ExportTraceServiceResponse>) -> (note: Option<
    PartialSuccess,
>)
    ensures
        note_view(note) == reported_partial_success(response),
{
    response.into_inner().partial_success.map(
        |partial| PartialSuccess {
            rejected_spans: partial.rejected_spans,
            error_message: partial.error_message,
        },
    )
}

} // verus!
