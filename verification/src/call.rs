//! An export call between the state check and the network.

use crate::wire::frame_request;
use crate::wire::framed_request;
use crate::wire::scope_count;
use crate::wire::scope_span_names;
use crate::wire::span_count;
use crate::wire::span_name;
use crate::wire::span_name_at;
use crate::wire::to_resource_spans;
use opentelemetry_proto::tonic::collector::trace::v1::trace_service_client::TraceServiceClient;
use opentelemetry_proto::tonic::collector::trace::v1::ExportTraceServiceRequest;
use opentelemetry_proto::tonic::trace::v1::ResourceSpans;
use opentelemetry_sdk::export::trace::SpanData;
use tonic::metadata::MetadataMap;
use tonic::transport::Channel;
use tonic::Extensions;
use tonic::Request;
use vstd::prelude::*;

verus! {

/// An export call that the exporter has let through: the call's own clone of
/// the stub, and the metadata and extensions that the interceptor gave it.
/// It no longer depends on the exporter, which may be shut down meanwhile.
pub struct PreparedCall {
    pub client: TraceServiceClient<Channel>,
    pub metadata: MetadataMap,
    pub extensions: Extensions,
}

/// An export call that is ready to go out: the stub to send with, the
/// request to send, and the names of the spans in it, which the caller
/// reports before it sends.
pub struct OutboundCall {
    pub client: TraceServiceClient<Channel>,
    pub request: Request<ExportTraceServiceRequest>,
    pub span_names: Vec<String>,
}

/// The names of a batch's spans, in the order of the batch.
pub open spec fn batch_names(batch: Seq<SpanData>) -> Seq<Seq<char>> {
    batch.map_values(|span: SpanData| span_name(span))
}

/// The names of the spans in one group, scope after scope.
pub open spec fn group_names(group: ResourceSpans) -> Seq<Seq<char>> {
    scope_span_names(group).flatten()
}

/// The names of the spans in a request's groups, group after group.
pub open spec fn request_names(groups: Seq<ResourceSpans>) -> Seq<Seq<char>> {
    groups.map_values(|group: ResourceSpans| group_names(group)).flatten()
}

/// `groups` is a wire form of `batch`: one group for each span, in the
/// order of the batch, and in it one scope that holds that span alone.
pub open spec fn translates(batch: Seq<SpanData>, groups: Seq<ResourceSpans>) -> bool {
    &&& groups.len() == batch.len()
    &&& forall|i: int|
        0 <= i < batch.len() ==> scope_span_names(#[trigger] groups[i]) == seq![
            seq![span_name(batch[i])],
        ]
}

/// Turns a batch into its wire form, span by span.
pub fn translate(batch: Vec<SpanData>) -> (groups: Vec<ResourceSpans>)
    ensures
        translates(batch@, groups@),
{
    let ghost spans = batch@;
    let mut groups: Vec<ResourceSpans> = Vec::new();
    for span in it: batch
        invariant
            it.seq() == spans,
            groups@.len() == it.index(),
            forall|i: int|
                0 <= i < groups@.len() ==> scope_span_names(#[trigger] groups@[i]) == seq![
                    seq![span_name(spans[i])],
                ],
    {
        groups.push(to_resource_spans(span));
    }
    groups
}

/// The names of the spans in `group`, scope after scope.
pub fn span_names_in_group(group: &ResourceSpans) -> (names: Vec<String>)
    ensures
        names.deep_view() == group_names(*group),
{
    let ghost by_scope = scope_span_names(*group);
    let scopes = scope_count(group);
    let mut names: Vec<String> = Vec::new();
    let mut s: usize = 0;
    assert(names.deep_view() =~= by_scope.take(0).flatten());
    while s < scopes
        invariant
            s <= scopes == by_scope.len(),
            by_scope == scope_span_names(*group),
            names.deep_view() == by_scope.take(s as int).flatten(),
        decreases scopes - s,
    {
        let ghost before = names.deep_view();
        let spans = span_count(group, s);
        let mut k: usize = 0;
        assert(names.deep_view() =~= before + by_scope[s as int].take(0));
        while k < spans
            invariant
                s < scopes == by_scope.len(),
                k <= spans == by_scope[s as int].len(),
                by_scope == scope_span_names(*group),
                names.deep_view() == before + by_scope[s as int].take(k as int),
            decreases spans - k,
        {
            let ghost sofar = names.deep_view();
            names.push(span_name_at(group, s, k));
            assert(names.deep_view() =~= sofar.push(by_scope[s as int][k as int]));
            assert(by_scope[s as int].take(k + 1) =~= by_scope[s as int].take(k as int).push(
                by_scope[s as int][k as int],
            ));
            k += 1;
        }
        proof {
            assert(by_scope[s as int].take(spans as int) =~= by_scope[s as int]);
            assert(by_scope.take(s + 1) =~= by_scope.take(s as int).push(by_scope[s as int]));
            by_scope.take(s as int).lemma_flatten_push(by_scope[s as int]);
        }
        s += 1;
    }
    assert(by_scope.take(scopes as int) =~= by_scope);
    names
}

/// The names of the spans in `groups`, group after group: what the caller
/// reports before the request goes out.
pub fn span_names(groups: &Vec<ResourceSpans>) -> (names: Vec<String>)
    ensures
        names.deep_view() == request_names(groups@),
{
    let ghost by_group = groups@.map_values(|group: ResourceSpans| group_names(group));
    let mut names: Vec<String> = Vec::new();
    let mut g: usize = 0;
    assert(names.deep_view() =~= by_group.take(0).flatten());
    while g < groups.len()
        invariant
            g <= groups.len(),
            by_group == groups@.map_values(|group: ResourceSpans| group_names(group)),
            names.deep_view() == by_group.take(g as int).flatten(),
        decreases groups.len() - g,
    {
        let ghost before = names.deep_view();
        let mut found = span_names_in_group(&groups[g]);
        names.append(&mut found);
        proof {
            assert(names.deep_view() =~= before + by_group[g as int]);
            assert(by_group.take(g + 1) =~= by_group.take(g as int).push(by_group[g as int]));
            by_group.take(g as int).lemma_flatten_push(by_group[g as int]);
        }
        g += 1;
    }
    assert(by_group.take(groups.len() as int) =~= by_group);
    names
}

/// The names read out of a wire form of a batch are the names of the
/// batch's spans: each span's name once, in the order of the batch.
pub proof fn lemma_request_names_follow_batch(batch: Seq<SpanData>, groups: Seq<ResourceSpans>)
    requires
        translates(batch, groups),
    ensures
        request_names(groups) == batch_names(batch),
    decreases groups.len(),
{
    let by_group = groups.map_values(|group: ResourceSpans| group_names(group));
    if groups.len() == 0 {
        assert(by_group.flatten() =~= batch_names(batch));
    } else {
        let last = groups.len() - 1;
        lemma_request_names_follow_batch(batch.drop_last(), groups.drop_last());
        let earlier = groups.drop_last().map_values(|group: ResourceSpans| group_names(group));
        assert(by_group =~= earlier.push(group_names(groups[last])));
        earlier.lemma_flatten_push(group_names(groups[last]));
        assert(scope_span_names(groups[last]) == seq![seq![span_name(batch[last])]]);
        seq![seq![span_name(batch[last])]].lemma_flatten_one_element();
        assert(group_names(groups[last]) =~= seq![span_name(batch[last])]);
        assert(batch_names(batch) =~= batch_names(batch.drop_last()).push(span_name(batch[last])));
    }
}

impl PreparedCall {
    /// The second step of an export call: turns `batch` into the request,
    /// under the metadata and extensions of this call, and reads the span
    /// names out of it. The request holds one group for each span of the
    /// batch, in the order of the batch.
    pub fn into_outbound(self, batch: Vec<SpanData>) -> (call: OutboundCall)
        ensures
            call.client == self.client,
            call.span_names.deep_view() == batch_names(batch@),
            exists|groups: Seq<ResourceSpans>|
                translates(batch@, groups) && call.request == #[trigger] framed_request(
                    self.metadata,
                    self.extensions,
                    groups,
                ),
    {
        let groups = translate(batch);
        let span_names = span_names(&groups);
        proof {
            lemma_request_names_follow_batch(batch@, groups@);
        }
        let request = frame_request(self.metadata, self.extensions, groups);
        OutboundCall { client: self.client, request, span_names }
    }
}

} // verus!
