//! The runtime adapter between a model client and diagnostic collection:
//! attempt numbering, request categories, and the mapping of transport
//! observations and provider usage onto diagnostic records.

use vstd::prelude::*;
use vstd::string::StringSliceAdditionalSpecFns;
use crate::attempt::{Attempt, Collector, Record};
use crate::logical::LogicalRequest;
use crate::observer::{
    Compression, HttpRequestObservation, ResponsesEndpoint, SafeTransportIdentity,
    WebsocketRequestObservation,
};
use crate::types::{
    AttemptContext, CompletedOutcome, CompressionKind, ContinuationReport, EndpointKind, RequestKind,
    TerminalOutcome, TokenUsage, ToolProvenance, TransportIdentity, TransportMetadata,
    TransportRequest,
};

verus! {

/// Numbers the send attempts of one logical request: 0, 1, 2, ... and then
/// `u32::MAX` for every attempt beyond it.
pub struct CacheDiagnosticAttemptSequencer {
    next_ordinal: u32,
}

impl CacheDiagnosticAttemptSequencer {
    pub closed spec fn peek(&self) -> u32 {
        self.next_ordinal
    }

    pub fn new() -> (sequencer: Self)
        ensures
            sequencer.peek() == 0,
    {
        CacheDiagnosticAttemptSequencer { next_ordinal: 0 }
    }

    /// The next ordinal; the counter saturates instead of wrapping.
    pub fn next(&mut self) -> (ordinal: u32)
        ensures
            ordinal == old(self).peek(),
            final(self).peek() == if old(self).peek() == u32::MAX {
                u32::MAX
            } else {
                (old(self).peek() + 1) as u32
            },
    {
        let ordinal = self.next_ordinal;
        self.next_ordinal = self.next_ordinal.saturating_add(1);
        ordinal
    }
}

/// Why the client sent a Responses request.
#[derive(Clone, Copy, Debug, PartialEq, Eq, Structural)]
pub enum ResponsesRequestKind {
    Turn,
    Prewarm,
    Compaction,
    Memory,
}

/// The client's own identifiers of a Responses request.
pub struct ResponsesMetadata {
    pub thread_id: String,
    pub session_id: String,
    pub turn_id: Option<String>,
    pub parent_thread_id: Option<String>,
    pub request_kind: Option<ResponsesRequestKind>,
}

/// The diagnostic category of a request: a prewarm is a warmup, and a request
/// of no stated kind is a turn.
pub open spec fn request_kind_spec(kind: Option<ResponsesRequestKind>) -> RequestKind {
    match kind {
        Option::Some(ResponsesRequestKind::Prewarm) => RequestKind::Warmup,
        Option::Some(ResponsesRequestKind::Compaction) => RequestKind::Compaction,
        Option::Some(ResponsesRequestKind::Memory) => RequestKind::Memory,
        Option::Some(ResponsesRequestKind::Turn) | Option::None => RequestKind::Turn,
    }
}

pub fn request_kind(kind: Option<ResponsesRequestKind>) -> (category: RequestKind)
    ensures
        category == request_kind_spec(kind),
        category == match kind {
            Option::Some(ResponsesRequestKind::Prewarm) => RequestKind::Warmup,
            Option::Some(ResponsesRequestKind::Compaction) => RequestKind::Compaction,
            Option::Some(ResponsesRequestKind::Memory) => RequestKind::Memory,
            Option::Some(ResponsesRequestKind::Turn) | Option::None => RequestKind::Turn,
        },
{
    match kind {
        Option::Some(ResponsesRequestKind::Prewarm) => RequestKind::Warmup,
        Option::Some(ResponsesRequestKind::Compaction) => RequestKind::Compaction,
        Option::Some(ResponsesRequestKind::Memory) => RequestKind::Memory,
        Option::Some(ResponsesRequestKind::Turn) | Option::None => RequestKind::Turn,
    }
}

/// The diagnostic category of a Responses route.
pub fn endpoint_kind(endpoint: ResponsesEndpoint) -> (kind: EndpointKind)
    ensures
        kind == match endpoint {
            ResponsesEndpoint::Responses => EndpointKind::Responses,
            ResponsesEndpoint::Guardian => EndpointKind::Guardian,
            ResponsesEndpoint::GuardianClassifier => EndpointKind::GuardianClassifier,
        },
{
    match endpoint {
        ResponsesEndpoint::Responses => EndpointKind::Responses,
        ResponsesEndpoint::Guardian => EndpointKind::Guardian,
        ResponsesEndpoint::GuardianClassifier => EndpointKind::GuardianClassifier,
    }
}

/// The diagnostic category of a body compression.
pub fn compression_kind(compression: Compression) -> (kind: CompressionKind)
    ensures
        compression == Compression::Uncompressed ==> kind == CompressionKind::Uncompressed,
        compression == Compression::Zstd ==> kind == CompressionKind::Zstd,
{
    match compression {
        Compression::Uncompressed => CompressionKind::Uncompressed,
        Compression::Zstd => CompressionKind::Zstd,
    }
}

/// The observed identity fields, field for field.
pub fn transport_identity(identity: SafeTransportIdentity<'_>) -> (projected: TransportIdentity<'_>)
    ensures
        projected.session_id == identity.session_id,
        projected.thread_id == identity.thread_id,
        projected.client_request_id == identity.client_request_id,
        projected.subagent == identity.subagent,
        projected.routing_hint == identity.routing_hint,
        projected.responses_lite == identity.responses_lite,
        projected.previous_response_id == identity.previous_response_id,
        projected.originator == identity.originator,
        projected.user_agent == identity.user_agent,
{
    TransportIdentity {
        session_id: identity.session_id,
        thread_id: identity.thread_id,
        client_request_id: identity.client_request_id,
        subagent: identity.subagent,
        routing_hint: identity.routing_hint,
        responses_lite: identity.responses_lite,
        previous_response_id: identity.previous_response_id,
        originator: identity.originator,
        user_agent: identity.user_agent,
    }
}

/// Provider-reported token usage of a response.
#[derive(Clone, Copy, Debug, PartialEq, Eq, Structural)]
pub struct ProtocolTokenUsage {
    pub input_tokens: i64,
    pub cached_input_tokens: i64,
    pub cache_write_input_tokens: i64,
    pub output_tokens: i64,
    pub reasoning_output_tokens: i64,
    pub total_tokens: i64,
}

/// The persisted usage of a provider report, field for field.
pub fn token_usage(usage: &ProtocolTokenUsage) -> (persisted: TokenUsage)
    ensures
        persisted == (TokenUsage {
            input: usage.input_tokens,
            cached_input: usage.cached_input_tokens,
            cache_write: usage.cache_write_input_tokens,
            output: usage.output_tokens,
            reasoning: usage.reasoning_output_tokens,
            total: usage.total_tokens,
        }),
{
    TokenUsage {
        input: usage.input_tokens,
        cached_input: usage.cached_input_tokens,
        cache_write: usage.cache_write_input_tokens,
        output: usage.output_tokens,
        reasoning: usage.reasoning_output_tokens,
        total: usage.total_tokens,
    }
}

fn option_str(value: &Option<String>) -> (borrowed: Option<&str>)
    ensures
        borrowed is None <==> value is None,
        borrowed is Some ==> borrowed.unwrap()@ == value.unwrap()@,
{
    match value {
        Option::None => Option::None,
        Option::Some(v) => Option::Some(v.as_str()),
    }
}

/// `context` is the attempt context of a Responses request with these identifiers.
pub open spec fn is_responses_context(
    context: AttemptContext,
    metadata: ResponsesMetadata,
    prompt_cache_key: Option<&str>,
    retry_ordinal: u32,
    previous_response_id: Option<&str>,
    request_kind: RequestKind,
) -> bool {
    &&& context.request_kind == request_kind
    &&& context.retry_ordinal == retry_ordinal
    &&& context.thread_id is Some && context.thread_id.unwrap()@ == metadata.thread_id@
    &&& context.session_id is Some && context.session_id.unwrap()@ == metadata.session_id@
    &&& (context.turn_id is None <==> metadata.turn_id is None)
    &&& (context.turn_id is Some ==> context.turn_id.unwrap()@ == metadata.turn_id.unwrap()@)
    &&& (context.parent_id is None <==> metadata.parent_thread_id is None)
    &&& (context.parent_id is Some ==> context.parent_id.unwrap()@
        == metadata.parent_thread_id.unwrap()@)
    &&& context.affinity_id == prompt_cache_key
    &&& context.previous_response_id == previous_response_id
}

/// The attempt context of a Responses request: the thread and session always,
/// the turn and parent thread when known, the prompt cache key as the cache
/// affinity, and the previous response the request continues.
pub fn responses_context<'a>(
    metadata: &'a ResponsesMetadata,
    prompt_cache_key: Option<&'a str>,
    retry_ordinal: u32,
    previous_response_id: Option<&'a str>,
    request_kind: RequestKind,
) -> (context: AttemptContext<'a>)
    ensures
        is_responses_context(
            context,
            *metadata,
            prompt_cache_key,
            retry_ordinal,
            previous_response_id,
            request_kind,
        ),
{
    AttemptContext {
        request_kind,
        retry_ordinal,
        thread_id: Option::Some(metadata.thread_id.as_str()),
        session_id: Option::Some(metadata.session_id.as_str()),
        turn_id: option_str(&metadata.turn_id),
        parent_id: option_str(&metadata.parent_thread_id),
        affinity_id: prompt_cache_key,
        previous_response_id,
    }
}

/// Diagnostic collection for one session.
pub struct CacheDiagnostics {
    pub collector: Collector,
}

impl CacheDiagnostics {
    /// Starts an attempt in the category of the request's own kind.
    pub fn start_responses_attempt(
        &self,
        metadata: &ResponsesMetadata,
        request: Option<&LogicalRequest>,
        prompt_cache_key: Option<&str>,
        retry_ordinal: u32,
        previous_response_id: Option<&str>,
    ) -> (attempt: CacheDiagnosticAttempt)
        ensures
            attempt.attempt.wf(),
            attempt.attempt.belongs_to(self.collector),
            attempt.attempt.pending_request() matches Option::Some(r) ==> exists|context: AttemptContext|
                is_responses_context(
                    context,
                    *metadata,
                    prompt_cache_key,
                    retry_ordinal,
                    previous_response_id,
                    request_kind_spec(metadata.request_kind),
                ) && #[trigger] r.request_fresh(self.collector, context, *request.unwrap()),
            attempt.attempt.log() == Seq::<crate::attempt::RecordEvent>::empty(),
            !attempt.attempt.outcome_written(),
            request is None ==> attempt.attempt.pending_request() is None,
    {
        self.start_responses_attempt_with_kind(
            metadata,
            request,
            prompt_cache_key,
            retry_ordinal,
            previous_response_id,
            request_kind(metadata.request_kind),
        )
    }

    /// Starts a warmup attempt, whatever the request's own kind.
    pub fn start_warmup_attempt(
        &self,
        metadata: &ResponsesMetadata,
        request: Option<&LogicalRequest>,
        prompt_cache_key: Option<&str>,
        retry_ordinal: u32,
        previous_response_id: Option<&str>,
    ) -> (attempt: CacheDiagnosticAttempt)
        ensures
            attempt.attempt.wf(),
            attempt.attempt.belongs_to(self.collector),
            attempt.attempt.pending_request() matches Option::Some(r) ==> exists|context: AttemptContext|
                is_responses_context(
                    context,
                    *metadata,
                    prompt_cache_key,
                    retry_ordinal,
                    previous_response_id,
                    RequestKind::Warmup,
                ) && #[trigger] r.request_fresh(self.collector, context, *request.unwrap()),
            attempt.attempt.log() == Seq::<crate::attempt::RecordEvent>::empty(),
            !attempt.attempt.outcome_written(),
            request is None ==> attempt.attempt.pending_request() is None,
    {
        self.start_responses_attempt_with_kind(
            metadata,
            request,
            prompt_cache_key,
            retry_ordinal,
            previous_response_id,
            RequestKind::Warmup,
        )
    }

    fn start_responses_attempt_with_kind(
        &self,
        metadata: &ResponsesMetadata,
        request: Option<&LogicalRequest>,
        prompt_cache_key: Option<&str>,
        retry_ordinal: u32,
        previous_response_id: Option<&str>,
        request_kind: RequestKind,
    ) -> (attempt: CacheDiagnosticAttempt)
        ensures
            attempt.attempt.wf(),
            attempt.attempt.belongs_to(self.collector),
            attempt.attempt.pending_request() matches Option::Some(r) ==> exists|context: AttemptContext|
                is_responses_context(
                    context,
                    *metadata,
                    prompt_cache_key,
                    retry_ordinal,
                    previous_response_id,
                    request_kind,
                ) && #[trigger] r.request_fresh(self.collector, context, *request.unwrap()),
            attempt.attempt.log() == Seq::<crate::attempt::RecordEvent>::empty(),
            !attempt.attempt.outcome_written(),
            request is None ==> attempt.attempt.pending_request() is None,
    {
        let context = responses_context(
            metadata,
            prompt_cache_key,
            retry_ordinal,
            previous_response_id,
            request_kind,
        );
        let attempt = self.collector.start_attempt(context, request);
        CacheDiagnosticAttempt { attempt }
    }
}

/// A diagnostic attempt as the model client drives it.
pub struct CacheDiagnosticAttempt {
    pub attempt: Attempt,
}

impl CacheDiagnosticAttempt {
    /// Records a completed response; a report without usage is recorded as such.
    pub fn completed(
        &mut self,
        collector: &Collector,
        response_id: &str,
        usage: Option<&ProtocolTokenUsage>,
    ) -> (records: Vec<Record>)
        requires
            old(self).attempt.wf(),
            old(self).attempt.belongs_to(*collector),
        ensures
            final(self).attempt.wf(),
            final(self).attempt.belongs_to(*collector),
            final(self).attempt.log() == old(self).attempt.log() + crate::attempt::events_of(
                records@,
            ),
            crate::attempt::outcome_emitted(
                old(self).attempt,
                final(self).attempt,
                *collector,
                records@,
                crate::attempt::TerminalStatus::Completed,
                Option::Some(response_id.spec_bytes()),
                match usage {
                    Option::None => Option::None,
                    Option::Some(u) => Option::Some(token_usage_spec(*u)),
                },
            ),
    {
        match usage {
            Option::None => self.attempt.completed_without_usage(collector, Option::Some(response_id)),
            Option::Some(usage) => self.attempt.completed(
                collector,
                CompletedOutcome { response_id: Option::Some(response_id), usage: token_usage(usage) },
            ),
        }
    }

    /// Attaches the continuation decision to the pending request record.
    pub fn record_continuation(&mut self, report: ContinuationReport)
        requires
            old(self).attempt.wf(),
        ensures
            final(self).attempt.wf(),
            forall|c: Collector| #[trigger] old(self).attempt.belongs_to(c) ==> final(self).attempt.belongs_to(c),
            final(self).attempt.log() == old(self).attempt.log(),
            final(self).attempt.belongs_to_same(old(self).attempt),
            final(self).attempt.attempt_id_view() == old(self).attempt.attempt_id_view(),
            final(self).attempt.outcome_written() == old(self).attempt.outcome_written(),
            match old(self).attempt.pending_request() {
                Option::None => final(self).attempt.pending_request() is None,
                Option::Some(r) => final(self).attempt.pending_request() == Option::Some(
                    crate::attempt::RequestRecord { continuation: Option::Some(report), ..r },
                ),
            },
    {
        self.attempt.record_continuation(report)
    }

    /// Attaches tool-construction provenance to the pending request record.
    pub fn record_tool_provenance(&mut self, collector: &Collector, provenance: ToolProvenance<'_>)
        requires
            old(self).attempt.wf(),
            old(self).attempt.belongs_to(*collector),
        ensures
            final(self).attempt.wf(),
            final(self).attempt.belongs_to(*collector),
            final(self).attempt.log() == old(self).attempt.log(),
            final(self).attempt.belongs_to_same(old(self).attempt),
            final(self).attempt.attempt_id_view() == old(self).attempt.attempt_id_view(),
            final(self).attempt.outcome_written() == old(self).attempt.outcome_written(),
            match old(self).attempt.pending_request() {
                Option::None => final(self).attempt.pending_request() is None,
                Option::Some(r) => {
                    &&& final(self).attempt.pending_request() matches Option::Some(n)
                    &&& n == (crate::attempt::RequestRecord { tool_provenance: n.tool_provenance, ..r })
                    &&& n.tool_provenance matches Option::Some(p)
                    &&& p.role_file_read_failures == provenance.role_file_read_failures
                    &&& p.model_catalog.preset_count == provenance.model_preset_count
                    &&& p.model_catalog.lock_contention_fallback
                        == provenance.model_catalog_lock_contention_fallback
                    &&& crate::manifest::optional_describes(
                        p.model_catalog.identity,
                        collector.key(),
                        "toolProvenance.modelCatalog".spec_bytes(),
                        crate::manifest::slice_bytes(provenance.model_catalog_identity),
                    )
                },
            },
    {
        self.attempt.record_tool_provenance(collector, provenance)
    }

    /// Records a failed attempt.
    pub fn failed(&mut self, collector: &Collector) -> (records: Vec<Record>)
        requires
            old(self).attempt.wf(),
            old(self).attempt.belongs_to(*collector),
        ensures
            final(self).attempt.wf(),
            final(self).attempt.belongs_to(*collector),
            final(self).attempt.log() == old(self).attempt.log() + crate::attempt::events_of(
                records@,
            ),
            crate::attempt::outcome_emitted(
                old(self).attempt,
                final(self).attempt,
                *collector,
                records@,
                crate::attempt::TerminalStatus::Failed,
                Option::None,
                Option::None,
            ),
    {
        self.attempt.terminal(collector, TerminalOutcome::Failed)
    }

    /// Records an attempt abandoned before it ended (its handle went away).
    pub fn cancelled(&mut self, collector: &Collector) -> (records: Vec<Record>)
        requires
            old(self).attempt.wf(),
            old(self).attempt.belongs_to(*collector),
        ensures
            final(self).attempt.wf(),
            final(self).attempt.belongs_to(*collector),
            final(self).attempt.log() == old(self).attempt.log() + crate::attempt::events_of(
                records@,
            ),
            crate::attempt::outcome_emitted(
                old(self).attempt,
                final(self).attempt,
                *collector,
                records@,
                crate::attempt::TerminalStatus::Cancelled,
                Option::None,
                Option::None,
            ),
    {
        self.attempt.terminal(collector, TerminalOutcome::Cancelled)
    }

    /// The prepared bytes of an HTTP send with its route, compression and identity.
    pub fn observe_http(&mut self, collector: &Collector, observation: HttpRequestObservation<'_>) -> (records:
        Vec<Record>)
        requires
            old(self).attempt.wf(),
            old(self).attempt.belongs_to(*collector),
        ensures
            final(self).attempt.wf(),
            final(self).attempt.belongs_to(*collector),
            final(self).attempt.log() == old(self).attempt.log() + crate::attempt::events_of(
                records@,
            ),
            final(self).attempt.pending_request() is None,
            match old(self).attempt.pending_request() {
                Option::None => records@.len() == 0,
                Option::Some(r) => {
                    &&& records@.len() == 1
                    &&& records@[0] matches Record::Request(n)
                    &&& n == (crate::attempt::RequestRecord { wire: n.wire, ..r })
                    &&& n.wire.transport_observed(
                        collector.key(),
                        TransportRequest {
                            body: observation.prepared_body,
                            transport: TransportMetadata::Http {
                                endpoint: endpoint_kind_spec(observation.endpoint),
                                compression: if observation.compression == Compression::Zstd {
                                    CompressionKind::Zstd
                                } else {
                                    CompressionKind::Uncompressed
                                },
                                identity: identity_spec(observation.identity),
                            },
                        },
                    )
                },
            },
    {
        let request = TransportRequest {
            body: observation.prepared_body,
            transport: TransportMetadata::Http {
                endpoint: endpoint_kind(observation.endpoint),
                compression: compression_kind(observation.compression),
                identity: transport_identity(observation.identity),
            },
        };
        self.attempt.observe_transport_request(collector, request)
    }

    /// The exact frame of a WebSocket send with its route, reuse and identity.
    pub fn observe_websocket(&mut self, collector: &Collector, observation: WebsocketRequestObservation<'_>) -> (records:
        Vec<Record>)
        requires
            old(self).attempt.wf(),
            old(self).attempt.belongs_to(*collector),
        ensures
            final(self).attempt.wf(),
            final(self).attempt.belongs_to(*collector),
            final(self).attempt.log() == old(self).attempt.log() + crate::attempt::events_of(
                records@,
            ),
            final(self).attempt.pending_request() is None,
            match old(self).attempt.pending_request() {
                Option::None => records@.len() == 0,
                Option::Some(r) => {
                    &&& records@.len() == 1
                    &&& records@[0] matches Record::Request(n)
                    &&& n == (crate::attempt::RequestRecord { wire: n.wire, ..r })
                    &&& n.wire.transport_observed(
                        collector.key(),
                        TransportRequest {
                            body: observation.wire_json,
                            transport: TransportMetadata::Websocket {
                                endpoint: endpoint_kind_spec(observation.endpoint),
                                connection_reused: observation.connection_reused,
                                incremental: observation.incremental,
                                identity: identity_spec(observation.identity),
                            },
                        },
                    )
                },
            },
    {
        let request = TransportRequest {
            body: observation.wire_json,
            transport: TransportMetadata::Websocket {
                endpoint: endpoint_kind(observation.endpoint),
                connection_reused: observation.connection_reused,
                incremental: observation.incremental,
                identity: transport_identity(observation.identity),
            },
        };
        self.attempt.observe_transport_request(collector, request)
    }
}

pub open spec fn token_usage_spec(usage: ProtocolTokenUsage) -> TokenUsage {
    TokenUsage {
        input: usage.input_tokens,
        cached_input: usage.cached_input_tokens,
        cache_write: usage.cache_write_input_tokens,
        output: usage.output_tokens,
        reasoning: usage.reasoning_output_tokens,
        total: usage.total_tokens,
    }
}

pub open spec fn endpoint_kind_spec(endpoint: ResponsesEndpoint) -> EndpointKind {
    match endpoint {
        ResponsesEndpoint::Responses => EndpointKind::Responses,
        ResponsesEndpoint::Guardian => EndpointKind::Guardian,
        ResponsesEndpoint::GuardianClassifier => EndpointKind::GuardianClassifier,
    }
}

pub open spec fn identity_spec<'a>(identity: SafeTransportIdentity<'a>) -> TransportIdentity<'a> {
    TransportIdentity {
        session_id: identity.session_id,
        thread_id: identity.thread_id,
        client_request_id: identity.client_request_id,
        subagent: identity.subagent,
        routing_hint: identity.routing_hint,
        responses_lite: identity.responses_lite,
        previous_response_id: identity.previous_response_id,
        originator: identity.originator,
        user_agent: identity.user_agent,
    }
}

} // verus!
