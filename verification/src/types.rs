//! The public vocabulary of a diagnostic attempt: request contexts, bounded
//! transport facts, continuation decisions and outcomes.

use vstd::prelude::*;

verus! {

/// Stable, low-cardinality logical request categories.
#[derive(Clone, Copy, Debug, PartialEq, Eq, Structural)]
pub enum RequestKind {
    /// A normal model turn, including its retries.
    Turn,
    /// A `generate=false` request used to establish a WebSocket cache prefix.
    Warmup,
    /// A request that compacts prior conversation state.
    Compaction,
    /// An internal memory-generation model request.
    Memory,
}

/// Raw request context accepted only long enough to create keyed fingerprints.
#[derive(Clone, Copy)]
pub struct AttemptContext<'a> {
    /// The bounded category of logical request.
    pub request_kind: RequestKind,
    /// Zero-based retry number within the logical request.
    pub retry_ordinal: u32,
    /// Thread lineage identity, when known.
    pub thread_id: Option<&'a str>,
    /// Session identity, when distinct from the thread.
    pub session_id: Option<&'a str>,
    /// Turn identity, when known.
    pub turn_id: Option<&'a str>,
    /// Parent identity for child work, when known.
    pub parent_id: Option<&'a str>,
    /// Cache affinity identity, when known.
    pub affinity_id: Option<&'a str>,
    /// Previous provider response identity, when used.
    pub previous_response_id: Option<&'a str>,
}

/// Transports that carry a reusable request continuation.
#[derive(Clone, Copy, Debug, PartialEq, Eq, Structural)]
pub enum ContinuationTransport {
    /// The Responses WebSocket connection.
    Websocket,
}

/// Whether the previous continuation was reused.
#[derive(Clone, Copy, Debug, PartialEq, Eq, Structural)]
pub enum ContinuationDecision {
    /// Only a suffix was sent against the previous response.
    Incremental,
    /// The complete request was sent.
    Full,
}

/// Bounded causes for abandoning the previous continuation.
#[derive(Clone, Copy, Debug, PartialEq, Eq, Structural)]
pub enum ContinuationDropReason {
    /// No previous response was available on the connection.
    NoPreviousResponse,
    /// No previous request was retained for comparison.
    NoPreviousRequest,
    /// A non-input request property changed.
    PropertiesMismatch,
    /// The new input is shorter than the previous baseline.
    InputShorterThanPrevious,
    /// An item inside the previously sent input changed.
    InputPrefixMismatch,
    /// The previous response carried no response identity.
    EmptyPreviousResponseId,
}

/// Serialized values a divergence offset can describe.
#[derive(Clone, Copy, Debug, PartialEq, Eq, Structural)]
pub enum DivergenceScope {
    /// One input item's serialization.
    InputItem,
}

/// Byte-offset localization of a first difference between two serializations.
#[derive(Clone, Copy, Debug, PartialEq, Eq, Structural)]
pub struct ContinuationDivergence {
    /// Which serialized value the offsets describe.
    pub scope: DivergenceScope,
    /// Offset of the first differing byte.
    pub byte_offset: usize,
    /// Serialized length of the previous value.
    pub previous_bytes: usize,
    /// Serialized length of the current value.
    pub current_bytes: usize,
}

/// Decision record for reusing the transport continuation of the previous request.
///
/// Recorded at decision time by the component that chose between an incremental
/// and a full send, so an analyzer reads the cause of a lost continuation
/// instead of inferring it from fingerprint diffs.
#[derive(Clone, Copy)]
pub struct ContinuationReport {
    /// The transport whose continuation was evaluated.
    pub transport: ContinuationTransport,
    /// Whether the request was sent incrementally or in full.
    pub decision: ContinuationDecision,
    /// Why a full send was required, when it was.
    pub drop_reason: Option<ContinuationDropReason>,
    /// The first non-input request property that differed, when properties mismatched.
    pub first_mismatched_property: Option<&'static str>,
    /// The first input index that differed, when the input prefix mismatched.
    pub first_mismatched_input_index: Option<usize>,
    /// Byte-level localization of the first difference, when one was computed.
    pub divergence: Option<ContinuationDivergence>,
}

/// Provenance of the inputs that produced a request's tool array.
///
/// Raw catalog identity bytes are accepted only long enough to fingerprint.
#[derive(Clone, Copy)]
pub struct ToolProvenance<'a> {
    /// Number of model presets embedded in tool descriptions.
    pub model_preset_count: usize,
    /// Whether the preset list fell back to empty on lock contention.
    pub model_catalog_lock_contention_fallback: bool,
    /// Serialized model-catalog identity, fingerprinted before persistence.
    pub model_catalog_identity: Option<&'a [u8]>,
    /// Number of agent-role config files that failed to read during tool build.
    pub role_file_read_failures: usize,
}

/// Stable, low-cardinality request transports.
#[derive(Clone, Copy, Debug, PartialEq, Eq, Structural)]
pub enum WireRequestKind {
    /// An HTTP request body.
    Http,
    /// A WebSocket `response.create` message.
    Websocket,
}

/// Exact wire bytes observed immediately before a transport send.
#[derive(Clone, Copy)]
pub struct WireRequest<'a> {
    /// The transport whose serializer produced `body`.
    pub kind: WireRequestKind,
    /// The exact serialized bytes sent by that transport.
    pub body: &'a [u8],
}

/// Responses-compatible route categories retained without a URL or path.
#[derive(Clone, Copy, Debug, PartialEq, Eq, Structural)]
pub enum EndpointKind {
    /// Regular model inference.
    Responses,
    /// The full Guardian approval route.
    Guardian,
    /// Lightweight Guardian classification.
    GuardianClassifier,
    /// The unary Responses compaction route.
    Compact,
}

/// Prepared HTTP body compression retained as a bounded enum.
#[derive(Clone, Copy, Debug, PartialEq, Eq, Structural)]
pub enum CompressionKind {
    /// The prepared body is uncompressed JSON.
    Uncompressed,
    /// The prepared body uses Zstandard compression.
    Zstd,
}

/// Closed transport identity projection fingerprinted before persistence.
#[derive(Clone, Copy, Default)]
pub struct TransportIdentity<'a> {
    /// Session header value, when present.
    pub session_id: Option<&'a [u8]>,
    /// Thread header value, when present.
    pub thread_id: Option<&'a [u8]>,
    /// Client request header value, when present.
    pub client_request_id: Option<&'a [u8]>,
    /// Subagent header value, when present.
    pub subagent: Option<&'a [u8]>,
    /// Routing-hint header value, when present.
    pub routing_hint: Option<&'a [u8]>,
    /// Responses Lite marker, when present.
    pub responses_lite: Option<&'a [u8]>,
    /// Previous response identity, when present.
    pub previous_response_id: Option<&'a [u8]>,
    /// Client originator value, when present.
    pub originator: Option<&'a [u8]>,
    /// User-agent value, when present.
    pub user_agent: Option<&'a [u8]>,
}

/// Privacy-safe transport metadata for one request send.
#[derive(Clone, Copy)]
pub enum TransportMetadata<'a> {
    /// An HTTP Responses request.
    Http {
        /// The bounded Responses route category.
        endpoint: EndpointKind,
        /// The request-body compression applied to the prepared bytes.
        compression: CompressionKind,
        /// A closed projection of identity-bearing transport fields.
        identity: TransportIdentity<'a>,
    },
    /// A WebSocket `response.create` request.
    Websocket {
        /// The bounded Responses route category.
        endpoint: EndpointKind,
        /// Whether this send reused an existing physical connection.
        connection_reused: bool,
        /// Whether the frame carries an incremental request.
        incremental: bool,
        /// A closed projection of identity-bearing transport fields.
        identity: TransportIdentity<'a>,
    },
}

/// Exact wire bytes plus the bounded transport facts that shaped the send.
#[derive(Clone, Copy)]
pub struct TransportRequest<'a> {
    /// The exact serialized bytes sent by the transport.
    pub body: &'a [u8],
    /// Transport-specific, privacy-safe metadata observed at the send boundary.
    pub transport: TransportMetadata<'a>,
}

/// Numeric token usage safe to persist alongside an outcome.
#[derive(Clone, Copy, Debug, PartialEq, Eq, Structural)]
pub struct TokenUsage {
    /// Tokens supplied to the model.
    pub input: i64,
    /// Input tokens reported as cached by the provider.
    pub cached_input: i64,
    /// Input tokens reported as written to a cache.
    pub cache_write: i64,
    /// Tokens produced by the model.
    pub output: i64,
    /// Output tokens attributed to reasoning.
    pub reasoning: i64,
    /// Total tokens reported by the provider.
    pub total: i64,
}

/// Data recorded for a successfully completed attempt.
#[derive(Clone, Copy)]
pub struct CompletedOutcome<'a> {
    /// Provider response identity, fingerprinted before persistence.
    pub response_id: Option<&'a str>,
    /// Provider-reported numeric usage.
    pub usage: TokenUsage,
}

/// Bounded terminal categories that never contain provider error text.
#[derive(Clone, Copy, Debug, PartialEq, Eq, Structural)]
pub enum TerminalOutcome {
    /// The attempt failed.
    Failed,
    /// The attempt was cancelled.
    Cancelled,
    /// The transport or protocol fell back to another path.
    Fallback,
}

/// Content-free collector initialization error.
#[derive(Clone, Copy, Debug, PartialEq, Eq, Structural)]
pub struct OpenError;

impl OpenError {
    /// The error raised when collection cannot start.
    pub fn unavailable() -> (error: OpenError)
        ensures
            error == OpenError,
    {
        OpenError
    }

    /// The human-readable text of the error; it names no path and no file contents.
    pub fn message(&self) -> (text: &'static str)
        ensures
            text@ == "cache diagnostic collection is unavailable"@,
    {
        "cache diagnostic collection is unavailable"
    }
}

} // verus!
