//! What a Responses transport hands to a request observer: exact bytes and a
//! closed projection of the identity-bearing headers.

use vstd::prelude::*;
use crate::fingerprint::append_bytes;

verus! {

/// The header carrying the Responses Lite marker.
pub const RESPONSES_LITE_HEADER: &'static str = "x-openai-internal-codex-responses-lite";

/// The client-metadata key under which a WebSocket request repeats that header.
pub const WS_REQUEST_HEADER_RESPONSES_LITE_CLIENT_METADATA_KEY: &'static str =
    "ws_request_header_x_openai_internal_codex_responses_lite";

/// Responses routes an observed request can go to.
#[derive(Clone, Copy, Debug, PartialEq, Eq, Structural)]
pub enum ResponsesEndpoint {
    Responses,
    Guardian,
    GuardianClassifier,
}

/// Body compression applied to a prepared HTTP request.
#[derive(Clone, Copy, Debug, PartialEq, Eq, Structural)]
pub enum Compression {
    /// The body is sent as uncompressed JSON.
    Uncompressed,
    /// The body is Zstandard-compressed.
    Zstd,
}

/// A fixed projection of transport identity fields that are safe to fingerprint locally.
#[derive(Clone, Copy)]
pub struct SafeTransportIdentity<'a> {
    pub session_id: Option<&'a [u8]>,
    pub thread_id: Option<&'a [u8]>,
    pub client_request_id: Option<&'a [u8]>,
    pub subagent: Option<&'a [u8]>,
    pub routing_hint: Option<&'a [u8]>,
    pub responses_lite: Option<&'a [u8]>,
    pub previous_response_id: Option<&'a [u8]>,
    pub originator: Option<&'a [u8]>,
    pub user_agent: Option<&'a [u8]>,
}

/// Exact HTTP request bytes and safe identity fields for `/responses/compact`.
pub struct CompactionHttpRequestObservation<'a> {
    pub prepared_body: &'a [u8],
    pub identity: SafeTransportIdentity<'a>,
}

/// Exact HTTP request bytes and safe identity fields captured before authentication.
pub struct HttpRequestObservation<'a> {
    pub uncompressed_json: &'a [u8],
    pub prepared_body: &'a [u8],
    pub endpoint: ResponsesEndpoint,
    pub compression: Compression,
    pub identity: SafeTransportIdentity<'a>,
}

/// Exact WebSocket request bytes and safe identity fields captured at the send boundary.
pub struct WebsocketRequestObservation<'a> {
    pub wire_json: &'a [u8],
    pub endpoint: ResponsesEndpoint,
    pub identity: SafeTransportIdentity<'a>,
    pub connection_reused: bool,
    pub incremental: bool,
}

/// Receives exact request bytes and a closed set of safe transport identities.
///
/// Implementations are responsible for containing their own failures so
/// observation never interrupts an inference request.
pub trait ResponsesRequestObserver {
    /// Observes one prepared Responses HTTP request before authentication.
    fn observe_http(&self, observation: HttpRequestObservation<'_>);

    /// Observes one exact Responses WebSocket text request immediately before it is sent.
    fn observe_websocket(&self, observation: WebsocketRequestObservation<'_>);

    /// Observes one prepared unary compaction request before authentication.
    fn observe_compaction_http(&self, observation: CompactionHttpRequestObservation<'_>) {
    }
}

#[verifier::external_type_specification]
#[verifier::external_body]
#[verifier::reject_recursive_types(T)]
pub struct ExHeaderMap<T>(http::HeaderMap<T>);

#[verifier::external_type_specification]
#[verifier::external_body]
pub struct ExHeaderValue(http::HeaderValue);

/// The first value of each header of a map, keyed by the header's (lowercase) name.
pub uninterp spec fn header_values(headers: http::HeaderMap) -> Map<Seq<char>, Seq<u8>>;

/// A header name without upper-case ASCII letters.
pub open spec fn is_lowercase_name(name: Seq<char>) -> bool {
    forall|i: int| 0 <= i < name.len() ==> !('A' <= #[trigger] name[i] && name[i] <= 'Z')
}

/// Looks a header up with `http::HeaderMap::get` and reads the value with
/// `HeaderValue::as_bytes`.
///
/// The contract claims that `get` returns the first value stored under the
/// name, or `None` when the map holds none; names are compared
/// case-insensitively by the crate, so `requires` asks for a lower-case name,
/// the form in which the map keys its headers.
#[verifier::external_body]
fn header_bytes<'a>(headers: &'a http::HeaderMap, name: &str) -> (value: Option<&'a [u8]>)
    requires
        is_lowercase_name(name@),
    ensures
        value is Some <==> header_values(*headers).contains_key(name@),
        value is Some ==> value.unwrap()@ == header_values(*headers)[name@],
{
    headers.get(name).map(http::HeaderValue::as_bytes)
}

/// The first value of `name` in `headers`, when there is one.
pub open spec fn header_value(headers: http::HeaderMap, name: Seq<char>) -> Option<Seq<u8>> {
    if header_values(headers).contains_key(name) {
        Option::Some(header_values(headers)[name])
    } else {
        Option::None
    }
}

pub open spec fn optional_view(value: Option<&[u8]>) -> Option<Seq<u8>> {
    match value {
        Option::None => Option::None,
        Option::Some(v) => Option::Some(v@),
    }
}

fn header<'a>(headers: &'a http::HeaderMap, name: &str) -> (value: Option<&'a [u8]>)
    requires
        is_lowercase_name(name@),
    ensures
        optional_view(value) == header_value(*headers, name@),
{
    header_bytes(headers, name)
}

impl<'a> SafeTransportIdentity<'a> {
    /// The identity fields that an HTTP request's headers carry.  HTTP requests
    /// carry no previous response identity in a header.
    pub fn from_http_headers(headers: &'a http::HeaderMap) -> (identity: Self)
        ensures
            optional_view(identity.session_id) == header_value(*headers, "session-id"@),
            optional_view(identity.thread_id) == header_value(*headers, "thread-id"@),
            optional_view(identity.client_request_id) == header_value(
                *headers,
                "x-client-request-id"@,
            ),
            optional_view(identity.subagent) == header_value(*headers, "x-openai-subagent"@),
            optional_view(identity.routing_hint) == header_value(*headers, "x-codex-routing-hint"@),
            optional_view(identity.responses_lite) == header_value(
                *headers,
                "x-openai-internal-codex-responses-lite"@,
            ),
            identity.previous_response_id is None,
            optional_view(identity.originator) == header_value(*headers, "originator"@),
            optional_view(identity.user_agent) == header_value(*headers, "user-agent"@),
    {
        proof {
            reveal_strlit("session-id");
            reveal_strlit("thread-id");
            reveal_strlit("x-client-request-id");
            reveal_strlit("x-openai-subagent");
            reveal_strlit("x-codex-routing-hint");
            reveal_strlit("x-openai-internal-codex-responses-lite");
            reveal_strlit("originator");
            reveal_strlit("user-agent");
        }
        SafeTransportIdentity {
            session_id: header(headers, "session-id"),
            thread_id: header(headers, "thread-id"),
            client_request_id: header(headers, "x-client-request-id"),
            subagent: header(headers, "x-openai-subagent"),
            routing_hint: header(headers, "x-codex-routing-hint"),
            responses_lite: header(headers, "x-openai-internal-codex-responses-lite"),
            previous_response_id: Option::None,
            originator: header(headers, "originator"),
            user_agent: header(headers, "user-agent"),
        }
    }
}

pub open spec fn owned_view(value: Option<Vec<u8>>) -> Option<Seq<u8>> {
    match value {
        Option::None => Option::None,
        Option::Some(v) => Option::Some(v@),
    }
}

fn owned_header(headers: &http::HeaderMap, name: &str) -> (value: Option<Vec<u8>>)
    requires
        is_lowercase_name(name@),
    ensures
        owned_view(value) == header_value(*headers, name@),
{
    match header_bytes(headers, name) {
        Option::None => Option::None,
        Option::Some(bytes) => {
            let mut owned: Vec<u8> = Vec::new();
            append_bytes(&mut owned, bytes);
            Option::Some(owned)
        },
    }
}

/// The identity headers of a WebSocket handshake, copied so they outlive it.
pub struct OwnedSafeTransportIdentity {
    pub session_id: Option<Vec<u8>>,
    pub thread_id: Option<Vec<u8>>,
    pub client_request_id: Option<Vec<u8>>,
    pub subagent: Option<Vec<u8>>,
    pub routing_hint: Option<Vec<u8>>,
    pub originator: Option<Vec<u8>>,
    pub user_agent: Option<Vec<u8>>,
}

fn borrow_owned(value: &Option<Vec<u8>>) -> (borrowed: Option<&[u8]>)
    ensures
        optional_view(borrowed) == owned_view(*value),
{
    match value {
        Option::None => Option::None,
        Option::Some(v) => Option::Some(v.as_slice()),
    }
}

impl OwnedSafeTransportIdentity {
    /// Copies the identity headers of a WebSocket handshake.  The Responses Lite
    /// marker and the previous response identity travel per request, not in
    /// the handshake, so they are not kept.
    pub fn from_websocket_headers(headers: &http::HeaderMap) -> (identity: Self)
        ensures
            owned_view(identity.session_id) == header_value(*headers, "session-id"@),
            owned_view(identity.thread_id) == header_value(*headers, "thread-id"@),
            owned_view(identity.client_request_id) == header_value(
                *headers,
                "x-client-request-id"@,
            ),
            owned_view(identity.subagent) == header_value(*headers, "x-openai-subagent"@),
            owned_view(identity.routing_hint) == header_value(*headers, "x-codex-routing-hint"@),
            owned_view(identity.originator) == header_value(*headers, "originator"@),
            owned_view(identity.user_agent) == header_value(*headers, "user-agent"@),
    {
        proof {
            reveal_strlit("session-id");
            reveal_strlit("thread-id");
            reveal_strlit("x-client-request-id");
            reveal_strlit("x-openai-subagent");
            reveal_strlit("x-codex-routing-hint");
            reveal_strlit("originator");
            reveal_strlit("user-agent");
        }
        OwnedSafeTransportIdentity {
            session_id: owned_header(headers, "session-id"),
            thread_id: owned_header(headers, "thread-id"),
            client_request_id: owned_header(headers, "x-client-request-id"),
            subagent: owned_header(headers, "x-openai-subagent"),
            routing_hint: owned_header(headers, "x-codex-routing-hint"),
            originator: owned_header(headers, "originator"),
            user_agent: owned_header(headers, "user-agent"),
        }
    }

    /// The borrowed projection, with no Responses Lite marker and no previous
    /// response identity.
    pub fn as_borrowed(&self) -> (identity: SafeTransportIdentity<'_>)
        ensures
            optional_view(identity.session_id) == owned_view(self.session_id),
            optional_view(identity.thread_id) == owned_view(self.thread_id),
            optional_view(identity.client_request_id) == owned_view(self.client_request_id),
            optional_view(identity.subagent) == owned_view(self.subagent),
            optional_view(identity.routing_hint) == owned_view(self.routing_hint),
            identity.responses_lite is None,
            identity.previous_response_id is None,
            optional_view(identity.originator) == owned_view(self.originator),
            optional_view(identity.user_agent) == owned_view(self.user_agent),
    {
        SafeTransportIdentity {
            session_id: borrow_owned(&self.session_id),
            thread_id: borrow_owned(&self.thread_id),
            client_request_id: borrow_owned(&self.client_request_id),
            subagent: borrow_owned(&self.subagent),
            routing_hint: borrow_owned(&self.routing_hint),
            responses_lite: Option::None,
            previous_response_id: Option::None,
            originator: borrow_owned(&self.originator),
            user_agent: borrow_owned(&self.user_agent),
        }
    }
}

/// What a WebSocket connection keeps to observe each request it sends.
pub struct WebsocketObservationState {
    pub transport_identity: OwnedSafeTransportIdentity,
    pub endpoint: ResponsesEndpoint,
}

impl WebsocketObservationState {
    pub fn new(headers: &http::HeaderMap, endpoint: ResponsesEndpoint) -> (state: Self)
        ensures
            state.endpoint == endpoint,
            owned_view(state.transport_identity.session_id) == header_value(*headers, "session-id"@),
            owned_view(state.transport_identity.thread_id) == header_value(*headers, "thread-id"@),
            owned_view(state.transport_identity.client_request_id) == header_value(
                *headers,
                "x-client-request-id"@,
            ),
            owned_view(state.transport_identity.subagent) == header_value(
                *headers,
                "x-openai-subagent"@,
            ),
            owned_view(state.transport_identity.routing_hint) == header_value(
                *headers,
                "x-codex-routing-hint"@,
            ),
            owned_view(state.transport_identity.originator) == header_value(*headers, "originator"@),
            owned_view(state.transport_identity.user_agent) == header_value(*headers, "user-agent"@),
    {
        WebsocketObservationState {
            transport_identity: OwnedSafeTransportIdentity::from_websocket_headers(headers),
            endpoint,
        }
    }

    /// The identity every request on this connection is observed with.
    pub fn identity(&self) -> (identity: SafeTransportIdentity<'_>)
        ensures
            optional_view(identity.session_id) == owned_view(self.transport_identity.session_id),
            optional_view(identity.thread_id) == owned_view(self.transport_identity.thread_id),
            optional_view(identity.client_request_id) == owned_view(
                self.transport_identity.client_request_id,
            ),
            optional_view(identity.subagent) == owned_view(self.transport_identity.subagent),
            optional_view(identity.routing_hint) == owned_view(self.transport_identity.routing_hint),
            identity.responses_lite is None,
            identity.previous_response_id is None,
            optional_view(identity.originator) == owned_view(self.transport_identity.originator),
            optional_view(identity.user_agent) == owned_view(self.transport_identity.user_agent),
    {
        self.transport_identity.as_borrowed()
    }
}

} // verus!
