use cache_diagnostics::attempt::{Attempt, Collector, Record, RequestRecord, TerminalStatus, SCHEMA_VERSION};
use cache_diagnostics::fingerprint::Fingerprint;
use cache_diagnostics::logical::LogicalRequest;
use cache_diagnostics::manifest::{ManifestObservation, ObservationStatus, WireManifest};
use cache_diagnostics::types::{
    AttemptContext, CompletedOutcome, CompressionKind, ContinuationDecision, ContinuationDivergence,
    ContinuationDropReason, ContinuationReport, ContinuationTransport, DivergenceScope,
    EndpointKind, RequestKind, TerminalOutcome, TokenUsage, ToolProvenance, TransportIdentity,
    TransportMetadata, TransportRequest, WireRequest, WireRequestKind,
};

const PRIVATE_CANARY: &str = "PRIVATE-CACHE-DIAGNOSTIC-CANARY";
const TRANSPORT_PRIVATE_CANARY: &[u8] = b"PRIVATE-TRANSPORT-IDENTITY-CANARY";

fn installation_key(seed: u8) -> Vec<u8> {
    vec![seed; 32]
}

fn json_text(value: &str) -> Vec<u8> {
    serde_json::to_vec(value).expect("a string serializes")
}

fn input_item(canary: &str, index: usize) -> Vec<u8> {
    format!(
        r#"{{"type":"message","role":"user","content":[{{"type":"input_text","text":"prompt-{canary}-{index}"}}]}}"#
    )
    .into_bytes()
}

fn tool_item(canary: &str, index: usize) -> String {
    format!(
        r#"{{"type":"function","name":"tool-name-{index}","description":"description-{canary}-{index}","parameters":{{"type":"object","properties":{{"dynamic-key-{canary}-{index}":{{"type":"string"}}}}}}}}"#
    )
}

fn logical_request(canary: &str, input_count: usize, tool_count: usize) -> LogicalRequest {
    let input: Vec<Vec<u8>> = (0..input_count).map(|index| input_item(canary, index)).collect();
    let tools = format!(
        "[{}]",
        (0..tool_count).map(|index| tool_item(canary, index)).collect::<Vec<_>>().join(",")
    );
    LogicalRequest {
        body: format!(r#"{{"model":"model-{canary}","inputs":{input_count}}}"#).into_bytes(),
        model: json_text(&format!("model-{canary}")),
        instructions: json_text(&format!("instructions-{canary}")),
        input,
        tools: Some(tools.into_bytes()),
        tool_choice: json_text(&format!("choice-{canary}")),
        parallel_tool_calls: b"true".to_vec(),
        reasoning: None,
        store: b"false".to_vec(),
        stream: b"true".to_vec(),
        stream_options: None,
        included: format!(r#"["include-{canary}"]"#).into_bytes(),
        service_tier: Some(json_text(&format!("tier-{canary}"))),
        prompt_cache_key: Some(json_text(&format!("prompt-cache-key-{canary}"))),
        text: None,
        client_metadata: Some(
            format!(r#"{{"metadata-key-{canary}":"metadata-value-{canary}"}}"#).into_bytes(),
        ),
        access_programs: None,
    }
}

fn attempt_context(canary: &str) -> AttemptContext<'_> {
    AttemptContext {
        request_kind: RequestKind::Turn,
        retry_ordinal: 0,
        thread_id: Some(canary),
        session_id: Some(canary),
        turn_id: Some(canary),
        parent_id: Some(canary),
        affinity_id: Some(canary),
        previous_response_id: Some(canary),
    }
}

fn identity_of(value: &[u8]) -> TransportIdentity<'_> {
    TransportIdentity {
        session_id: Some(value),
        thread_id: Some(value),
        client_request_id: Some(value),
        subagent: Some(value),
        routing_hint: Some(value),
        responses_lite: Some(value),
        previous_response_id: Some(value),
        originator: Some(value),
        user_agent: Some(value),
    }
}

fn fixture_usage() -> TokenUsage {
    TokenUsage { input: 101, cached_input: 79, cache_write: 11, output: 23, reasoning: 7, total: 131 }
}

fn open_collector(seed: u8) -> Collector {
    Collector::open(&installation_key(seed)).expect("collector should open")
}

fn start(collector: &Collector, canary: &str, logical: &LogicalRequest) -> Attempt {
    collector.start_attempt(attempt_context(canary), Some(logical))
}

fn request_of(records: &[Record]) -> &RequestRecord {
    records
        .iter()
        .find_map(|record| match record {
            Record::Request(request) => Some(request),
            Record::Outcome(_) => None,
        })
        .expect("request record should exist")
}

fn observed_hmac(observation: &ManifestObservation<Fingerprint>) -> &str {
    match observation {
        ManifestObservation::Observed(fingerprint) => fingerprint.hmac.as_str(),
        ManifestObservation::Status { .. } => panic!("expected a fingerprint"),
    }
}

fn request_hmacs(record: &RequestRecord) -> Vec<String> {
    let logical = &record.logical;
    let mut hmacs = vec![
        record.key_scope.hmac.clone(),
        logical.body.hmac.clone(),
        logical.model.hmac.clone(),
        logical.instructions.hmac.clone(),
        logical.input.body.hmac.clone(),
        logical.tool_choice.hmac.clone(),
        logical.included.hmac.clone(),
    ];
    hmacs.extend(logical.input.retained.iter().map(|fingerprint| fingerprint.hmac.clone()));
    hmacs.push(observed_hmac(&record.lineage.thread_id).to_string());
    if let WireManifest::Observed { body, .. } = &record.wire {
        hmacs.push(body.hmac.clone());
    }
    hmacs
}

fn wire_body(record: &RequestRecord) -> Option<&Fingerprint> {
    match &record.wire {
        WireManifest::Observed { body, .. } => Some(body),
        WireManifest::Status { .. } => None,
    }
}

fn wire_is_missing(record: &RequestRecord) -> bool {
    matches!(record.wire, WireManifest::Status { status: ObservationStatus::Missing })
}

#[test]
fn record_file_contains_no_sensitive_plaintext_and_links_outcome() {
    let collector = open_collector(7);
    let logical = logical_request(PRIVATE_CANARY, 2, 2);
    let mut attempt = start(&collector, PRIVATE_CANARY, &logical);
    let mut records = attempt.observe_wire_request(
        &collector,
        WireRequest { kind: WireRequestKind::Http, body: br#"{"wire":"PRIVATE-CACHE-DIAGNOSTIC-CANARY"}"# },
    );
    records.extend(attempt.completed(
        &collector,
        CompletedOutcome { response_id: Some(PRIVATE_CANARY), usage: fixture_usage() },
    ));
    assert_eq!(records.len(), 2);
    assert!(!collector.run_id().contains(PRIVATE_CANARY));
    let request = request_of(&records);
    for hmac in request_hmacs(request) {
        assert!(!hmac.contains(PRIVATE_CANARY));
        assert_eq!(hmac.len(), 43);
    }
    let outcome = match &records[1] {
        Record::Outcome(outcome) => outcome,
        Record::Request(_) => panic!("outcome record should exist"),
    };
    assert_eq!(request.attempt_id, outcome.attempt_id);
    assert_eq!(request.event, "request");
    assert_eq!(outcome.event, "outcome");
    assert_eq!(outcome.terminal, TerminalStatus::Completed);
    assert_eq!(outcome.usage, Some(fixture_usage()));
    assert!(!observed_hmac(&outcome.response_id).is_empty());
}

#[test]
fn continuation_and_tool_provenance_persist_on_the_request_record() {
    let collector = open_collector(7);
    let logical = logical_request(PRIVATE_CANARY, 2, 2);
    let mut attempt = start(&collector, PRIVATE_CANARY, &logical);
    attempt.record_continuation(ContinuationReport {
        transport: ContinuationTransport::Websocket,
        decision: ContinuationDecision::Full,
        drop_reason: Some(ContinuationDropReason::InputPrefixMismatch),
        first_mismatched_property: None,
        first_mismatched_input_index: Some(3),
        divergence: Some(ContinuationDivergence {
            scope: DivergenceScope::InputItem,
            byte_offset: 17,
            previous_bytes: 120,
            current_bytes: 114,
        }),
    });
    let catalog = format!("catalog-{PRIVATE_CANARY}");
    attempt.record_tool_provenance(
        &collector,
        ToolProvenance {
            model_preset_count: 4,
            model_catalog_lock_contention_fallback: true,
            model_catalog_identity: Some(catalog.as_bytes()),
            role_file_read_failures: 1,
        },
    );
    let mut records = attempt.observe_wire_request(
        &collector,
        WireRequest { kind: WireRequestKind::Http, body: b"wire" },
    );
    records.extend(attempt.completed(
        &collector,
        CompletedOutcome { response_id: Some(PRIVATE_CANARY), usage: fixture_usage() },
    ));
    let requests: Vec<&RequestRecord> = records
        .iter()
        .filter_map(|record| match record {
            Record::Request(request) => Some(request),
            Record::Outcome(_) => None,
        })
        .collect();
    assert_eq!(requests.len(), 1);
    let record = requests[0];
    assert_eq!(record.schema_version, 2);
    assert_eq!(SCHEMA_VERSION, 2);
    let continuation = record.continuation.expect("continuation should persist");
    assert_eq!(continuation.transport, ContinuationTransport::Websocket);
    assert_eq!(continuation.decision, ContinuationDecision::Full);
    assert_eq!(continuation.drop_reason, Some(ContinuationDropReason::InputPrefixMismatch));
    assert_eq!(continuation.first_mismatched_property, None);
    assert_eq!(continuation.first_mismatched_input_index, Some(3));
    assert_eq!(
        continuation.divergence,
        Some(ContinuationDivergence {
            scope: DivergenceScope::InputItem,
            byte_offset: 17,
            previous_bytes: 120,
            current_bytes: 114,
        })
    );
    let provenance = record.tool_provenance.as_ref().expect("provenance should persist");
    assert_eq!(provenance.model_catalog.preset_count, 4);
    assert!(provenance.model_catalog.lock_contention_fallback);
    assert!(!observed_hmac(&provenance.model_catalog.identity).contains(PRIVATE_CANARY));
    assert_eq!(provenance.role_file_read_failures, 1);

    let detail = match &record.logical.tools_detail {
        ManifestObservation::Observed(detail) => detail,
        ManifestObservation::Status { .. } => panic!("tools detail should be observed"),
    };
    assert_eq!(detail.count, 2);
    assert_eq!(detail.retained[0].name, "tool-name-0");
    assert_eq!(detail.retained[1].name, "tool-name-1");
    let first_description = observed_hmac(&detail.retained[0].description);
    let second_description = observed_hmac(&detail.retained[1].description);
    assert!(!first_description.is_empty());
    assert!(!observed_hmac(&detail.retained[0].parameters).is_empty());
    assert_ne!(first_description, second_description);
}

#[test]
fn continuation_and_provenance_after_persistence_are_ignored() {
    let collector = open_collector(7);
    let logical = logical_request("late", 1, 1);
    let mut attempt = start(&collector, "late", &logical);
    let mut records = attempt.observe_wire_request(
        &collector,
        WireRequest { kind: WireRequestKind::Http, body: b"wire" },
    );
    attempt.record_continuation(ContinuationReport {
        transport: ContinuationTransport::Websocket,
        decision: ContinuationDecision::Incremental,
        drop_reason: None,
        first_mismatched_property: None,
        first_mismatched_input_index: None,
        divergence: None,
    });
    records.extend(attempt.terminal(&collector, TerminalOutcome::Failed));
    let requests: Vec<&RequestRecord> = records
        .iter()
        .filter_map(|record| match record {
            Record::Request(request) => Some(request),
            Record::Outcome(_) => None,
        })
        .collect();
    assert_eq!(requests.len(), 1);
    assert!(requests[0].continuation.is_none());
}

#[test]
fn persisted_key_makes_fingerprints_stable_and_installations_isolated() {
    let collectors = [open_collector(1), open_collector(1), open_collector(2)];
    let logical = logical_request(PRIVATE_CANARY, 2, 2);
    let mut hmacs = Vec::new();
    let mut scopes = Vec::new();
    for collector in &collectors {
        let mut attempt = start(collector, PRIVATE_CANARY, &logical);
        let records = attempt.observe_wire_request(
            collector,
            WireRequest { kind: WireRequestKind::Http, body: b"same exact wire body" },
        );
        hmacs.push(request_hmacs(request_of(&records)));
        scopes.push(collector.key_scope().hmac.clone());
    }
    assert!(!hmacs[0].is_empty());
    assert_eq!(hmacs[0], hmacs[1]);
    assert_ne!(hmacs[0], hmacs[2]);
    assert!(!scopes[0].is_empty());
    assert_eq!(scopes[0], scopes[1]);
    assert_ne!(scopes[0], scopes[2]);
    assert_ne!(collectors[0].run_id(), collectors[1].run_id());
}

#[test]
fn wire_fingerprint_hashes_exact_bytes_and_missing_observation_is_truthful() {
    let collector = open_collector(7);
    let logical = logical_request("logical", 1, 1);

    let mut compact = start(&collector, "identity", &logical);
    let mut records = compact.observe_wire_request(
        &collector,
        WireRequest { kind: WireRequestKind::Http, body: br#"{"a":1,"b":2}"# },
    );
    records.extend(compact.terminal(&collector, TerminalOutcome::Failed));

    let mut spaced = start(&collector, "identity", &logical);
    records.extend(spaced.observe_wire_request(
        &collector,
        WireRequest { kind: WireRequestKind::Http, body: br#"{ "a": 1, "b": 2 }"# },
    ));
    records.extend(spaced.terminal(&collector, TerminalOutcome::Failed));

    let mut missing = start(&collector, "identity", &logical);
    records.extend(missing.terminal(&collector, TerminalOutcome::Cancelled));

    let requests: Vec<&RequestRecord> = records
        .iter()
        .filter_map(|record| match record {
            Record::Request(request) => Some(request),
            Record::Outcome(_) => None,
        })
        .collect();
    assert_eq!(requests.len(), 3);
    assert_eq!(requests[0].logical.body.hmac, requests[1].logical.body.hmac);
    let compact_body = wire_body(requests[0]).expect("wire observed");
    let spaced_body = wire_body(requests[1]).expect("wire observed");
    assert_ne!(compact_body.hmac, spaced_body.hmac);
    assert_eq!(compact_body.bytes, 13);
    assert_eq!(spaced_body.bytes, 18);
    assert!(wire_is_missing(requests[2]));
}

#[test]
fn transport_records_preserve_closed_facts_and_domain_separate_identity_hmacs() {
    let collector = open_collector(7);
    let logical = logical_request("logical", 1, 1);

    let mut http = start(&collector, "http", &logical);
    let mut records = http.observe_transport_request(
        &collector,
        TransportRequest {
            body: br#"{"transport":"http"}"#,
            transport: TransportMetadata::Http {
                endpoint: EndpointKind::Guardian,
                compression: CompressionKind::Zstd,
                identity: identity_of(TRANSPORT_PRIVATE_CANARY),
            },
        },
    );
    records.extend(http.terminal(&collector, TerminalOutcome::Failed));

    let mut websocket = start(&collector, "websocket", &logical);
    records.extend(websocket.observe_transport_request(
        &collector,
        TransportRequest {
            body: br#"{"transport":"websocket"}"#,
            transport: TransportMetadata::Websocket {
                endpoint: EndpointKind::GuardianClassifier,
                connection_reused: false,
                incremental: true,
                identity: identity_of(TRANSPORT_PRIVATE_CANARY),
            },
        },
    ));
    records.extend(websocket.terminal(&collector, TerminalOutcome::Fallback));
    assert_eq!(records.len(), 4);

    let requests: Vec<&RequestRecord> = records
        .iter()
        .filter_map(|record| match record {
            Record::Request(request) => Some(request),
            Record::Outcome(_) => None,
        })
        .collect();
    assert_eq!(requests.len(), 2);
    let (http_kind, http_body, http_transport) = match &requests[0].wire {
        WireManifest::Observed { kind, body, transport: ManifestObservation::Observed(transport) } => {
            (kind, body, transport)
        },
        _ => panic!("http wire should be observed with transport facts"),
    };
    assert_eq!(*http_kind, WireRequestKind::Http);
    assert_eq!(http_body.bytes, 20);
    assert_eq!(http_transport.endpoint, EndpointKind::Guardian);
    assert!(matches!(http_transport.compression, ManifestObservation::Observed(CompressionKind::Zstd)));
    assert!(matches!(
        http_transport.connection_reused,
        ManifestObservation::Status { status: ObservationStatus::Unavailable }
    ));
    assert!(matches!(
        http_transport.incremental,
        ManifestObservation::Status { status: ObservationStatus::Unavailable }
    ));

    let (ws_kind, ws_body, ws_transport) = match &requests[1].wire {
        WireManifest::Observed { kind, body, transport: ManifestObservation::Observed(transport) } => {
            (kind, body, transport)
        },
        _ => panic!("websocket wire should be observed with transport facts"),
    };
    assert_eq!(*ws_kind, WireRequestKind::Websocket);
    assert_eq!(ws_body.bytes, 25);
    assert_eq!(ws_transport.endpoint, EndpointKind::GuardianClassifier);
    assert!(matches!(
        ws_transport.compression,
        ManifestObservation::Status { status: ObservationStatus::Unavailable }
    ));
    assert!(matches!(ws_transport.connection_reused, ManifestObservation::Observed(false)));
    assert!(matches!(ws_transport.incremental, ManifestObservation::Observed(true)));

    let identity_fields = |identity: &cache_diagnostics::transport::TransportIdentityManifest| {
        [
            &identity.session_id,
            &identity.thread_id,
            &identity.client_request_id,
            &identity.subagent,
            &identity.routing_hint,
            &identity.responses_lite,
            &identity.previous_response_id,
            &identity.originator,
            &identity.user_agent,
        ]
        .into_iter()
        .map(|observation| match observation {
            ManifestObservation::Observed(fingerprint) => {
                assert_eq!(fingerprint.bytes, TRANSPORT_PRIVATE_CANARY.len());
                fingerprint.hmac.clone()
            },
            ManifestObservation::Status { .. } => panic!("identity field should be fingerprinted"),
        })
        .collect::<Vec<_>>()
    };
    let http_identity = identity_fields(&http_transport.identity);
    let ws_identity = identity_fields(&ws_transport.identity);
    assert_eq!(http_identity, ws_identity);
    let mut distinct = http_identity.clone();
    distinct.sort();
    distinct.dedup();
    assert_eq!(distinct.len(), 9);
}

#[test]
fn bounded_manifests_hash_the_complete_omitted_tail() {
    let collector = open_collector(7);
    let first = logical_request(PRIVATE_CANARY, 10_000, 10_000);
    let mut second = logical_request(PRIVATE_CANARY, 10_000, 10_000);
    let last = second.input.last_mut().expect("fixture has input");
    *last = br#"{"type":"message","role":"user","content":[{"type":"input_text","text":"different omitted tail"}]}"#
        .to_vec();

    let mut requests = Vec::new();
    for logical in [&first, &second] {
        let mut attempt = start(&collector, PRIVATE_CANARY, logical);
        let mut records = attempt.observe_transport_request(
            &collector,
            TransportRequest {
                body: PRIVATE_CANARY.as_bytes(),
                transport: TransportMetadata::Http {
                    endpoint: EndpointKind::Responses,
                    compression: CompressionKind::Uncompressed,
                    identity: identity_of(TRANSPORT_PRIVATE_CANARY),
                },
            },
        );
        records.extend(attempt.terminal(&collector, TerminalOutcome::Cancelled));
        assert_eq!(records.len(), 2);
        match records.remove(0) {
            Record::Request(request) => requests.push(request),
            Record::Outcome(_) => panic!("request record should come first"),
        }
    }
    let first_input = &requests[0].logical.input;
    let second_input = &requests[1].logical.input;
    let retained = first_input.retained.len();
    assert!(retained < 10_000);
    assert_eq!(first_input.count, 10_000);
    assert_eq!(first_input.omitted.count, 10_000 - retained);
    assert_ne!(first_input.omitted.hmac, second_input.omitted.hmac);
    let tools = match &requests[0].logical.tools {
        ManifestObservation::Observed(tools) => tools,
        ManifestObservation::Status { .. } => panic!("tools should be observed"),
    };
    let retained_tools = tools.retained.len();
    assert!(retained_tools < 10_000);
    assert_eq!(tools.count, 10_000);
    assert_eq!(tools.omitted.count, 10_000 - retained_tools);
}

#[test]
fn duplicate_terminal_notification_writes_one_outcome() {
    let collector = open_collector(7);
    let logical = logical_request("logical", 1, 1);
    let mut attempt = start(&collector, "identity", &logical);
    let mut records = attempt.terminal(&collector, TerminalOutcome::Failed);
    records.extend(attempt.terminal(&collector, TerminalOutcome::Cancelled));
    assert_eq!(records.len(), 2);
    let request = match &records[0] {
        Record::Request(request) => request,
        Record::Outcome(_) => panic!("request record should come first"),
    };
    let outcome = match &records[1] {
        Record::Outcome(outcome) => outcome,
        Record::Request(_) => panic!("one outcome should follow"),
    };
    assert_eq!(outcome.attempt_id, request.attempt_id);
    assert_eq!(outcome.terminal, TerminalStatus::Failed);
    assert!(wire_is_missing(request));
}

#[test]
fn completed_outcomes_preserve_negative_usage_and_keep_absent_usage_null() {
    let collector = open_collector(7);
    let logical = logical_request("logical", 1, 1);

    let mut signed = start(&collector, "signed", &logical);
    let mut records = signed.completed(
        &collector,
        CompletedOutcome {
            response_id: Some("signed-response"),
            usage: TokenUsage { input: -1, cached_input: -2, cache_write: -3, output: -4, reasoning: -5, total: -6 },
        },
    );
    let mut absent = start(&collector, "absent", &logical);
    records.extend(absent.completed_without_usage(&collector, Some("absent-response")));

    let outcomes: Vec<_> = records
        .iter()
        .filter_map(|record| match record {
            Record::Outcome(outcome) => Some(outcome),
            Record::Request(_) => None,
        })
        .collect();
    assert_eq!(outcomes.len(), 2);
    assert_eq!(outcomes[0].terminal, TerminalStatus::Completed);
    assert_eq!(
        outcomes[0].usage,
        Some(TokenUsage { input: -1, cached_input: -2, cache_write: -3, output: -4, reasoning: -5, total: -6 })
    );
    assert_eq!(outcomes[1].terminal, TerminalStatus::Completed);
    assert_eq!(outcomes[1].usage, None);
    match &outcomes[1].response_id {
        ManifestObservation::Observed(fingerprint) => {
            assert_eq!(fingerprint.bytes, 15);
            assert!(!fingerprint.hmac.is_empty());
        },
        ManifestObservation::Status { .. } => panic!("response id should be fingerprinted"),
    }
    let absent_request = records
        .iter()
        .find_map(|record| match record {
            Record::Request(request) if request.attempt_id == outcomes[1].attempt_id => Some(request),
            _ => None,
        })
        .expect("attempt should have a request record");
    assert!(wire_is_missing(absent_request));
}

#[test]
fn wire_and_key_scope_fingerprints_match_the_framed_hmac() {
    let collector = open_collector(7);
    assert_eq!(collector.key_scope().hmac, "or07ITcElR39ujUKY50AyIoHTh2TPYwXqganprMpeuI");
    assert_eq!(collector.key_scope().bytes, 0);
    let logical = logical_request("logical", 1, 1);
    let mut attempt = start(&collector, "identity", &logical);
    let records = attempt.observe_wire_request(
        &collector,
        WireRequest { kind: WireRequestKind::Http, body: br#"{"a":1,"b":2}"# },
    );
    let body = wire_body(request_of(&records)).expect("wire observed");
    assert_eq!(body.hmac, "MmskAKJB9P9p9jHr9hMMo54mPmJ7Xcr18Sf2oFZctEM");
}

#[test]
fn outcome_fingerprints_the_response_identity() {
    let collector = open_collector(7);
    let logical = logical_request("logical", 1, 1);
    let mut attempt = start(&collector, "identity", &logical);
    let records = attempt.completed(
        &collector,
        CompletedOutcome { response_id: Some("resp-1"), usage: fixture_usage() },
    );
    assert_eq!(records.len(), 2);
    match &records[1] {
        Record::Outcome(outcome) => {
            assert_eq!(observed_hmac(&outcome.response_id), "XCZgnD1EPxSPvGb8XycVBCn2gxpTp9qt2Dqa-7eHfMc");
            assert_eq!(outcome.run_id, collector.run_id());
        },
        Record::Request(_) => panic!("outcome should follow the request"),
    }
}

#[test]
fn attempt_without_logical_request_records_nothing() {
    let collector = open_collector(7);
    let mut attempt = collector.start_attempt(attempt_context("none"), None);
    let records = attempt.observe_wire_request(
        &collector,
        WireRequest { kind: WireRequestKind::Websocket, body: b"wire" },
    );
    assert!(records.is_empty());
    assert!(attempt.terminal(&collector, TerminalOutcome::Failed).is_empty());
}

#[test]
fn request_record_carries_the_attempt_context() {
    let collector = open_collector(7);
    let logical = logical_request("logical", 1, 1);
    let mut context = attempt_context("thread-1");
    context.request_kind = RequestKind::Warmup;
    context.retry_ordinal = 3;
    let mut attempt = collector.start_attempt(context, Some(&logical));
    let records = attempt.observe_wire_request(
        &collector,
        WireRequest { kind: WireRequestKind::Http, body: b"wire" },
    );
    let request = request_of(&records);
    assert_eq!(request.request_kind, RequestKind::Warmup);
    assert_eq!(request.retry_ordinal, 3);
    assert_eq!(request.sequence, 0);
    assert_eq!(request.timestamp_unix_ms, None);
    assert_eq!(observed_hmac(&request.lineage.thread_id), "_e7BKsDCTCk0MzKOczXOQ8RQDwdP5ns99ZmFrbnIY60");
    assert_eq!(request.attempt_id.len(), 22);
}

#[test]
fn a_drawn_identifier_names_the_attempt() {
    let collector = Collector::with_run_id(&installation_key(7), "run-fixed".to_string());
    assert_eq!(collector.run_id(), "run-fixed");
    assert_eq!(collector.key_scope().hmac, "or07ITcElR39ujUKY50AyIoHTh2TPYwXqganprMpeuI");
    let logical = logical_request("logical", 1, 1);
    let mut attempt = collector.start_attempt_with_id(attempt_context("identity"), Some(&logical), Some("attempt-1".to_string()));
    let records = attempt.terminal(&collector, TerminalOutcome::Fallback);
    assert_eq!(records.len(), 2);
    assert_eq!(request_of(&records).attempt_id, "attempt-1");
    assert_eq!(request_of(&records).run_id, "run-fixed");
    match &records[1] {
        Record::Outcome(outcome) => {
            assert_eq!(outcome.attempt_id, "attempt-1");
            assert_eq!(outcome.terminal, TerminalStatus::Fallback);
            assert!(matches!(outcome.response_id, ManifestObservation::Status { status: ObservationStatus::Missing }));
        },
        Record::Request(_) => panic!("outcome expected"),
    }
    let mut without_id = collector.start_attempt_with_id(attempt_context("identity"), Some(&logical), None);
    assert!(without_id.terminal(&collector, TerminalOutcome::Failed).is_empty());
}
