//! A collection run and its attempts: which immutable records an attempt
//! emits, and in what order.
//!
//! An attempt holds its request record until the exact wire bytes are
//! observed or it ends; the request record is emitted once, never rewritten,
//! and at most one outcome follows it, linked by the attempt identifier.

use vstd::prelude::*;
use vstd::string::StringSliceAdditionalSpecFns;
use crate::fingerprint::{Fingerprint, Fingerprinter};
use crate::key::{draw_random_id, random_id, RandomSourceFailure};
use crate::logical::{LineageManifest, LogicalManifest, LogicalRequest};
use crate::manifest::{
    optional_byte_slice, optional_describes, optional_identity, slice_bytes, str_bytes,
    ManifestObservation, ObservationStatus, WireManifest,
};
use crate::types::{
    AttemptContext, CompletedOutcome, ContinuationReport, OpenError, RequestKind, TerminalOutcome,
    TokenUsage, ToolProvenance, TransportRequest, WireRequest,
};

verus! {

/// The record schema version written with every record.
pub const SCHEMA_VERSION: u32 = 2;

/// A local collection run: its identifier, the installation key and the key's
/// own fingerprint, which ties records to one installation without revealing it.
pub struct Collector {
    run_id: String,
    key_scope: Fingerprint,
    fingerprinter: Fingerprinter,
}

impl Collector {
    pub closed spec fn key(&self) -> Seq<u8> {
        self.fingerprinter.key()
    }

    pub closed spec fn run_id_view(&self) -> Seq<char> {
        self.run_id@
    }

    pub closed spec fn key_scope_view(&self) -> Fingerprint {
        self.key_scope
    }

    /// Starts a run with the installation key: draws a fresh run identifier
    /// and fingerprints the empty payload under `installation.keyScope`.
    ///
    /// Fails, with a content-free error, only when the random source fails.
    pub fn open(key: &[u8]) -> (collector: Result<Collector, OpenError>)
        ensures
            collector matches Ok(c) ==> {
                &&& c.opened_with(key@, c.run_id_view())
                &&& exists|raw: Seq<u8>|
                    raw.len() == 16 && c.run_id_view() == crate::encoding::base64_url_no_pad(raw)
            },
            collector is Err ==> collector->Err_0 == OpenError,
    {
        let run_id = random_id()?;
        Ok(Collector::with_run_id(key, run_id))
    }

    /// A run with the installation key and this identifier.
    pub open spec fn opened_with(&self, key: Seq<u8>, run_id: Seq<char>) -> bool {
        &&& self.key() == key
        &&& self.run_id_view() == run_id
        &&& self.key_scope_view().describes(key, "installation.keyScope".spec_bytes(), Seq::<u8>::empty())
    }

    /// Starts a run with the installation key under the given run identifier.
    pub fn with_run_id(key: &[u8], run_id: String) -> (collector: Collector)
        ensures
            collector.opened_with(key@, run_id@),
    {
        let fingerprinter = Fingerprinter::new(key);
        let empty: Vec<u8> = Vec::new();
        let key_scope = fingerprinter.fingerprint_bytes(
            "installation.keyScope".as_bytes(),
            empty.as_slice(),
        );
        Collector { run_id, key_scope, fingerprinter }
    }

    /// The run's identifier, which names its record file.
    pub fn run_id(&self) -> (id: &str)
        ensures
            id@ == self.run_id_view(),
    {
        self.run_id.as_str()
    }

    /// The fingerprint of the installation key's scope.
    pub fn key_scope(&self) -> (scope: &Fingerprint)
        ensures
            *scope == self.key_scope_view(),
    {
        &self.key_scope
    }

    /// The run's fingerprinter.
    pub fn fingerprinter(&self) -> (fingerprinter: &Fingerprinter)
        ensures
            fingerprinter.key() == self.key(),
    {
        &self.fingerprinter
    }

    /// Starts one request attempt and fingerprints the finalized logical request
    /// immediately.  `logical` is `None` when the request could not be serialized;
    /// such an attempt, like one whose identifier could not be drawn, records nothing.
    pub fn start_attempt(&self, context: AttemptContext<'_>, logical: Option<&LogicalRequest>) -> (attempt:
        Attempt)
        ensures
            attempt.wf(),
            attempt.belongs_to(*self),
            attempt.log() == Seq::<RecordEvent>::empty(),
            !attempt.outcome_written(),
            logical is None ==> attempt.attempt_id_view() is None,
            attempt.attempt_id_view() is None <==> attempt.pending_request() is None,
            attempt.pending_request() matches Option::Some(r) ==> {
                &&& r.request_fresh(*self, context, *logical.unwrap())
                &&& exists|raw: Seq<u8>|
                    raw.len() == 16 && r.attempt_id@ == crate::encoding::base64_url_no_pad(raw)
            },
            logical is Some ==> (attempt.attempt_id_view() is Some <==> !attempt.random_source_failed()),
    {
        match draw_random_id() {
            Ok(id) => self.start_attempt_with_id(context, logical, Option::Some(id)),
            Err(failure) => {
                let mut attempt = self.start_attempt_with_id(context, logical, Option::None);
                if logical.is_some() {
                    attempt.draw_failure = Option::Some(failure);
                }
                attempt
            },
        }
    }

    /// Starts one request attempt under a drawn identifier (`None` when none
    /// could be drawn).  The attempt records something exactly when it has
    /// both an identifier and a logical request; its request record then
    /// carries that identifier.
    pub fn start_attempt_with_id(
        &self,
        context: AttemptContext<'_>,
        logical: Option<&LogicalRequest>,
        attempt_id: Option<String>,
    ) -> (attempt: Attempt)
        ensures
            attempt.wf(),
            attempt.belongs_to(*self),
            attempt.log() == Seq::<RecordEvent>::empty(),
            !attempt.outcome_written(),
            attempt.attempt_id_view() is Some <==> (attempt_id is Some && logical is Some),
            attempt.attempt_id_view() is None <==> attempt.pending_request() is None,
            !attempt.random_source_failed(),
            attempt.pending_request() matches Option::Some(r) ==> {
                &&& r.request_fresh(*self, context, *logical.unwrap())
                &&& r.attempt_id@ == attempt_id.unwrap()@
            },
    {
        let request = match (attempt_id, logical) {
            (Option::Some(attempt_id), Option::Some(logical)) => Option::Some(
                RequestRecord {
                    schema_version: SCHEMA_VERSION,
                    event: "request",
                    run_id: self.run_id.clone(),
                    key_scope: self.key_scope.duplicate(),
                    attempt_id,
                    sequence: 0,
                    timestamp_unix_ms: Option::None,
                    request_kind: context.request_kind,
                    retry_ordinal: context.retry_ordinal,
                    lineage: LineageManifest::new(&self.fingerprinter, context),
                    logical: LogicalManifest::new(&self.fingerprinter, logical),
                    wire: WireManifest::missing(),
                    continuation: Option::None,
                    tool_provenance: Option::None,
                },
            ),
            _ => Option::None,
        };
        let attempt_id = match &request {
            Option::Some(record) => Option::Some(record.attempt_id.clone()),
            Option::None => Option::None,
        };
        Attempt {
            draw_failure: Option::None,
            attempt_id,
            request,
            outcome_written: false,
            collector_key: Ghost(self.key()),
            collector_run: Ghost(self.run_id@),
            log: Ghost(Seq::empty()),
        }
    }
}

/// Persisted projection of the tool provenance, with the catalog identity fingerprinted.
pub struct ToolProvenanceManifest {
    pub model_catalog: ModelCatalogManifest,
    pub role_file_read_failures: usize,
}

pub struct ModelCatalogManifest {
    pub preset_count: usize,
    pub lock_contention_fallback: bool,
    pub identity: ManifestObservation<Fingerprint>,
}

/// The immutable record of one request attempt.
pub struct RequestRecord {
    pub schema_version: u32,
    pub event: &'static str,
    pub run_id: String,
    pub key_scope: Fingerprint,
    pub attempt_id: String,
    pub sequence: u64,
    pub timestamp_unix_ms: Option<u64>,
    pub request_kind: RequestKind,
    pub retry_ordinal: u32,
    pub lineage: LineageManifest,
    pub logical: LogicalManifest,
    pub wire: WireManifest,
    pub continuation: Option<ContinuationReport>,
    pub tool_provenance: Option<ToolProvenanceManifest>,
}

impl RequestRecord {
    /// A request record as an attempt starts it: the run's identity, the
    /// context's lineage and the logical manifest, with no wire bytes yet.
    pub open spec fn request_fresh(
        self,
        collector: Collector,
        context: AttemptContext,
        logical: LogicalRequest,
    ) -> bool {
        &&& self.schema_version == SCHEMA_VERSION
        &&& self.event@ == "request"@
        &&& self.run_id@ == collector.run_id_view()
        &&& self.key_scope.hmac@ == collector.key_scope_view().hmac@
        &&& self.key_scope.bytes == collector.key_scope_view().bytes
        &&& self.sequence == 0
        &&& self.timestamp_unix_ms is None
        &&& self.request_kind == context.request_kind
        &&& self.retry_ordinal == context.retry_ordinal
        &&& self.lineage.describes(collector.key(), context)
        &&& self.logical.describes(collector.key(), logical)
        &&& self.wire matches WireManifest::Status { status } && status == ObservationStatus::Missing
        &&& self.continuation is None
        &&& self.tool_provenance is None
    }

    /// Stamps the record with its position in the file and the time it was written.
    pub fn set_metadata(&mut self, sequence: u64, timestamp_unix_ms: Option<u64>)
        ensures
            *final(self) == (RequestRecord { sequence, timestamp_unix_ms, ..*old(self) }),
    {
        self.sequence = sequence;
        self.timestamp_unix_ms = timestamp_unix_ms;
    }
}

/// Bounded terminal states of an attempt.
#[derive(Clone, Copy, Debug, PartialEq, Eq, Structural)]
pub enum TerminalStatus {
    Completed,
    Failed,
    Cancelled,
    Fallback,
}

/// The immutable outcome record of one attempt.
pub struct OutcomeRecord {
    pub schema_version: u32,
    pub event: &'static str,
    pub run_id: String,
    pub key_scope: Fingerprint,
    pub attempt_id: String,
    pub sequence: u64,
    pub timestamp_unix_ms: Option<u64>,
    pub terminal: TerminalStatus,
    pub response_id: ManifestObservation<Fingerprint>,
    pub usage: Option<TokenUsage>,
}

impl OutcomeRecord {
    /// Stamps the record with its position in the file and the time it was written.
    pub fn set_metadata(&mut self, sequence: u64, timestamp_unix_ms: Option<u64>)
        ensures
            *final(self) == (OutcomeRecord { sequence, timestamp_unix_ms, ..*old(self) }),
    {
        self.sequence = sequence;
        self.timestamp_unix_ms = timestamp_unix_ms;
    }
}

/// A record an attempt hands over to be appended, in order.
pub enum Record {
    Request(RequestRecord),
    Outcome(OutcomeRecord),
}

/// What an emitted record was, by attempt identifier.
pub ghost enum RecordEvent {
    Request(Seq<char>),
    Outcome(Seq<char>),
}

pub open spec fn event_of(record: Record) -> RecordEvent {
    match record {
        Record::Request(r) => RecordEvent::Request(r.attempt_id@),
        Record::Outcome(o) => RecordEvent::Outcome(o.attempt_id@),
    }
}

/// The events of a list of emitted records.
pub open spec fn events_of(records: Seq<Record>) -> Seq<RecordEvent> {
    records.map_values(|r: Record| event_of(r))
}

/// One in-flight diagnostic attempt.
pub struct Attempt {
    draw_failure: Option<RandomSourceFailure>,
    attempt_id: Option<String>,
    request: Option<RequestRecord>,
    outcome_written: bool,
    collector_key: Ghost<Seq<u8>>,
    collector_run: Ghost<Seq<char>>,
    log: Ghost<Seq<RecordEvent>>,
}

impl Attempt {
    /// The attempt holds the evidence that the random source failed to give
    /// it an identifier, which only a failed draw produces.
    pub closed spec fn random_source_failed(&self) -> bool {
        self.draw_failure is Some
    }

    /// The attempt's identifier, when it has one.
    pub closed spec fn attempt_id_view(&self) -> Option<Seq<char>> {
        match self.attempt_id {
            Option::None => Option::None,
            Option::Some(id) => Option::Some(id@),
        }
    }

    /// The request record not yet emitted.
    pub closed spec fn pending_request(&self) -> Option<RequestRecord> {
        self.request
    }

    pub closed spec fn outcome_written(&self) -> bool {
        self.outcome_written
    }

    /// Every record this attempt has emitted so far.
    pub closed spec fn log(&self) -> Seq<RecordEvent> {
        self.log@
    }

    pub closed spec fn belongs_to(&self, collector: Collector) -> bool {
        &&& self.collector_key@ == collector.key()
        &&& self.collector_run@ == collector.run_id_view()
    }

    /// The attempt's state agrees with what it has emitted: the request record
    /// first, once, and then at most one outcome for the same identifier.
    pub closed spec fn wf(&self) -> bool {
        match self.attempt_id {
            Option::None => self.request is None && self.log@ == Seq::<RecordEvent>::empty(),
            Option::Some(id) => {
                ||| self.request matches Option::Some(r) && r.attempt_id@ == id@
                    && self.log@ == Seq::<RecordEvent>::empty() && !self.outcome_written
                ||| self.request is None && !self.outcome_written && self.log@ == seq![
                    RecordEvent::Request(id@),
                ]
                ||| self.request is None && self.outcome_written && self.log@ == seq![
                    RecordEvent::Request(id@),
                    RecordEvent::Outcome(id@),
                ]
            },
        }
    }

    /// Attaches the continuation decision to the pending request record.
    ///
    /// Ignored once the record has been emitted; call before the wire send.
    pub fn record_continuation(&mut self, report: ContinuationReport)
        requires
            old(self).wf(),
        ensures
            final(self).wf(),
            forall|c: Collector| #[trigger] old(self).belongs_to(c) ==> final(self).belongs_to(c),
            final(self).log() == old(self).log(),
            final(self).attempt_id_view() == old(self).attempt_id_view(),
            final(self).outcome_written() == old(self).outcome_written(),
            final(self).belongs_to_same(*old(self)),
            match old(self).pending_request() {
                Option::None => final(self).pending_request() is None,
                Option::Some(r) => final(self).pending_request() == Option::Some(
                    RequestRecord { continuation: Option::Some(report), ..r },
                ),
            },
    {
        match self.request.take() {
            Option::Some(mut record) => {
                record.continuation = Option::Some(report);
                self.request = Option::Some(record);
            },
            Option::None => {},
        }
    }

    pub closed spec fn belongs_to_same(&self, other: Attempt) -> bool {
        &&& self.collector_key@ == other.collector_key@
        &&& self.collector_run@ == other.collector_run@
    }

    /// Attaches tool-construction provenance to the pending request record,
    /// with the catalog identity fingerprinted under `toolProvenance.modelCatalog`.
    ///
    /// Ignored once the record has been emitted; call before the wire send.
    pub fn record_tool_provenance(&mut self, collector: &Collector, provenance: ToolProvenance<'_>)
        requires
            old(self).wf(),
            old(self).belongs_to(*collector),
        ensures
            final(self).wf(),
            final(self).belongs_to(*collector),
            final(self).log() == old(self).log(),
            final(self).attempt_id_view() == old(self).attempt_id_view(),
            final(self).outcome_written() == old(self).outcome_written(),
            final(self).belongs_to_same(*old(self)),
            match old(self).pending_request() {
                Option::None => final(self).pending_request() is None,
                Option::Some(r) => {
                    &&& final(self).pending_request() matches Option::Some(n)
                    &&& n == (RequestRecord { tool_provenance: n.tool_provenance, ..r })
                    &&& n.tool_provenance matches Option::Some(p)
                    &&& p.role_file_read_failures == provenance.role_file_read_failures
                    &&& p.model_catalog.preset_count == provenance.model_preset_count
                    &&& p.model_catalog.lock_contention_fallback
                        == provenance.model_catalog_lock_contention_fallback
                    &&& optional_describes(
                        p.model_catalog.identity,
                        collector.key(),
                        "toolProvenance.modelCatalog".spec_bytes(),
                        slice_bytes(provenance.model_catalog_identity),
                    )
                },
            },
    {
        let identity = optional_byte_slice(
            collector.fingerprinter(),
            "toolProvenance.modelCatalog".as_bytes(),
            provenance.model_catalog_identity,
        );
        match self.request.take() {
            Option::Some(mut record) => {
                record.tool_provenance = Option::Some(
                    ToolProvenanceManifest {
                        model_catalog: ModelCatalogManifest {
                            preset_count: provenance.model_preset_count,
                            lock_contention_fallback: provenance.model_catalog_lock_contention_fallback,
                            identity,
                        },
                        role_file_read_failures: provenance.role_file_read_failures,
                    },
                );
                self.request = Option::Some(record);
            },
            Option::None => {},
        }
    }

    /// Emits the immutable request record with the exact observed bytes.
    ///
    /// Duplicate or late observations emit nothing: an emitted request record
    /// is never rewritten.
    pub fn observe_wire_request(&mut self, collector: &Collector, request: WireRequest<'_>) -> (records:
        Vec<Record>)
        requires
            old(self).wf(),
            old(self).belongs_to(*collector),
        ensures
            final(self).wf(),
            final(self).belongs_to(*collector),
            final(self).belongs_to_same(*old(self)),
            final(self).attempt_id_view() == old(self).attempt_id_view(),
            final(self).outcome_written() == old(self).outcome_written(),
            final(self).pending_request() is None,
            final(self).log() == old(self).log() + events_of(records@),
            match old(self).pending_request() {
                Option::None => records@.len() == 0,
                Option::Some(r) => {
                    &&& records@.len() == 1
                    &&& records@[0] matches Record::Request(n)
                    &&& n == (RequestRecord { wire: n.wire, ..r })
                    &&& n.wire.wire_observed(collector.key(), request)
                },
            },
    {
        let wire = WireManifest::observed(collector.fingerprinter(), request);
        self.observe_wire_manifest(wire)
    }

    /// Emits the immutable request record with the exact bytes and the
    /// bounded transport facts of the send.
    pub fn observe_transport_request(&mut self, collector: &Collector, request: TransportRequest<'_>) -> (records:
        Vec<Record>)
        requires
            old(self).wf(),
            old(self).belongs_to(*collector),
        ensures
            final(self).wf(),
            final(self).belongs_to(*collector),
            final(self).belongs_to_same(*old(self)),
            final(self).attempt_id_view() == old(self).attempt_id_view(),
            final(self).outcome_written() == old(self).outcome_written(),
            final(self).pending_request() is None,
            final(self).log() == old(self).log() + events_of(records@),
            match old(self).pending_request() {
                Option::None => records@.len() == 0,
                Option::Some(r) => {
                    &&& records@.len() == 1
                    &&& records@[0] matches Record::Request(n)
                    &&& n == (RequestRecord { wire: n.wire, ..r })
                    &&& n.wire.transport_observed(collector.key(), request)
                },
            },
    {
        let wire = WireManifest::observed_transport(collector.fingerprinter(), request);
        self.observe_wire_manifest(wire)
    }

    fn observe_wire_manifest(&mut self, wire: WireManifest) -> (records: Vec<Record>)
        requires
            old(self).wf(),
        ensures
            final(self).wf(),
            final(self).belongs_to_same(*old(self)),
            final(self).attempt_id_view() == old(self).attempt_id_view(),
            final(self).outcome_written() == old(self).outcome_written(),
            final(self).pending_request() is None,
            final(self).log() == old(self).log() + events_of(records@),
            match old(self).pending_request() {
                Option::None => records@.len() == 0,
                Option::Some(r) => records@ == seq![
                    Record::Request(RequestRecord { wire, ..r }),
                ],
            },
    {
        let mut records: Vec<Record> = Vec::new();
        match self.request.take() {
            Option::None => {
                assert(events_of(records@) == Seq::<RecordEvent>::empty());
            },
            Option::Some(mut record) => {
                record.wire = wire;
                let ghost id = record.attempt_id@;
                records.push(Record::Request(record));
                self.log = Ghost(self.log@.push(RecordEvent::Request(id)));
                assert(events_of(records@) == seq![RecordEvent::Request(id)]);
            },
        }
        records
    }

    /// Records a completed outcome and links it to this attempt.
    pub fn completed(&mut self, collector: &Collector, outcome: CompletedOutcome<'_>) -> (records:
        Vec<Record>)
        requires
            old(self).wf(),
            old(self).belongs_to(*collector),
        ensures
            final(self).wf(),
            final(self).belongs_to(*collector),
            final(self).log() == old(self).log() + events_of(records@),
            outcome_emitted(
                *old(self),
                *final(self),
                *collector,
                records@,
                TerminalStatus::Completed,
                str_bytes(outcome.response_id),
                Option::Some(outcome.usage),
            ),
    {
        self.write_outcome(collector, TerminalStatus::Completed, outcome.response_id, Option::Some(outcome.usage))
    }

    /// Records a successful terminal response that did not report token usage.
    pub fn completed_without_usage(&mut self, collector: &Collector, response_id: Option<&str>) -> (records:
        Vec<Record>)
        requires
            old(self).wf(),
            old(self).belongs_to(*collector),
        ensures
            final(self).wf(),
            final(self).belongs_to(*collector),
            final(self).log() == old(self).log() + events_of(records@),
            outcome_emitted(
                *old(self),
                *final(self),
                *collector,
                records@,
                TerminalStatus::Completed,
                str_bytes(response_id),
                Option::None,
            ),
    {
        self.write_outcome(collector, TerminalStatus::Completed, response_id, Option::None)
    }

    /// Records a non-successful terminal outcome and links it to this attempt.
    pub fn terminal(&mut self, collector: &Collector, outcome: TerminalOutcome) -> (records: Vec<Record>)
        requires
            old(self).wf(),
            old(self).belongs_to(*collector),
        ensures
            final(self).wf(),
            final(self).belongs_to(*collector),
            final(self).log() == old(self).log() + events_of(records@),
            outcome_emitted(
                *old(self),
                *final(self),
                *collector,
                records@,
                terminal_status(outcome),
                Option::None,
                Option::None,
            ),
    {
        let terminal = match outcome {
            TerminalOutcome::Failed => TerminalStatus::Failed,
            TerminalOutcome::Cancelled => TerminalStatus::Cancelled,
            TerminalOutcome::Fallback => TerminalStatus::Fallback,
        };
        self.write_outcome(collector, terminal, Option::None, Option::None)
    }

    fn write_outcome(
        &mut self,
        collector: &Collector,
        terminal: TerminalStatus,
        response_id: Option<&str>,
        usage: Option<TokenUsage>,
    ) -> (records: Vec<Record>)
        requires
            old(self).wf(),
            old(self).belongs_to(*collector),
        ensures
            final(self).wf(),
            final(self).belongs_to(*collector),
            final(self).log() == old(self).log() + events_of(records@),
            outcome_emitted(
                *old(self),
                *final(self),
                *collector,
                records@,
                terminal,
                str_bytes(response_id),
                usage,
            ),
    {
        let mut records: Vec<Record> = Vec::new();
        if self.outcome_written {
            assert(events_of(records@) == Seq::<RecordEvent>::empty());
            return records;
        }
        let attempt_id = match &self.attempt_id {
            Option::None => {
                self.outcome_written = true;
                assert(events_of(records@) == Seq::<RecordEvent>::empty());
                return records;
            },
            Option::Some(id) => id.clone(),
        };
        let ghost start = self.log@;
        let ghost id_view = attempt_id@;
        let ghost had_request = self.request is Some;
        match self.request.take() {
            Option::Some(request) => {
                records.push(Record::Request(request));
            },
            Option::None => {},
        }
        let outcome = OutcomeRecord {
            schema_version: SCHEMA_VERSION,
            event: "outcome",
            run_id: collector.run_id.clone(),
            key_scope: collector.key_scope.duplicate(),
            attempt_id,
            sequence: 0,
            timestamp_unix_ms: Option::None,
            terminal,
            response_id: optional_identity(
                collector.fingerprinter(),
                "identity.response".as_bytes(),
                response_id,
            ),
            usage,
        };
        records.push(Record::Outcome(outcome));
        self.outcome_written = true;
        proof {
            if had_request {
                assert(events_of(records@) =~= seq![
                    RecordEvent::Request(id_view),
                    RecordEvent::Outcome(id_view),
                ]);
                assert(start == Seq::<RecordEvent>::empty());
            } else {
                assert(events_of(records@) =~= seq![RecordEvent::Outcome(id_view)]);
                assert(start == seq![RecordEvent::Request(id_view)]);
            }
        }
        self.log = Ghost(start + events_of(records@));
        assert(self.log@ =~= seq![RecordEvent::Request(id_view), RecordEvent::Outcome(id_view)]);
        assert(self.attempt_id.unwrap()@ == id_view);
        records
    }
}

/// An attempt emits at most one request record and at most one outcome
/// record; an outcome always follows the request record and carries the same
/// attempt identifier, and once anything was emitted no request is pending.
pub proof fn lemma_attempt_records_are_linked(attempt: Attempt)
    requires
        attempt.wf(),
    ensures
        attempt.log().len() <= 2,
        attempt.log().len() > 0 ==> attempt.pending_request() is None,
        attempt.log().len() > 0 ==> attempt.attempt_id_view() is Some && attempt.log()[0]
            == RecordEvent::Request(attempt.attempt_id_view().unwrap()),
        attempt.log().len() == 2 ==> attempt.log()[1] == RecordEvent::Outcome(
            attempt.attempt_id_view().unwrap(),
        ),
        attempt.outcome_written() && attempt.attempt_id_view() is Some ==> attempt.log().len() == 2,
{
}

/// Notifying an attempt's end a second time emits nothing: a duplicate
/// terminal notification cannot write a second outcome.
pub proof fn lemma_second_ending_emits_nothing(
    first: Attempt,
    second: Attempt,
    third: Attempt,
    collector: Collector,
    first_records: Seq<Record>,
    second_records: Seq<Record>,
    first_terminal: TerminalStatus,
    second_terminal: TerminalStatus,
    first_response: Option<Seq<u8>>,
    second_response: Option<Seq<u8>>,
    first_usage: Option<TokenUsage>,
    second_usage: Option<TokenUsage>,
)
    requires
        outcome_emitted(
            first,
            second,
            collector,
            first_records,
            first_terminal,
            first_response,
            first_usage,
        ),
        outcome_emitted(
            second,
            third,
            collector,
            second_records,
            second_terminal,
            second_response,
            second_usage,
        ),
    ensures
        second_records.len() == 0,
        third.outcome_written(),
{
}

pub open spec fn terminal_status(outcome: TerminalOutcome) -> TerminalStatus {
    match outcome {
        TerminalOutcome::Failed => TerminalStatus::Failed,
        TerminalOutcome::Cancelled => TerminalStatus::Cancelled,
        TerminalOutcome::Fallback => TerminalStatus::Fallback,
    }
}

/// The outcome record an attempt writes when it ends with `terminal`.
pub open spec fn outcome_fields(
    o: OutcomeRecord,
    collector: Collector,
    attempt_id: Seq<char>,
    terminal: TerminalStatus,
    response_id: Option<Seq<u8>>,
    usage: Option<TokenUsage>,
) -> bool {
    &&& o.schema_version == SCHEMA_VERSION
    &&& o.event@ == "outcome"@
    &&& o.run_id@ == collector.run_id_view()
    &&& o.key_scope.hmac@ == collector.key_scope_view().hmac@
    &&& o.key_scope.bytes == collector.key_scope_view().bytes
    &&& o.attempt_id@ == attempt_id
    &&& o.sequence == 0
    &&& o.timestamp_unix_ms is None
    &&& o.terminal == terminal
    &&& optional_describes(o.response_id, collector.key(), "identity.response".spec_bytes(), response_id)
    &&& o.usage == usage
}

/// What ending an attempt emits: nothing once an outcome was written or when
/// the attempt has no identifier; otherwise the still-pending request record
/// (with its wire marked missing) followed by exactly one outcome record.
pub open spec fn outcome_emitted(
    before: Attempt,
    after: Attempt,
    collector: Collector,
    records: Seq<Record>,
    terminal: TerminalStatus,
    response_id: Option<Seq<u8>>,
    usage: Option<TokenUsage>,
) -> bool {
    &&& after.outcome_written()
    &&& after.pending_request() is None
    &&& after.attempt_id_view() == before.attempt_id_view()
    &&& after.belongs_to_same(before)
    &&& if before.outcome_written() || before.attempt_id_view() is None {
        records.len() == 0
    } else {
        let id = before.attempt_id_view().unwrap();
        let outcome_index = if before.pending_request() is Some { 1int } else { 0int };
        &&& records.len() == outcome_index + 1
        &&& (before.pending_request() matches Option::Some(r) ==> records[0] == Record::Request(r))
        &&& records[outcome_index] matches Record::Outcome(o) && outcome_fields(
            o,
            collector,
            id,
            terminal,
            response_id,
            usage,
        )
    }
}

} // verus!
