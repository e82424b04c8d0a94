//! Manifests: the persisted, fingerprint-only projections of request values.

use vstd::prelude::*;
use vstd::string::StringSliceAdditionalSpecFns;
use crate::fingerprint::{
    append_bytes, digest_of, entry_bytes, hmac_text, Fingerprint, Fingerprinter,
};
use crate::transport::TransportManifest;
use crate::types::{TransportMetadata, TransportRequest, WireRequest, WireRequestKind};

verus! {

/// How many leading list items keep a fingerprint of their own.
pub const RETAINED_LEAVES: usize = 1024;

/// Why a value has no fingerprint.
#[derive(Clone, Copy, Debug, PartialEq, Eq, Structural)]
pub enum ObservationStatus {
    /// The value was absent.
    Missing,
    /// The value was present but could not be observed.
    Unavailable,
}

/// Either an observed projection or the reason there is none.
pub enum ManifestObservation<T> {
    Observed(T),
    Status { status: ObservationStatus },
}

impl<T> ManifestObservation<T> {
    pub open spec fn is_status(self, status: ObservationStatus) -> bool {
        self matches ManifestObservation::Status { status: s } && s == status
    }
}

/// A fingerprint of `value` under `domain` when it is present, `missing` when it is not.
pub open spec fn optional_describes(
    obs: ManifestObservation<Fingerprint>,
    key: Seq<u8>,
    domain: Seq<u8>,
    value: Option<Seq<u8>>,
) -> bool {
    match value {
        Option::None => obs.is_status(ObservationStatus::Missing),
        Option::Some(v) => obs matches ManifestObservation::Observed(f) && f.describes(key, domain, v),
    }
}

/// The bytes of an optional string.
pub open spec fn str_bytes(value: Option<&str>) -> Option<Seq<u8>> {
    match value {
        Option::None => Option::None,
        Option::Some(s) => Option::Some(s.spec_bytes()),
    }
}

/// The bytes of an optional byte slice.
pub open spec fn slice_bytes(value: Option<&[u8]>) -> Option<Seq<u8>> {
    match value {
        Option::None => Option::None,
        Option::Some(s) => Option::Some(s@),
    }
}

/// Fingerprints an optional identity string under `domain`.
pub fn optional_identity(
    fingerprinter: &Fingerprinter,
    domain: &[u8],
    value: Option<&str>,
) -> (obs: ManifestObservation<Fingerprint>)
    ensures
        optional_describes(obs, fingerprinter.key(), domain@, str_bytes(value)),
{
    match value {
        Option::None => ManifestObservation::Status { status: ObservationStatus::Missing },
        Option::Some(v) => ManifestObservation::Observed(
            fingerprinter.fingerprint_bytes(domain, v.as_bytes()),
        ),
    }
}

/// Fingerprints optional raw bytes under `domain`.
pub fn optional_byte_slice(
    fingerprinter: &Fingerprinter,
    domain: &[u8],
    value: Option<&[u8]>,
) -> (obs: ManifestObservation<Fingerprint>)
    ensures
        optional_describes(obs, fingerprinter.key(), domain@, slice_bytes(value)),
{
    match value {
        Option::None => ManifestObservation::Status { status: ObservationStatus::Missing },
        Option::Some(v) => ManifestObservation::Observed(fingerprinter.fingerprint_bytes(domain, v)),
    }
}

/// The views of a list of byte vectors.
pub open spec fn views(items: Seq<Vec<u8>>) -> Seq<Seq<u8>> {
    items.map_values(|v: Vec<u8>| v@)
}

/// Items separated by commas.
pub open spec fn join_commas(items: Seq<Seq<u8>>) -> Seq<u8>
    decreases items.len(),
{
    if items.len() == 0 {
        Seq::empty()
    } else if items.len() == 1 {
        items[0]
    } else {
        join_commas(items.drop_last()) + seq![44u8] + items.last()
    }
}

/// The compact JSON array whose elements are the given serialized values.
pub open spec fn json_array(items: Seq<Seq<u8>>) -> Seq<u8> {
    seq![91u8] + join_commas(items) + seq![93u8]
}

/// Frames already-serialized values as one compact JSON array.
pub fn json_array_bytes(items: &[Vec<u8>]) -> (out: Vec<u8>)
    ensures
        out@ == json_array(views(items@)),
{
    let ghost all = views(items@);
    let mut out: Vec<u8> = vec![91u8];
    let mut i: usize = 0;
    while i < items.len()
        invariant
            i <= items@.len(),
            all == views(items@),
            out@ == seq![91u8] + join_commas(all.take(i as int)),
        decreases items@.len() - i,
    {
        let ghost prefix = all.take(i as int);
        if i > 0 {
            out.push(44u8);
        }
        append_bytes(&mut out, items[i].as_slice());
        proof {
            let next = all.take(i + 1);
            assert(next.drop_last() == prefix);
            assert(next.last() == items@[i as int]@);
            if i == 0 {
                assert(join_commas(next) == items@[0]@);
            }
        }
        i = i + 1;
    }
    out.push(93u8);
    assert(all.take(items@.len() as int) == all);
    out
}

/// The count and combined digest of list items beyond the retained ones.
pub struct OmittedManifest {
    pub count: usize,
    pub hmac: String,
}

/// The bounded manifest of a list: a body fingerprint, the leading items'
/// fingerprints, and one digest over every omitted item.
pub struct ListManifest {
    pub body: Fingerprint,
    pub count: usize,
    pub retained: Vec<Fingerprint>,
    pub omitted: OmittedManifest,
}

/// The entries absorbed for the omitted items in `[lo, hi)`.
pub open spec fn omitted_entries(
    key: Seq<u8>,
    item_domain: Seq<u8>,
    items: Seq<Seq<u8>>,
    lo: int,
    hi: int,
) -> Seq<u8>
    decreases hi - lo,
{
    if hi <= lo {
        Seq::empty()
    } else {
        omitted_entries(key, item_domain, items, lo, hi - 1) + entry_bytes(
            hi - 1,
            items[hi - 1].len() as int,
            digest_of(key, item_domain, items[hi - 1]),
        )
    }
}

pub open spec fn min_int(a: int, b: int) -> int {
    if a <= b { a } else { b }
}

impl ListManifest {
    /// The manifest of `items`: fingerprints of the body under `body_domain`,
    /// of each of the first `RETAINED_LEAVES` items under `item_domain`, and of
    /// the omitted tail's entries under `omitted_domain`.
    pub open spec fn describes(
        self,
        key: Seq<u8>,
        body_domain: Seq<u8>,
        item_domain: Seq<u8>,
        omitted_domain: Seq<u8>,
        items: Seq<Seq<u8>>,
    ) -> bool {
        &&& self.body.describes(key, body_domain, json_array(items))
        &&& self.describes_items(key, item_domain, omitted_domain, items)
    }

    /// Everything but the body: the count, the retained item fingerprints and
    /// the digest of the omitted tail.
    pub open spec fn describes_items(
        self,
        key: Seq<u8>,
        item_domain: Seq<u8>,
        omitted_domain: Seq<u8>,
        items: Seq<Seq<u8>>,
    ) -> bool {
        &&& self.count == items.len()
        &&& self.retained@.len() == min_int(items.len() as int, RETAINED_LEAVES as int)
        &&& forall|i: int|
            0 <= i < self.retained@.len() ==> #[trigger] self.retained@[i].describes(
                key,
                item_domain,
                items[i],
            )
        &&& self.omitted.count == items.len() - self.retained@.len()
        &&& self.omitted.hmac@ == hmac_text(
            key,
            omitted_domain,
            omitted_entries(key, item_domain, items, RETAINED_LEAVES as int, items.len() as int),
        )
    }
}

/// Builds the bounded manifest of a list of serialized values.
pub fn list_manifest(
    fingerprinter: &Fingerprinter,
    body_domain: &[u8],
    item_domain: &[u8],
    omitted_domain: &[u8],
    values: &[Vec<u8>],
) -> (manifest: ListManifest)
    ensures
        manifest.describes(
            fingerprinter.key(),
            body_domain@,
            item_domain@,
            omitted_domain@,
            views(values@),
        ),
{
    let ghost items = views(values@);
    let ghost key = fingerprinter.key();
    let body_bytes = json_array_bytes(values);
    let body = fingerprinter.fingerprint_bytes(body_domain, body_bytes.as_slice());
    let mut retained: Vec<Fingerprint> = Vec::new();
    let mut omitted = fingerprinter.stream(omitted_domain);
    let mut index: usize = 0;
    while index < values.len()
        invariant
            index <= values@.len(),
            items == views(values@),
            key == fingerprinter.key(),
            retained@.len() == min_int(index as int, RETAINED_LEAVES as int),
            forall|i: int|
                0 <= i < retained@.len() ==> #[trigger] retained@[i].describes(
                    key,
                    item_domain@,
                    items[i],
                ),
            omitted.wf(),
            omitted.key() == key,
            omitted.domain() == omitted_domain@,
            omitted.absorbed() == omitted_entries(
                key,
                item_domain@,
                items,
                RETAINED_LEAVES as int,
                index as int,
            ),
        decreases values@.len() - index,
    {
        let finished = fingerprinter.fingerprint_digest(item_domain, values[index].as_slice());
        assert(items[index as int] == values@[index as int]@);
        if index < RETAINED_LEAVES {
            retained.push(finished.fingerprint);
        } else {
            omitted.absorb_entry(index, &finished);
        }
        index = index + 1;
    }
    let omitted_fingerprint = omitted.finish();
    let count = values.len();
    let omitted_count = count - retained.len();
    ListManifest {
        body,
        count,
        retained,
        omitted: OmittedManifest { count: omitted_count, hmac: omitted_fingerprint.fingerprint.hmac },
    }
}

/// The exact wire observation of a request, or why there is none.
pub enum WireManifest {
    Observed {
        kind: WireRequestKind,
        body: Fingerprint,
        transport: ManifestObservation<TransportManifest>,
    },
    Status { status: ObservationStatus },
}

impl WireManifest {
    /// The exact bytes of `request`, with its transport facts unobserved.
    pub open spec fn wire_observed(self, key: Seq<u8>, request: WireRequest) -> bool {
        &&& self matches WireManifest::Observed { kind, body, transport }
        &&& kind == request.kind
        &&& body.describes(key, "wire.body".spec_bytes(), request.body@)
        &&& transport.is_status(ObservationStatus::Unavailable)
    }

    /// The exact bytes of `request` with its bounded transport facts.
    pub open spec fn transport_observed(self, key: Seq<u8>, request: TransportRequest) -> bool {
        &&& self matches WireManifest::Observed { kind, body, transport }
        &&& body.describes(key, "wire.body".spec_bytes(), request.body@)
        &&& transport matches ManifestObservation::Observed(t)
        &&& match request.transport {
            TransportMetadata::Http { endpoint, compression, identity } => {
                &&& kind == WireRequestKind::Http
                &&& t.endpoint == endpoint
                &&& t.compression == ManifestObservation::Observed(compression)
                &&& t.connection_reused.is_status(ObservationStatus::Unavailable)
                &&& t.incremental.is_status(ObservationStatus::Unavailable)
                &&& t.identity.describes(key, identity)
            },
            TransportMetadata::Websocket {
                endpoint,
                connection_reused,
                incremental,
                identity,
            } => {
                &&& kind == WireRequestKind::Websocket
                &&& t.endpoint == endpoint
                &&& t.compression.is_status(ObservationStatus::Unavailable)
                &&& t.connection_reused == ManifestObservation::Observed(connection_reused)
                &&& t.incremental == ManifestObservation::Observed(incremental)
                &&& t.identity.describes(key, identity)
            },
        }
    }

    /// The marker recorded when no wire bytes were observed.
    pub fn missing() -> (wire: WireManifest)
        ensures
            wire matches WireManifest::Status { status } && status == ObservationStatus::Missing,
    {
        WireManifest::Status { status: ObservationStatus::Missing }
    }

    /// The exact bytes of a send whose transport facts were not observed.
    pub fn observed(fingerprinter: &Fingerprinter, request: WireRequest<'_>) -> (wire: WireManifest)
        ensures
            wire.wire_observed(fingerprinter.key(), request),
    {
        WireManifest::Observed {
            kind: request.kind,
            body: fingerprinter.fingerprint_bytes("wire.body".as_bytes(), request.body),
            transport: ManifestObservation::Status { status: ObservationStatus::Unavailable },
        }
    }

    /// The exact bytes of a send together with its bounded transport facts.
    pub fn observed_transport(fingerprinter: &Fingerprinter, request: TransportRequest<'_>) -> (wire:
        WireManifest)
        ensures
            wire.transport_observed(fingerprinter.key(), request),
    {
        let (kind, transport) = match request.transport {
            TransportMetadata::Http { endpoint, compression, identity } => (
                WireRequestKind::Http,
                TransportManifest::http(fingerprinter, endpoint, compression, identity),
            ),
            TransportMetadata::Websocket { endpoint, connection_reused, incremental, identity } => (
                WireRequestKind::Websocket,
                TransportManifest::websocket(
                    fingerprinter,
                    endpoint,
                    connection_reused,
                    incremental,
                    identity,
                ),
            ),
        };
        WireManifest::Observed {
            kind,
            body: fingerprinter.fingerprint_bytes("wire.body".as_bytes(), request.body),
            transport: ManifestObservation::Observed(transport),
        }
    }
}

} // verus!
