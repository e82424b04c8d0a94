//! Transport manifests: bounded send facts and domain-separated identity fingerprints.

use vstd::prelude::*;
use vstd::string::StringSliceAdditionalSpecFns;
use crate::fingerprint::{Fingerprint, Fingerprinter};
use crate::manifest::{
    optional_byte_slice, optional_describes, slice_bytes, ManifestObservation, ObservationStatus,
};
use crate::types::{CompressionKind, EndpointKind, TransportIdentity};

verus! {

/// Identity fields of a send, each fingerprinted under its own domain.
pub struct TransportIdentityManifest {
    pub session_id: ManifestObservation<Fingerprint>,
    pub thread_id: ManifestObservation<Fingerprint>,
    pub client_request_id: ManifestObservation<Fingerprint>,
    pub subagent: ManifestObservation<Fingerprint>,
    pub routing_hint: ManifestObservation<Fingerprint>,
    pub responses_lite: ManifestObservation<Fingerprint>,
    pub previous_response_id: ManifestObservation<Fingerprint>,
    pub originator: ManifestObservation<Fingerprint>,
    pub user_agent: ManifestObservation<Fingerprint>,
}

impl TransportIdentityManifest {
    pub open spec fn describes(self, key: Seq<u8>, identity: TransportIdentity) -> bool {
        &&& optional_describes(
            self.session_id,
            key,
            "transport.identity.session".spec_bytes(),
            slice_bytes(identity.session_id),
        )
        &&& optional_describes(
            self.thread_id,
            key,
            "transport.identity.thread".spec_bytes(),
            slice_bytes(identity.thread_id),
        )
        &&& optional_describes(
            self.client_request_id,
            key,
            "transport.identity.client_request".spec_bytes(),
            slice_bytes(identity.client_request_id),
        )
        &&& optional_describes(
            self.subagent,
            key,
            "transport.identity.subagent".spec_bytes(),
            slice_bytes(identity.subagent),
        )
        &&& optional_describes(
            self.routing_hint,
            key,
            "transport.identity.routing_hint".spec_bytes(),
            slice_bytes(identity.routing_hint),
        )
        &&& optional_describes(
            self.responses_lite,
            key,
            "transport.identity.responses_lite".spec_bytes(),
            slice_bytes(identity.responses_lite),
        )
        &&& optional_describes(
            self.previous_response_id,
            key,
            "transport.identity.previous_response".spec_bytes(),
            slice_bytes(identity.previous_response_id),
        )
        &&& optional_describes(
            self.originator,
            key,
            "transport.identity.originator".spec_bytes(),
            slice_bytes(identity.originator),
        )
        &&& optional_describes(
            self.user_agent,
            key,
            "transport.identity.user_agent".spec_bytes(),
            slice_bytes(identity.user_agent),
        )
    }

    /// Fingerprints every present identity field under its own domain.
    pub fn new(fingerprinter: &Fingerprinter, identity: TransportIdentity<'_>) -> (manifest: Self)
        ensures
            manifest.describes(fingerprinter.key(), identity),
    {
        TransportIdentityManifest {
            session_id: optional_byte_slice(
                fingerprinter,
                "transport.identity.session".as_bytes(),
                identity.session_id,
            ),
            thread_id: optional_byte_slice(
                fingerprinter,
                "transport.identity.thread".as_bytes(),
                identity.thread_id,
            ),
            client_request_id: optional_byte_slice(
                fingerprinter,
                "transport.identity.client_request".as_bytes(),
                identity.client_request_id,
            ),
            subagent: optional_byte_slice(
                fingerprinter,
                "transport.identity.subagent".as_bytes(),
                identity.subagent,
            ),
            routing_hint: optional_byte_slice(
                fingerprinter,
                "transport.identity.routing_hint".as_bytes(),
                identity.routing_hint,
            ),
            responses_lite: optional_byte_slice(
                fingerprinter,
                "transport.identity.responses_lite".as_bytes(),
                identity.responses_lite,
            ),
            previous_response_id: optional_byte_slice(
                fingerprinter,
                "transport.identity.previous_response".as_bytes(),
                identity.previous_response_id,
            ),
            originator: optional_byte_slice(
                fingerprinter,
                "transport.identity.originator".as_bytes(),
                identity.originator,
            ),
            user_agent: optional_byte_slice(
                fingerprinter,
                "transport.identity.user_agent".as_bytes(),
                identity.user_agent,
            ),
        }
    }
}

/// The bounded facts of one send.  Facts a transport does not have are
/// recorded as unavailable rather than guessed.
pub struct TransportManifest {
    pub endpoint: EndpointKind,
    pub compression: ManifestObservation<CompressionKind>,
    pub connection_reused: ManifestObservation<bool>,
    pub incremental: ManifestObservation<bool>,
    pub identity: TransportIdentityManifest,
}

impl TransportManifest {
    /// The facts of an HTTP send: compression is known, connection reuse and
    /// incrementality are not.
    pub fn http(
        fingerprinter: &Fingerprinter,
        endpoint: EndpointKind,
        compression: CompressionKind,
        identity: TransportIdentity<'_>,
    ) -> (manifest: Self)
        ensures
            manifest.endpoint == endpoint,
            manifest.compression == ManifestObservation::Observed(compression),
            manifest.connection_reused.is_status(ObservationStatus::Unavailable),
            manifest.incremental.is_status(ObservationStatus::Unavailable),
            manifest.identity.describes(fingerprinter.key(), identity),
    {
        TransportManifest {
            endpoint,
            compression: ManifestObservation::Observed(compression),
            connection_reused: ManifestObservation::Status { status: ObservationStatus::Unavailable },
            incremental: ManifestObservation::Status { status: ObservationStatus::Unavailable },
            identity: TransportIdentityManifest::new(fingerprinter, identity),
        }
    }

    /// The facts of a WebSocket send: reuse and incrementality are known,
    /// compression is not.
    pub fn websocket(
        fingerprinter: &Fingerprinter,
        endpoint: EndpointKind,
        connection_reused: bool,
        incremental: bool,
        identity: TransportIdentity<'_>,
    ) -> (manifest: Self)
        ensures
            manifest.endpoint == endpoint,
            manifest.compression.is_status(ObservationStatus::Unavailable),
            manifest.connection_reused == ManifestObservation::Observed(connection_reused),
            manifest.incremental == ManifestObservation::Observed(incremental),
            manifest.identity.describes(fingerprinter.key(), identity),
    {
        TransportManifest {
            endpoint,
            compression: ManifestObservation::Status { status: ObservationStatus::Unavailable },
            connection_reused: ManifestObservation::Observed(connection_reused),
            incremental: ManifestObservation::Observed(incremental),
            identity: TransportIdentityManifest::new(fingerprinter, identity),
        }
    }
}

} // verus!
