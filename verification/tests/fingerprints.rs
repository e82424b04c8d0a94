use cache_diagnostics::encoding::le64_bytes;
use cache_diagnostics::fingerprint::Fingerprinter;
use cache_diagnostics::manifest::{json_array_bytes, list_manifest, RETAINED_LEAVES};
use cache_diagnostics::transport::TransportIdentityManifest;
use cache_diagnostics::types::TransportIdentity;

fn fixture_fingerprinter() -> Fingerprinter {
    Fingerprinter::new(&[7u8; 32])
}

#[test]
fn little_endian_bytes_of_a_u64() {
    assert_eq!(le64_bytes(258), vec![2, 1, 0, 0, 0, 0, 0, 0]);
    assert_eq!(le64_bytes(u64::MAX), vec![255; 8]);
    assert_eq!(le64_bytes(0), vec![0; 8]);
}

#[test]
fn fingerprints_are_hmac_sha256_of_the_framed_payload() {
    let fingerprinter = fixture_fingerprinter();
    let compact = fingerprinter.fingerprint_bytes(b"wire.body", br#"{"a":1,"b":2}"#);
    assert_eq!(compact.hmac, "MmskAKJB9P9p9jHr9hMMo54mPmJ7Xcr18Sf2oFZctEM");
    assert_eq!(compact.bytes, 13);
    let spaced = fingerprinter.fingerprint_bytes(b"wire.body", br#"{ "a": 1, "b": 2 }"#);
    assert_eq!(spaced.hmac, "_7nwO1Amq7BY4XRuP2TDkk1Q7HLE4UMAnQvx2bdNGZc");
    assert_eq!(spaced.bytes, 18);
}

#[test]
fn domains_separate_equal_payloads() {
    let fingerprinter = fixture_fingerprinter();
    let session = fingerprinter.fingerprint_bytes(b"transport.identity.session", b"s-1");
    let thread = fingerprinter.fingerprint_bytes(b"transport.identity.thread", b"s-1");
    assert_eq!(session.hmac, "_E7FErT0m5Ul73qevfIzBQTCTpT-bDMsEg2rdJXe75Y");
    assert_eq!(thread.hmac, "CpWthj4ElMCNKbiBviBwilY9huhGFDiYQwScqBPfCVs");
    assert_ne!(session.hmac, thread.hmac);
}

#[test]
fn a_stream_fingerprints_what_it_absorbed() {
    let fingerprinter = fixture_fingerprinter();
    let mut stream = fingerprinter.stream(b"wire.body");
    stream.absorb(br#"{"a":1,"#);
    stream.absorb(br#""b":2}"#);
    let finished = stream.finish();
    assert_eq!(finished.fingerprint.hmac, "MmskAKJB9P9p9jHr9hMMo54mPmJ7Xcr18Sf2oFZctEM");
    assert_eq!(finished.fingerprint.bytes, 13);
    assert_eq!(finished.digest.len(), 32);
    let digest = fingerprinter.fingerprint_digest(b"wire.body", br#"{"a":1,"b":2}"#);
    assert_eq!(digest.digest, finished.digest);
}

#[test]
fn a_duplicate_keeps_digest_and_length() {
    let fingerprinter = fixture_fingerprinter();
    let first = fingerprinter.fingerprint_bytes(b"identity.response", b"resp-1");
    let copy = first.duplicate();
    assert_eq!(copy.hmac, "XCZgnD1EPxSPvGb8XycVBCn2gxpTp9qt2Dqa-7eHfMc");
    assert_eq!(copy.bytes, 6);
}

#[test]
fn json_array_frames_items_with_commas() {
    assert_eq!(json_array_bytes(&[]), b"[]".to_vec());
    assert_eq!(json_array_bytes(&[b"1".to_vec()]), b"[1]".to_vec());
    assert_eq!(
        json_array_bytes(&[b"{\"a\":1}".to_vec(), b"2".to_vec(), b"\"x\"".to_vec()]),
        b"[{\"a\":1},2,\"x\"]".to_vec()
    );
}

#[test]
fn list_manifest_retains_leading_items_and_digests_the_rest() {
    let fingerprinter = fixture_fingerprinter();
    let values: Vec<Vec<u8>> = (0..RETAINED_LEAVES + 3).map(|index| format!("{index}").into_bytes()).collect();
    let manifest = list_manifest(&fingerprinter, b"list", b"list.item", b"list.omitted", &values);
    assert_eq!(manifest.count, RETAINED_LEAVES + 3);
    assert_eq!(manifest.retained.len(), RETAINED_LEAVES);
    assert_eq!(manifest.omitted.count, 3);
    assert_eq!(manifest.retained[5].hmac, fingerprinter.fingerprint_bytes(b"list.item", b"5").hmac);
    assert_eq!(manifest.body.bytes, json_array_bytes(&values).len());

    let mut changed = values.clone();
    *changed.last_mut().unwrap() = b"tail".to_vec();
    let other = list_manifest(&fingerprinter, b"list", b"list.item", b"list.omitted", &changed);
    assert_ne!(manifest.omitted.hmac, other.omitted.hmac);
    assert_eq!(manifest.retained[0].hmac, other.retained[0].hmac);

    let short = list_manifest(&fingerprinter, b"list", b"list.item", b"list.omitted", &values[..2]);
    assert_eq!(short.retained.len(), 2);
    assert_eq!(short.omitted.count, 0);
    assert_eq!(short.omitted.hmac, fingerprinter.fingerprint_bytes(b"list.omitted", b"").hmac);
}

#[test]
fn absent_identity_fields_are_missing() {
    let fingerprinter = fixture_fingerprinter();
    let identity = TransportIdentity { session_id: Some(b"s-1"), ..TransportIdentity::default() };
    let manifest = TransportIdentityManifest::new(&fingerprinter, identity);
    match &manifest.session_id {
        cache_diagnostics::manifest::ManifestObservation::Observed(fingerprint) => {
            assert_eq!(fingerprint.hmac, "_E7FErT0m5Ul73qevfIzBQTCTpT-bDMsEg2rdJXe75Y");
        },
        _ => panic!("session should be fingerprinted"),
    }
    assert!(matches!(
        manifest.thread_id,
        cache_diagnostics::manifest::ManifestObservation::Status {
            status: cache_diagnostics::manifest::ObservationStatus::Missing
        }
    ));
}
