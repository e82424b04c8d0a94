use cache_diagnostics::fingerprint::Fingerprinter;
use cache_diagnostics::manifest::{ManifestObservation, ObservationStatus};
use cache_diagnostics::tools::{
    tool_fields_from_members, tools_manifest, JsonMember, ToolManifestWriter, RETAINED_TOOL_DETAILS,
};

fn tools_fingerprinter() -> Fingerprinter {
    Fingerprinter::new(&[7u8; 32])
}

#[test]
fn scan_splits_top_level_items_and_ignores_separators_inside_strings() {
    let fingerprinter = tools_fingerprinter();
    let first = br#"{"name":"a,b]","description":"x\"],","parameters":[1,[2,{"k":"}"}]]}"#;
    let second = br#"{"name":"second"}"#;
    let array = [b" [ ".as_slice(), first, b" , ", second, b" ] \n"].concat();
    let manifests = tools_manifest(&fingerprinter, Some(&array));
    let list = match &manifests.list {
        ManifestObservation::Observed(list) => list,
        ManifestObservation::Status { .. } => panic!("array should be scanned"),
    };
    // An item runs up to its separator, so whitespace before the separator is part of it.
    let first_item = [first.as_slice(), b" "].concat();
    let second_item = [second.as_slice(), b" "].concat();
    assert_eq!(list.count, 2);
    assert_eq!(list.retained[0].hmac, fingerprinter.fingerprint_bytes(b"logical.tools.item", &first_item).hmac);
    assert_eq!(list.retained[1].hmac, fingerprinter.fingerprint_bytes(b"logical.tools.item", &second_item).hmac);
    assert_eq!(list.retained[1].bytes, second.len() + 1);
    assert_eq!(list.body.hmac, fingerprinter.fingerprint_bytes(b"logical.tools", &array).hmac);
    assert_eq!(list.body.bytes, array.len());
    let detail = match &manifests.detail {
        ManifestObservation::Observed(detail) => detail,
        ManifestObservation::Status { .. } => panic!("details should be read"),
    };
    assert_eq!(detail.count, 2);
    assert_eq!(detail.retained[0].name, "a,b]");
    assert_eq!(detail.retained[1].name, "second");
    assert_eq!(
        detail.retained[0].descriptor.hmac,
        fingerprinter.fingerprint_bytes(b"logical.tools.item", &first_item).hmac
    );
    match &detail.retained[0].description {
        ManifestObservation::Observed(fingerprint) => assert_eq!(
            fingerprint.hmac,
            fingerprinter.fingerprint_bytes(b"logical.tools.detail.description", br#""x\"],""#).hmac
        ),
        ManifestObservation::Status { .. } => panic!("description should be fingerprinted"),
    }
    match &detail.retained[0].parameters {
        ManifestObservation::Observed(fingerprint) => assert_eq!(
            fingerprint.hmac,
            fingerprinter.fingerprint_bytes(b"logical.tools.detail.parameters", br#"[1,[2,{"k":"}"}]]"#).hmac
        ),
        ManifestObservation::Status { .. } => panic!("parameters should be fingerprinted"),
    }
    assert!(matches!(
        detail.retained[1].description,
        ManifestObservation::Status { status: ObservationStatus::Missing }
    ));
}

#[test]
fn absent_tools_are_missing_and_broken_arrays_unavailable() {
    let fingerprinter = tools_fingerprinter();
    let absent = tools_manifest(&fingerprinter, None);
    assert!(matches!(absent.list, ManifestObservation::Status { status: ObservationStatus::Missing }));
    assert!(matches!(absent.detail, ManifestObservation::Status { status: ObservationStatus::Missing }));
    for broken in [
        b"[".as_slice(),
        b"[{\"a\":1}".as_slice(),
        b"x[]".as_slice(),
        b"[] x".as_slice(),
        b"[{\"a\":\"}]".as_slice(),
        b"[1}]".as_slice(),
        b"".as_slice(),
    ] {
        let manifests = tools_manifest(&fingerprinter, Some(broken));
        assert!(
            matches!(manifests.list, ManifestObservation::Status { status: ObservationStatus::Unavailable }),
            "{:?} should be unavailable",
            String::from_utf8_lossy(broken)
        );
        assert!(matches!(
            manifests.detail,
            ManifestObservation::Status { status: ObservationStatus::Unavailable }
        ));
    }
}

#[test]
fn repeated_separators_between_items_are_skipped() {
    let fingerprinter = tools_fingerprinter();
    let manifests = tools_manifest(&fingerprinter, Some(b"[1,,2]"));
    match &manifests.list {
        ManifestObservation::Observed(list) => assert_eq!(list.count, 2),
        ManifestObservation::Status { .. } => panic!("separators between items are skipped"),
    }
}

#[test]
fn empty_array_has_no_items() {
    let fingerprinter = tools_fingerprinter();
    let manifests = tools_manifest(&fingerprinter, Some(b"[]"));
    match &manifests.list {
        ManifestObservation::Observed(list) => {
            assert_eq!(list.count, 0);
            assert!(list.retained.is_empty());
            assert_eq!(list.omitted.count, 0);
        },
        ManifestObservation::Status { .. } => panic!("an empty array is complete"),
    }
}

#[test]
fn writer_accepts_the_array_in_pieces() {
    let fingerprinter = tools_fingerprinter();
    let whole = br#"[{"name":"one"},{"name":"two"}]"#;
    let mut writer = ToolManifestWriter::new(&fingerprinter);
    for piece in whole.chunks(3) {
        writer.write(piece);
    }
    let (list, detail) = writer.finish().expect("array is complete");
    let reference = tools_manifest(&fingerprinter, Some(whole));
    let reference_list = match &reference.list {
        ManifestObservation::Observed(list) => list,
        ManifestObservation::Status { .. } => panic!("array should be scanned"),
    };
    assert_eq!(list.body.hmac, reference_list.body.hmac);
    assert_eq!(list.count, 2);
    assert_eq!(detail.retained[1].name, "two");
}

#[test]
fn details_are_bounded_and_the_rest_digested() {
    let fingerprinter = tools_fingerprinter();
    let items: Vec<String> = (0..RETAINED_TOOL_DETAILS + 2).map(|index| format!(r#"{{"name":"t{index}"}}"#)).collect();
    let array = format!("[{}]", items.join(","));
    let manifests = tools_manifest(&fingerprinter, Some(array.as_bytes()));
    let detail = match &manifests.detail {
        ManifestObservation::Observed(detail) => detail,
        ManifestObservation::Status { .. } => panic!("details should be read"),
    };
    assert_eq!(detail.count, RETAINED_TOOL_DETAILS + 2);
    assert_eq!(detail.retained.len(), RETAINED_TOOL_DETAILS);
    assert_eq!(detail.omitted.count, 2);
    assert_eq!(detail.retained[RETAINED_TOOL_DETAILS - 1].name, format!("t{}", RETAINED_TOOL_DETAILS - 1));
}

#[test]
fn a_tool_without_a_string_name_keeps_an_empty_name() {
    let fingerprinter = tools_fingerprinter();
    let manifests = tools_manifest(&fingerprinter, Some(br#"[{"name":3},7]"#));
    let detail = match &manifests.detail {
        ManifestObservation::Observed(detail) => detail,
        ManifestObservation::Status { .. } => panic!("details should be read"),
    };
    assert_eq!(detail.count, 2);
    assert_eq!(detail.retained[0].name, "");
    assert_eq!(detail.retained[1].name, "");
    assert!(matches!(
        detail.retained[1].parameters,
        ManifestObservation::Status { status: ObservationStatus::Missing }
    ));
}

fn member(key: &str, text: Option<&str>, json: Option<&[u8]>) -> JsonMember {
    JsonMember { key: key.to_string(), text: text.map(str::to_string), json: json.map(<[u8]>::to_vec) }
}

#[test]
fn tool_fields_pick_the_named_members() {
    let members = [
        member("description", Some("d"), Some(br#""d""#)),
        member("name", Some("tool"), Some(br#""tool""#)),
        member("parameters", None, None),
    ];
    let (name, description, parameters) = tool_fields_from_members(Some(&members));
    assert_eq!(name, "tool");
    assert_eq!(description, Some(Some(br#""d""#.to_vec())));
    assert_eq!(parameters, Some(None));

    let unnamed = [member("name", None, Some(b"3"))];
    let (name, description, parameters) = tool_fields_from_members(Some(&unnamed));
    assert_eq!(name, "");
    assert_eq!(description, None);
    assert_eq!(parameters, None);

    assert_eq!(tool_fields_from_members(None), (String::new(), None, None));
}
