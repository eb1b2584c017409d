use dgit::objects::{extract_git_object, get_object_path, harvest_items, select_new_objects,
    HarvestItem, Lookup, ObjEntry};
use dgit::pktline::{advertisement_content_type, classify_service, frame_advertisement, hex4};
use dgit::wants::{check_wants, parse_wanted_objects};
use dgit::Error;

const ZEROS: &str = "0000000000000000000000000000000000000000";

#[test]
fn hex4_renders_four_digits() {
    assert_eq!(hex4(0), "0000");
    assert_eq!(hex4(30), "001e");
    assert_eq!(hex4(50), "0032");
    assert_eq!(hex4(65535), "ffff");
}

#[test]
fn advertisement_header_for_upload_pack() {
    let framed = frame_advertisement("git-upload-pack", &Vec::new());
    assert_eq!(framed, b"001e# service=git-upload-pack\n0000".to_vec());
}

#[test]
fn advertisement_header_keeps_payload() {
    let payload = b"00abcapabilities".to_vec();
    let framed = frame_advertisement("git-receive-pack", &payload);
    let mut expected = b"001f# service=git-receive-pack\n0000".to_vec();
    expected.extend_from_slice(&payload);
    assert_eq!(framed, expected);
}

#[test]
fn service_classification() {
    assert_eq!(classify_service("git-upload-pack").unwrap(), true);
    assert_eq!(classify_service("git-receive-pack").unwrap(), false);
    let err = classify_service("git-frob").unwrap_err();
    assert_eq!(err.message(), "Unknown service: git-frob");
}

#[test]
fn advertisement_content_types() {
    assert_eq!(
        advertisement_content_type("git-upload-pack"),
        "application/x-git-upload-pack-advertisement"
    );
    assert_eq!(
        advertisement_content_type("git-receive-pack"),
        "application/x-git-receive-pack-advertisement"
    );
    assert_eq!(advertisement_content_type("nonsense"), "text/plain");
}

#[test]
fn parse_single_want_line() {
    let body = format!("0032want {}\n0000", ZEROS);
    let wants = parse_wanted_objects(body.as_bytes()).unwrap();
    assert_eq!(wants, vec![ZEROS.to_string()]);
}

#[test]
fn parse_several_want_lines() {
    let a = "aaaaaaaaaaaaaaaaaaaaaaaaaaaaaaaaaaaaaaaa";
    let b = "bbbbbbbbbbbbbbbbbbbbbbbbbbbbbbbbbbbbbbbb";
    let body = format!("0032want {}\n0032want {}\n00000009done\n", a, b);
    let wants = parse_wanted_objects(body.as_bytes()).unwrap();
    assert_eq!(wants, vec![a.to_string(), b.to_string()]);
}

#[test]
fn parse_want_with_capabilities_takes_first_token() {
    let body = format!("0044want {} side-band-64k agent\n0000", ZEROS);
    let wants = parse_wanted_objects(body.as_bytes()).unwrap();
    assert_eq!(wants, vec![ZEROS.to_string()]);
}

#[test]
fn parse_flush_only_body_has_no_wants() {
    let wants = parse_wanted_objects(b"0000").unwrap();
    assert!(wants.is_empty());
}

#[test]
fn parse_non_pkt_body_has_no_wants() {
    let wants = parse_wanted_objects(b"hello there").unwrap();
    assert!(wants.is_empty());
}

#[test]
fn parse_stops_at_a_malformed_length_prefix() {
    let body = format!("zzzzwant {}\n", ZEROS);
    let wants = parse_wanted_objects(body.as_bytes()).unwrap();
    assert!(wants.is_empty());
}

#[test]
fn parse_stops_at_a_truncated_frame() {
    let wants = parse_wanted_objects(b"00ffwant tooshort").unwrap();
    assert!(wants.is_empty());
}

#[test]
fn parse_invalid_utf8_is_rejected() {
    let err = parse_wanted_objects(&[0x30, 0x30, 0xff, 0xfe]).unwrap_err();
    assert!(matches!(err, Error::Malformed { .. }));
}

#[test]
fn wants_check_passes_when_all_exist() {
    let wants = vec![ZEROS.to_string()];
    let results = vec![Lookup::Exists];
    assert!(check_wants(&wants, &results).is_ok());
}

#[test]
fn wants_check_misses_are_not_our_ref() {
    let wants = vec![ZEROS.to_string()];
    let results = vec![Lookup::Absent];
    let err = check_wants(&wants, &results).unwrap_err();
    assert_eq!(err.message(), format!("upload-pack: not our ref {}", ZEROS));
}

#[test]
fn wants_check_lookup_failures_are_upstream() {
    let wants = vec![ZEROS.to_string()];
    let results = vec![Lookup::Unknown { message: "rpc down".to_string() }];
    let err = check_wants(&wants, &results).unwrap_err();
    assert_eq!(err.message(), "Error checking commit existence: rpc down");
}

#[test]
fn object_path_splits_after_two_characters() {
    assert_eq!(
        get_object_path("ab0123456789012345678901234567890123456789"),
        "objects/ab/0123456789012345678901234567890123456789"
    );
    assert_eq!(get_object_path("a"), "objects/a");
}

#[test]
fn git_object_header_is_split_at_null() {
    let raw = b"blob 5\x00hello".to_vec();
    let (kind, data) = extract_git_object(&raw).unwrap();
    assert_eq!(kind, "blob");
    assert_eq!(data, b"hello".to_vec());
}

#[test]
fn git_object_without_null_is_rejected() {
    let err = extract_git_object(b"blob 5 hello").unwrap_err();
    assert_eq!(
        err.message(),
        "Invalid Git object format: missing null byte separator"
    );
}

#[test]
fn git_object_with_three_words_is_rejected() {
    let err = extract_git_object(b"blob 5 extra\x00hello").unwrap_err();
    assert_eq!(err.message(), "Invalid Git object header format");
}

#[test]
fn harvest_reconstructs_hashes_and_paths() {
    let entries = vec![ObjEntry {
        dir_name: "ab".to_string(),
        file_name: "cdef".to_string(),
    }];
    let items = harvest_items(&entries);
    assert_eq!(items.len(), 1);
    assert_eq!(items[0].hash, "abcdef");
    assert_eq!(items[0].rel_path, "objects/ab/cdef");
}

#[test]
fn selection_keeps_only_unknown_objects() {
    let items = vec![
        HarvestItem { hash: "aa".to_string(), rel_path: "objects/a/a".to_string() },
        HarvestItem { hash: "bb".to_string(), rel_path: "objects/b/b".to_string() },
        HarvestItem { hash: "cc".to_string(), rel_path: "objects/c/c".to_string() },
    ];
    let lookups = vec![
        Lookup::Exists,
        Lookup::Absent,
        Lookup::Unknown { message: "timeout".to_string() },
    ];
    let kept = select_new_objects(&items, &lookups);
    let hashes: Vec<&str> = kept.iter().map(|i| i.hash.as_str()).collect();
    assert_eq!(hashes, vec!["bb", "cc"]);
}
