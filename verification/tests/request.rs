use kv_put::errors::PutError;
use kv_put::request::{
    build_url, check_file_body, encode_component, plan_body, plan_put_request, BodyPlan, FileStat,
    KVMetaData, PartContent,
};

#[test]
fn component_encoding_escapes_everything_reserved() {
    assert_eq!(encode_component("a b&c=d/100%"), "a%20b%26c%3Dd%2F100%25");
    assert_eq!(encode_component("100"), "100");
    assert_eq!(encode_component(""), "");
}

#[test]
fn url_with_expiration_only() {
    let url = build_url("acct", "ns", "key", &Some("100".to_string()), &None).unwrap();
    assert_eq!(
        url,
        "https://api.cloudflare.com/client/v4/accounts/acct/storage/kv/namespaces/ns/values/key?expiration=100"
    );
}

#[test]
fn url_with_both_expiration_parameters() {
    let url = build_url(
        "acct",
        "ns",
        "key",
        &Some("100".to_string()),
        &Some("50".to_string()),
    )
    .unwrap();
    assert_eq!(
        url,
        "https://api.cloudflare.com/client/v4/accounts/acct/storage/kv/namespaces/ns/values/key?expiration=100&expiration_ttl=50"
    );
}

#[test]
fn url_without_expiration_parameters() {
    let url = build_url("acct", "ns", "key", &None, &None).unwrap();
    assert_eq!(
        url,
        "https://api.cloudflare.com/client/v4/accounts/acct/storage/kv/namespaces/ns/values/key"
    );
}

#[test]
fn url_encodes_space_in_expiration_value() {
    let url = build_url("acct", "ns", "key", &Some("1 0".to_string()), &None).unwrap();
    assert_eq!(
        url,
        "https://api.cloudflare.com/client/v4/accounts/acct/storage/kv/namespaces/ns/values/key?expiration=1%200"
    );
}

#[test]
fn url_keeps_structural_characters_in_values_from_breaking_the_query() {
    let url = build_url("acct", "ns", "key", &Some("1&x=2".to_string()), &None).unwrap();
    assert_eq!(
        url,
        "https://api.cloudflare.com/client/v4/accounts/acct/storage/kv/namespaces/ns/values/key?expiration=1%26x%3D2"
    );
}

#[test]
fn url_is_normalized_not_echoed() {
    let url = build_url("acct", "ns", "key", &Some("\u{e9}".to_string()), &None).unwrap();
    assert_eq!(
        url,
        "https://api.cloudflare.com/client/v4/accounts/acct/storage/kv/namespaces/ns/values/key?expiration=%C3%A9"
    );
}

#[test]
fn body_with_metadata_is_two_part_multipart() {
    let metadata: serde_json::Value = serde_json::from_str("{\"a\": 1}").unwrap();
    match plan_body("bar", false, &Some(metadata)) {
        BodyPlan::Multipart(parts) => {
            assert_eq!(parts.len(), 2);
            assert_eq!(parts[0].0, "value");
            assert!(matches!(parts[0].1, PartContent::Text(ref t) if t == "bar"));
            assert_eq!(parts[1].0, "metadata");
            assert!(matches!(parts[1].1, PartContent::Text(ref t) if t == "{\"a\":1}"));
        }
        _ => panic!("metadata present must give a multipart body"),
    }
}

#[test]
fn body_with_metadata_and_file_streams_the_file_part() {
    let metadata: serde_json::Value = serde_json::from_str("true").unwrap();
    match plan_body("some/path", true, &Some(metadata)) {
        BodyPlan::Multipart(parts) => {
            assert_eq!(parts[0].0, "value");
            assert!(matches!(parts[0].1, PartContent::FilePath(ref p) if p == "some/path"));
        }
        _ => panic!("metadata present must give a multipart body"),
    }
}

#[test]
fn body_without_metadata_is_raw_value_bytes() {
    match plan_body("bar", false, &None) {
        BodyPlan::RawText(t) => assert_eq!(t, "bar"),
        _ => panic!("no metadata must give the raw value with no framing"),
    }
}

#[test]
fn body_without_metadata_from_file_is_raw_stream() {
    match plan_body("some/path", true, &None) {
        BodyPlan::RawFile(p) => assert_eq!(p, "some/path"),
        _ => panic!("no metadata must give the raw file with no framing"),
    }
}

#[test]
fn file_check_accepts_regular_file() {
    assert!(check_file_body("some/path", &FileStat::Regular).is_ok());
}

#[test]
fn file_check_rejects_directory() {
    match check_file_body("some/path", &FileStat::Directory) {
        Err(PutError::PathIsDirectory(m)) => {
            assert_eq!(m, "--path argument takes a file, some/path is a directory");
            assert!(m.contains("is a directory"));
        }
        _ => panic!("a directory must be rejected"),
    }
}

#[test]
fn file_check_rejects_symlink() {
    match check_file_body("some/path", &FileStat::Other) {
        Err(PutError::PathIsSymlink(m)) => {
            assert_eq!(m, "--path argument takes a file, some/path is a symlink");
            assert!(m.contains("is a symlink"));
        }
        _ => panic!("a symlink must be rejected"),
    }
}

#[test]
fn file_check_passes_inspection_diagnostic_through() {
    match check_file_body("some/path", &FileStat::Inaccessible("denied".to_string())) {
        Err(PutError::PathInaccessible(m)) => assert_eq!(m, "denied"),
        _ => panic!("an inaccessible path must be rejected"),
    }
}

#[test]
fn whole_plan_combines_url_and_body() {
    let data = KVMetaData {
        namespace_id: "ns".to_string(),
        key: "foo".to_string(),
        value: "bar".to_string(),
        is_file: false,
        expiration: None,
        expiration_ttl: None,
        metadata: None,
    };
    let plan = plan_put_request("acct", &data).unwrap();
    assert_eq!(
        plan.url,
        "https://api.cloudflare.com/client/v4/accounts/acct/storage/kv/namespaces/ns/values/foo"
    );
    assert!(matches!(plan.body, BodyPlan::RawText(ref t) if t == "bar"));
}
