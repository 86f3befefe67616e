use rekor_watch::decode::{decode_entry, format_hash};
use rekor_watch::errors::LogError;
use rekor_watch::extract::{extract, extract_fields, ExtractOutcome};
use rekor_watch::json::{parse_json, JsonValue};
use rekor_watch::pipeline::{entries_of_response, process_batch};
use rekor_watch::poll::{plan_cycle, seed_cursor};
use rekor_watch::record::{render_record, ExtensionRecord};
use rekor_watch::size::{size_from_log_info, total_size};

fn parse(s: &str) -> JsonValue {
    parse_json(s.as_bytes()).expect("well-formed JSON")
}

fn envelope_json(log_index: u64, body_b64: &str) -> String {
    format!(
        "{{\"24296fb24b8ad77a\":{{\"logIndex\":{},\"body\":\"{}\"}}}}",
        log_index, body_b64
    )
}

fn body_json(algorithm: &str, value: &str, content_b64: &str) -> String {
    format!(
        "{{\"spec\":{{\"data\":{{\"hash\":{{\"algorithm\":\"{}\",\"value\":\"{}\"}}}},\"signature\":{{\"publicKey\":{{\"content\":\"{}\"}}}}}}}}",
        algorithm, value, content_b64
    )
}

fn public_key_pem() -> String {
    "-----BEGIN PUBLIC KEY-----\nAAAA\n-----END PUBLIC KEY-----\n".to_string()
}

/// A small self-signed certificate that carries no extensions at all.
fn certificate_pem() -> String {
    let mut s = String::new();
    s.push_str("-----BEGIN CERTIFICATE-----\n");
    s.push_str("MIIBUTCB2KADAgECAgkAtXGSKEzrTR4wCgYIKoZIzj0EAwIwEDEOMAwGA1UEAwwF\n");
    s.push_str("YmVubm8wHhcNMTgxMTEzMDI1NDQwWhcNMTkxMTEzMDI1NDQwWjAQMQ4wDAYDVQQD\n");
    s.push_str("DAViZW5ubzB2MBAGByqGSM49AgEGBSuBBAAiA2IABDhrHLVTMHC7GTyB/MNztToW\n");
    s.push_str("ss2zlmvR62X1pQaBN6fYhBJE1XYa0V2C1fGGXj92MencOtXyfYVxn+DY07gyT/71\n");
    s.push_str("HQ12TJOe90wwjy2/6N1W1jOv5HjphVT8JQlVNqAC+DAKBggqhkjOPQQDAgNoADBl\n");
    s.push_str("AjAfzS1tmZ+GSAaXrsPcfAd1A9yfWVtB8tWxFNNo2j7/cL3puf2vQnlwV/0BoZZ1\n");
    s.push_str("K4ICMQDaE0HemgYp6RPQzeb96a2gjlaEbwNy1B8O74fE24WRXiOUm4eln9wGQ3I1\n");
    s.push_str("iV6NtZU=\n");
    s.push_str("-----END CERTIFICATE-----\n");
    s
}

/// A certificate with a subject-alternative-name extension holding one DNS
/// name, `lists.for-our.info`, and no provenance extensions.
fn certificate_with_san_pem() -> String {
    let mut s = String::new();
    s.push_str("-----BEGIN CERTIFICATE-----\n");
    s.push_str("MIIFWzCCBEOgAwIBAgISAyBIAwu7NBD5CTxX8suDCMgFMA0GCSqGSIb3DQEBCwUA\n");
    s.push_str("MEoxCzAJBgNVBAYTAlVTMRYwFAYDVQQKEw1MZXQncyBFbmNyeXB0MSMwIQYDVQQD\n");
    s.push_str("ExpMZXQncyBFbmNyeXB0IEF1dGhvcml0eSBYMzAeFw0xOTA3MTIxMTEyMzBaFw0x\n");
    s.push_str("OTEwMTAxMTEyMzBaMB0xGzAZBgNVBAMTEmxpc3RzLmZvci1vdXIuaW5mbzCCASIw\n");
    s.push_str("DQYJKoZIhvcNAQEBBQADggEPADCCAQoCggEBAMVoti34X46DaI2nX24C+aZ2Ofkm\n");
    s.push_str("hKbidiXiRTon1MLSMGl1oNW9MyRyYYCzP4j6DNKChJnr8ZnVShh2oZD+yHWP9lpn\n");
    s.push_str("XMGkbsUxejRMU9hnaAB50pXRIDAzavkVFCguFlJ8nKkv/Y1Avlw7tc2aZOd3lOZB\n");
    s.push_str("Er8gJ8mRDGqqsNU+Z12I6slEstzGMpsq6AewCVw4lMjdWWgugzUrxQTRAsG87on6\n");
    s.push_str("gOiQH2cMODN3L7Fq4KOLQIjb3/luQhAQhpdKmEGFLin3c+f5or3thCDuwwDtOU1l\n");
    s.push_str("Zf+8t9S8pZPLrZrIs6H2xjXqCRuUY7iRNbO18Ukc6rlDYhBj9LT+cpmBbHECAwEA\n");
    s.push_str("AaOCAmYwggJiMA4GA1UdDwEB/wQEAwIFoDAdBgNVHSUEFjAUBggrBgEFBQcDAQYI\n");
    s.push_str("KwYBBQUHAwIwDAYDVR0TAQH/BAIwADAdBgNVHQ4EFgQUJj2pvRtl3GloH3He6FX1\n");
    s.push_str("ds3X0VEwHwYDVR0jBBgwFoAUqEpqYwR93brm0Tm3pkVl7/Oo7KEwbwYIKwYBBQUH\n");
    s.push_str("AQEEYzBhMC4GCCsGAQUFBzABhiJodHRwOi8vb2NzcC5pbnQteDMubGV0c2VuY3J5\n");
    s.push_str("cHQub3JnMC8GCCsGAQUFBzAChiNodHRwOi8vY2VydC5pbnQteDMubGV0c2VuY3J5\n");
    s.push_str("cHQub3JnLzAdBgNVHREEFjAUghJsaXN0cy5mb3Itb3VyLmluZm8wTAYDVR0gBEUw\n");
    s.push_str("QzAIBgZngQwBAgEwNwYLKwYBBAGC3xMBAQEwKDAmBggrBgEFBQcCARYaaHR0cDov\n");
    s.push_str("L2Nwcy5sZXRzZW5jcnlwdC5vcmcwggEDBgorBgEEAdZ5AgQCBIH0BIHxAO8AdgAp\n");
    s.push_str("PFGWVMg5ZbqqUPxYB9S3b79Yeily3KTDDPTlRUf0eAAAAWvmGV7yAAAEAwBHMEUC\n");
    s.push_str("ICQL2Sm14aCMLxX9a9RbySgyBfichMRdbu6QA2Mbrl4eAiEA1vgJ7snqUWCgoqEE\n");
    s.push_str("3SEfK3ioMopzWBsPvG6LdCuCMRAAdQBvU3asMfAxGdiZAKRRFf93FRwR2QLBACkG\n");
    s.push_str("jbIImjfZEwAAAWvmGV9oAAAEAwBGMEQCIExGqw3Lo0nSCyUuTRf92FgGASwWYji5\n");
    s.push_str("UGnXuYnpJrAvAiBw8AWVag8fzZ4ogAhY9EFRNdLrUcBjStipL888vyuxKzANBgkq\n");
    s.push_str("hkiG9w0BAQsFAAOCAQEAF8BBLDvSWZg57B6aDtzfUTSGetCYs3k0vJqCJlL+Pz7/\n");
    s.push_str("UruCSsojQzp5R6jvvgYQ83MaIdwe2mgt+OCQB5v7ylctyBzBmYIw9nPnxEC7HlcJ\n");
    s.push_str("L2K/k5ZjJFRnv4kV1Si8+TIpEAV0ksf39KGKemG8kGi4GXV1v03zSv0p8aCarpuo\n");
    s.push_str("SKBJ4qlB0CvmS2MqV4KnzO0O2h0c/ZQ4jg7l53eiN7VPdRMMO1DRw+MaW6I/hEZp\n");
    s.push_str("+oZQ7hhKXgKUBvF4IGwyrfyIZ8AeWKG4IP98COgyRbz7qtrAVevRKCM0ZC2t04A2\n");
    s.push_str("Fcix40FKEeiE093Aj3cweMYxNLPgwgQP8Xu3kA5QEw==\n");
    s.push_str("-----END CERTIFICATE-----\n");
    s
}

/// A DER general-name list with two DNS names: `a.example`, `b.example`.
fn san_value_two_dns_names() -> Vec<u8> {
    let mut v: Vec<u8> = vec![0x30, 0x16, 0x82, 0x09];
    v.extend_from_slice(b"a.example");
    v.push(0x82);
    v.push(0x09);
    v.extend_from_slice(b"b.example");
    v
}

#[test]
fn total_size_sums_primary_and_shards() {
    assert_eq!(total_size(1000, &vec![50, 25]), Some(1075));
    assert_eq!(total_size(7, &vec![]), Some(7));
    assert_eq!(total_size(u64::MAX, &vec![1]), None);
}

#[test]
fn log_metadata_total() {
    let info = parse("{\"treeSize\":1000,\"inactiveShards\":[{\"treeSize\":50},{\"treeSize\":25}]}");
    assert_eq!(size_from_log_info(&info), Ok(1075));
}

#[test]
fn log_metadata_missing_fields_is_schema_error() {
    let no_tree = parse("{\"inactiveShards\":[]}");
    assert_eq!(size_from_log_info(&no_tree), Err(LogError::Schema));
    let bad_shard = parse("{\"treeSize\":5,\"inactiveShards\":[{\"treeSize\":\"x\"}]}");
    assert_eq!(size_from_log_info(&bad_shard), Err(LogError::Schema));
    let no_shards = parse("{\"treeSize\":5}");
    assert_eq!(size_from_log_info(&no_shards), Err(LogError::Schema));
}

#[test]
fn range_is_half_open_and_ascending() {
    let p = plan_cycle(10, 15);
    assert_eq!(p.indices, vec![10, 11, 12, 13, 14]);
    assert_eq!(p.next_cursor, 15);
    let none = plan_cycle(15, 15);
    assert!(none.indices.is_empty());
    assert_eq!(none.next_cursor, 15);
}

#[test]
fn cursor_seed_is_one_before_total() {
    assert_eq!(seed_cursor(0), 0);
    assert_eq!(seed_cursor(7), 6);
}

#[test]
fn hash_field_is_algorithm_colon_value() {
    assert_eq!(format_hash("sha256", "abcd"), "sha256:abcd");
    let content = base64::encode(public_key_pem());
    let body = body_json("sha256", "abcd", &content);
    let envelope = parse(&envelope_json(3, &base64::encode(&body)));
    let input = decode_entry(&envelope).expect("decodes");
    assert_eq!(input.log_index, 3);
    assert_eq!(input.hash, "sha256:abcd");
}

#[test]
fn non_certificate_pem_is_skipped_silently() {
    let pem = public_key_pem().into_bytes();
    let outcome = extract(0, "h".to_string(), &pem);
    assert!(matches!(outcome, ExtractOutcome::SkippedNonCertificate));
}

#[test]
fn bad_base64_body_is_isolated() {
    let bad = envelope_json(0, "!!!not-base64!!!");
    let content = base64::encode(public_key_pem());
    let good_body = body_json("sha256", "abcd", &content);
    let good = envelope_json(1, &base64::encode(&good_body));
    let resp = parse(&format!("[{},{}]", bad, good));
    let entries = entries_of_response(&resp).expect("array");
    let outcomes = process_batch(entries);
    assert_eq!(outcomes.len(), 2);
    assert!(matches!(outcomes[0], ExtractOutcome::Failed(LogError::MalformedEntry)));
    assert!(matches!(outcomes[1], ExtractOutcome::SkippedNonCertificate));
}

#[test]
fn multi_key_envelope_is_malformed() {
    let envelope = parse("{\"a\":{\"logIndex\":0,\"body\":\"\"},\"b\":{\"logIndex\":1,\"body\":\"\"}}");
    assert!(matches!(decode_entry(&envelope), Err(LogError::MalformedEntry)));
    let empty = parse("{}");
    assert!(matches!(decode_entry(&empty), Err(LogError::MalformedEntry)));
    let not_object = parse("[1,2]");
    assert!(matches!(decode_entry(&not_object), Err(LogError::MalformedEntry)));
}

#[test]
fn batch_response_must_be_an_array() {
    let resp = parse("{\"entries\":[]}");
    assert!(matches!(entries_of_response(&resp), Err(LogError::Schema)));
}

#[test]
fn san_keeps_only_the_last_general_name() {
    let exts = vec![("2.5.29.17".to_string(), san_value_two_dns_names())];
    let rec = extract_fields(0, "h".to_string(), &exts);
    assert_eq!(rec.subject, Some("b.example".to_string()));
    assert_eq!(rec.oidc_issuer, None);
}

#[test]
fn issuer_extension_sets_only_the_issuer() {
    let exts = vec![(
        "1.3.6.1.4.1.57264.1.1".to_string(),
        b"https://issuer.example".to_vec(),
    )];
    let rec = extract_fields(9, "sha256:ff".to_string(), &exts);
    assert_eq!(rec.oidc_issuer, Some("https://issuer.example".to_string()));
    assert_eq!(rec.subject, None);
    assert_eq!(rec.workflow_trigger, None);
    assert_eq!(rec.workflow_sha, None);
    assert_eq!(rec.workflow_name, None);
    assert_eq!(rec.workflow_repository, None);
    assert_eq!(rec.workflow_ref, None);
}

#[test]
fn issuer_value_is_read_as_utf8() {
    // A two-byte UTF-8 sequence must come out as one character.
    let exts = vec![("1.3.6.1.4.1.57264.1.1".to_string(), vec![0xC3, 0xA9])];
    let rec = extract_fields(0, "h".to_string(), &exts);
    assert_eq!(rec.oidc_issuer, Some("\u{e9}".to_string()));
    // A value that is not UTF-8 leaves the field absent, without error.
    let bad = vec![("1.3.6.1.4.1.57264.1.1".to_string(), vec![0xFF])];
    let rec = extract_fields(0, "h".to_string(), &bad);
    assert_eq!(rec.oidc_issuer, None);
}

#[test]
fn each_provenance_extension_sets_its_field() {
    let exts = vec![
        ("1.3.6.1.4.1.57264.1.2".to_string(), b"push".to_vec()),
        ("1.3.6.1.4.1.57264.1.3".to_string(), b"abc123".to_vec()),
        ("1.3.6.1.4.1.57264.1.4".to_string(), b"ci".to_vec()),
        ("1.3.6.1.4.1.57264.1.5".to_string(), b"org/repo".to_vec()),
        ("1.3.6.1.4.1.57264.1.6".to_string(), b"refs/heads/main".to_vec()),
    ];
    let rec = extract_fields(2, "sha256:00".to_string(), &exts);
    assert_eq!(rec.workflow_trigger, Some("push".to_string()));
    assert_eq!(rec.workflow_sha, Some("abc123".to_string()));
    assert_eq!(rec.workflow_name, Some("ci".to_string()));
    assert_eq!(rec.workflow_repository, Some("org/repo".to_string()));
    assert_eq!(rec.workflow_ref, Some("refs/heads/main".to_string()));
    assert_eq!(
        render_record(&rec),
        "{\"LogIndex\":2,\"Hash\":\"sha256:00\",\"GitHubWorkflowTrigger\":\"push\",\"GitHubWorkflowSHA\":\"abc123\",\"GitHubWorkflowName\":\"ci\",\"GitHubWorkflowRepository\":\"org/repo\",\"GitHubWorkflowRef\":\"refs/heads/main\"}"
    );
}

#[test]
fn certificate_san_sets_subject() {
    let pem = certificate_with_san_pem().into_bytes();
    let outcome = extract(5, "sha256:ab".to_string(), &pem);
    match outcome {
        ExtractOutcome::Emitted(rec) => {
            assert_eq!(rec.subject, Some("lists.for-our.info".to_string()));
            assert_eq!(rec.oidc_issuer, None);
        }
        _ => panic!("expected an emitted record"),
    }
}

#[test]
fn unknown_extension_is_ignored() {
    let exts = vec![("2.5.29.15".to_string(), vec![0x03, 0x02, 0x05, 0xa0])];
    let rec = extract_fields(4, "sha256:aa".to_string(), &exts);
    assert_eq!(rec.subject, None);
    assert_eq!(rec.oidc_issuer, None);
}

#[test]
fn end_to_end_single_entry() {
    let p = plan_cycle(0, 1);
    assert_eq!(p.indices, vec![0]);
    let content = base64::encode(certificate_pem());
    let body = body_json("sha256", "deadbeef", &content);
    let envelope = envelope_json(0, &base64::encode(&body));
    let resp = parse(&format!("[{}]", envelope));
    let entries = entries_of_response(&resp).expect("array");
    let outcomes = process_batch(entries);
    assert_eq!(outcomes.len(), 1);
    match &outcomes[0] {
        ExtractOutcome::Emitted(rec) => {
            assert_eq!(rec.log_index, 0);
            assert_eq!(rec.hash, "sha256:deadbeef");
            assert_eq!(rec.subject, None);
            assert_eq!(rec.oidc_issuer, None);
            assert_eq!(
                render_record(rec),
                "{\"LogIndex\":0,\"Hash\":\"sha256:deadbeef\"}"
            );
        }
        other => panic!("expected an emitted record, got {:?}", describe_outcome(other)),
    }
}

fn describe_outcome(o: &ExtractOutcome) -> &'static str {
    match o {
        ExtractOutcome::Emitted(_) => "a record",
        ExtractOutcome::SkippedNonCertificate => "a silent skip",
        ExtractOutcome::Failed(_) => "a failure",
    }
}

#[test]
fn rendering_escapes_special_characters() {
    let rec = ExtensionRecord {
        log_index: 7,
        hash: "a\"b\\c\n".to_string(),
        subject: Some("x".to_string()),
        oidc_issuer: None,
        workflow_trigger: None,
        workflow_sha: None,
        workflow_name: None,
        workflow_repository: None,
        workflow_ref: None,
    };
    assert_eq!(
        render_record(&rec),
        "{\"LogIndex\":7,\"Hash\":\"a\\\"b\\\\c\\n\",\"Subject\":\"x\"}"
    );
}

#[test]
fn errors_describe_themselves() {
    assert_eq!(LogError::MalformedEntry.describe(), "malformed entry");
    assert_eq!(LogError::Network.describe(), "network failure");
}
