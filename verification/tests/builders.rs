use provenance_score::claimdata::{ClaimData, ManifestEntry};
use provenance_score::text::{contains_str, eq_ignore_case, extension_of, str_eq};
use provenance_score::validation::{
    Certificate, StatusBuckets, StatusKind, StatusRecord, ValidationData, ValidationOutcome,
    ValidationState,
};

fn status(code: &str, kind: StatusKind) -> StatusRecord {
    StatusRecord {
        url: Some(String::from("self#jumbf=c2pa.signature")),
        code: String::from(code),
        explanation: Some(String::from("checked")),
        kind,
    }
}

#[test]
fn claim_defaults_when_fields_absent() {
    let entry = ManifestEntry {
        label: String::from("urn:c2pa:0"),
        issuer: None,
        generator_names: None,
    };
    let claim = ClaimData::from_manifest(entry);
    assert_eq!(claim.claim_id, "urn:c2pa:0");
    assert_eq!(claim.claim_issuer, "none");
    assert!(claim.claim_generator.is_empty());
}

#[test]
fn claim_keeps_declared_fields() {
    let entry = ManifestEntry {
        label: String::from("urn:c2pa:7"),
        issuer: Some(String::from("Example Signer")),
        generator_names: Some(vec![String::from("Photoshop"), String::from("gimp")]),
    };
    let claim = ClaimData::from_manifest(entry);
    assert_eq!(claim.claim_id, "urn:c2pa:7");
    assert_eq!(claim.claim_issuer, "Example Signer");
    assert_eq!(claim.claim_generator, vec!["Photoshop", "gimp"]);
}

#[test]
fn claims_keep_entry_order() {
    let entries = vec![
        ManifestEntry { label: String::from("b"), issuer: None, generator_names: None },
        ManifestEntry { label: String::from("a"), issuer: None, generator_names: None },
    ];
    let claims = ClaimData::vec_from_manifest(&entries);
    assert_eq!(claims.len(), 2);
    assert_eq!(claims[0].claim_id, "b");
    assert_eq!(claims[1].claim_id, "a");
}

#[test]
fn certificate_defaults_when_fields_absent() {
    let record = StatusRecord {
        url: None,
        code: String::from("claimSignature.validated"),
        explanation: None,
        kind: StatusKind::Success,
    };
    let cert = Certificate::from_status(record);
    assert_eq!(cert.cert_id, "n/a");
    assert_eq!(cert.cert_code, "claimSignature.validated");
    assert_eq!(cert.cert_explanation, "n/a");
    assert!(cert.cert_valid);
}

#[test]
fn only_success_kind_is_valid() {
    let info = Certificate::from_status(status("timeStamp.untrusted", StatusKind::Informational));
    assert!(!info.cert_valid);
    let fail = Certificate::from_status(status("claimSignature.mismatch", StatusKind::Failure));
    assert!(!fail.cert_valid);
}

#[test]
fn buckets_concatenate_in_fixed_order() {
    let buckets = StatusBuckets {
        success: vec![status("s1", StatusKind::Success), status("s2", StatusKind::Success)],
        informational: vec![status("i1", StatusKind::Informational)],
        failure: vec![status("f1", StatusKind::Failure)],
    };
    let (certs, count, valid) = Certificate::vec_from_codes(buckets);
    assert_eq!(count, 4);
    assert_eq!(valid, 2);
    let codes: Vec<&str> = certs.iter().map(|c| c.cert_code.as_str()).collect();
    assert_eq!(codes, vec!["s1", "s2", "i1", "f1"]);
}

#[test]
fn trust_record_from_full_result() {
    let outcome = ValidationOutcome {
        state: ValidationState::Valid,
        active_manifest: Some(StatusBuckets {
            success: vec![status("s1", StatusKind::Success)],
            informational: Vec::new(),
            failure: vec![status("f1", StatusKind::Failure)],
        }),
    };
    let trust = ValidationData::from_result(outcome);
    assert!(matches!(trust.state, ValidationState::Valid));
    assert_eq!(trust.certs_count, 2);
    assert_eq!(trust.certs_valid, 1);
    assert_eq!(trust.certs.len(), 2);
}

#[test]
fn trust_record_without_active_manifest() {
    let outcome = ValidationOutcome { state: ValidationState::Invalid, active_manifest: None };
    let trust = ValidationData::from_result(outcome);
    assert!(matches!(trust.state, ValidationState::Invalid));
    assert_eq!(trust.certs_count, 0);
    assert_eq!(trust.certs_valid, 0);
    assert!(trust.certs.is_empty());
}

#[test]
fn text_helpers_match_expectations() {
    assert!(str_eq("photo", "photo"));
    assert!(!str_eq("photo", "photos"));
    assert!(eq_ignore_case("Stable Diffusion", "stable diffusion"));
    assert!(!eq_ignore_case("gimp", "gim"));
    assert!(contains_str("Analysis Failed: bad image", "Analysis Failed"));
    assert!(!contains_str("all good", "Analysis Failed"));
    assert_eq!(extension_of("a.b.c.png"), "png");
    assert_eq!(extension_of("archive."), "");
    assert_eq!(extension_of("plain"), "plain");
}
