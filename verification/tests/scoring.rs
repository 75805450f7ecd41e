use provenance_score::claimdata::ClaimData;
use provenance_score::report::{Report, Verdict};
use provenance_score::scoring::{compute_scores, ScoringPolicy};
use provenance_score::validation::{Certificate, ValidationData, ValidationState};

fn no_trust() -> ValidationData {
    ValidationData::new(ValidationState::Invalid, 0, 0, Vec::new())
}

fn one_claim(generators: Vec<&str>) -> ClaimData {
    ClaimData::new(
        String::from("urn:c2pa:1"),
        String::from("none"),
        generators.into_iter().map(String::from).collect(),
    )
}

#[test]
fn no_evidence_is_unknown() {
    let report = Report::from_data(String::from("photo.png"), Vec::new(), no_trust());
    assert_eq!(report.score, 0);
    assert_eq!(report.score_confidence, 0);
    assert!(matches!(report.verdict, Verdict::Unknown));
    assert!(!report.claims_found);
    assert_eq!(report.claims_count, 0);
}

#[test]
fn boundary_genuine_vs_modified() {
    assert!(matches!(Verdict::from_score(20, 41), Verdict::Genuine));
    assert!(matches!(Verdict::from_score(20, 40), Verdict::Modified));
}

#[test]
fn boundary_modified_vs_generated() {
    assert!(matches!(Verdict::from_score(80, 0), Verdict::Modified));
    assert!(matches!(Verdict::from_score(80, 100), Verdict::Modified));
    assert!(matches!(Verdict::from_score(81, 0), Verdict::Generated));
    assert!(matches!(Verdict::from_score(81, 100), Verdict::Generated));
}

#[test]
fn boundary_unknown_only_at_origin() {
    assert!(matches!(Verdict::from_score(0, 0), Verdict::Unknown));
    assert!(matches!(Verdict::from_score(0, 1), Verdict::Modified));
    assert!(matches!(Verdict::from_score(1, 0), Verdict::Modified));
}

#[test]
fn trusted_certificate_without_claims() {
    let cert = Certificate::new(
        String::from("n/a"),
        String::from("signingCredential.trusted"),
        String::from("n/a"),
        true,
    );
    let trust = ValidationData::new(ValidationState::Trusted, 1, 1, vec![cert]);
    let report = Report::from_data(String::from("photo.jpg"), Vec::new(), trust);
    assert_eq!(report.score, 20);
    assert_eq!(report.score_confidence, 80);
    // Low suspicion backed by strong evidence classifies as genuine.
    assert!(matches!(report.verdict, Verdict::Genuine));
}

#[test]
fn stable_diffusion_claim_without_trust() {
    let claims = vec![one_claim(vec!["Stable Diffusion"])];
    let report = Report::from_data(String::from("image.png"), claims, no_trust());
    assert_eq!(report.score, 100);
    assert_eq!(report.score_confidence, 51);
    assert!(matches!(report.verdict, Verdict::Generated));
}

#[test]
fn photoshop_claim_with_invalid_trust() {
    let claims = vec![one_claim(vec!["Photoshop"])];
    let certs = vec![
        Certificate::new(
            String::from("n/a"),
            String::from("claimSignature.mismatch"),
            String::from("n/a"),
            false,
        ),
        Certificate::new(
            String::from("n/a"),
            String::from("signingCredential.untrusted"),
            String::from("n/a"),
            false,
        ),
    ];
    let trust = ValidationData::new(ValidationState::Invalid, 2, 0, certs);
    let report = Report::from_data(String::from("edited.jpg"), claims, trust);
    // 1 + 50 (editing tool) + 20 (certificates) + 60 (invalid chain) clamps to 100;
    // confidence accumulates 1 + 50 + 20 + 20.
    assert_eq!(report.score, 100);
    assert_eq!(report.score_confidence, 91);
    assert!(matches!(report.verdict, Verdict::Generated));
}

#[test]
fn generator_match_is_case_insensitive() {
    let policy = ScoringPolicy::default_policy();
    let claims = vec![one_claim(vec!["MIDJOURNEY"])];
    let trust = no_trust();
    let (score, confidence) = compute_scores(&policy, &claims, &trust);
    assert_eq!(score, 100);
    assert_eq!(confidence, 51);
}

#[test]
fn unknown_generator_scores_baseline_only() {
    let policy = ScoringPolicy::default_policy();
    let claims = vec![one_claim(vec!["Paintbrush Deluxe"])];
    let trust = no_trust();
    let (score, confidence) = compute_scores(&policy, &claims, &trust);
    assert_eq!(score, 1);
    assert_eq!(confidence, 1);
}

#[test]
fn adding_suspicious_claim_never_decreases() {
    let policy = ScoringPolicy::default_policy();
    let trust = no_trust();
    let without = vec![one_claim(vec!["Photoshop"])];
    let (s0, c0) = compute_scores(&policy, &without, &trust);
    let with = vec![one_claim(vec!["Photoshop"]), one_claim(vec!["dall-e"])];
    let (s1, c1) = compute_scores(&policy, &with, &trust);
    assert!(s1 >= s0);
    assert!(c1 >= c0);
}

#[test]
fn accumulation_clamps_at_one_hundred() {
    let policy = ScoringPolicy::default_policy();
    let claims = vec![
        one_claim(vec!["chatgpt", "midjourney", "dall-e"]),
        one_claim(vec!["stable diffusion", "adobe firefly"]),
    ];
    let trust = no_trust();
    let (score, confidence) = compute_scores(&policy, &claims, &trust);
    assert_eq!(score, 100);
    assert_eq!(confidence, 100);
}

#[test]
fn custom_policy_lists_apply() {
    let policy = ScoringPolicy::new(
        vec![String::from("homegrown diffuser")],
        vec![String::from("homegrown editor")],
    );
    let claims = vec![one_claim(vec!["Homegrown Editor"])];
    let trust = no_trust();
    let (score, confidence) = compute_scores(&policy, &claims, &trust);
    assert_eq!(score, 51);
    assert_eq!(confidence, 51);
}

#[test]
fn file_type_is_suffix_after_last_dot() {
    let report = Report::from_data(String::from("holiday.photo.jpeg"), Vec::new(), no_trust());
    assert_eq!(report.file_type, "jpeg");
    assert_eq!(report.file_name, "holiday.photo.jpeg");
    let bare = Report::from_data(String::from("noext"), Vec::new(), no_trust());
    assert_eq!(bare.file_type, "noext");
}
