//! The verdict classifier and the report assembler: the final, immutable
//! output record of one file's analysis.

use crate::claimdata::{ClaimData, ClaimView};
use crate::scoring::{
    compute_scores, final_confidence, final_score, default_manipulation, default_suspicious,
    PolicyView, ScoringPolicy,
};
use crate::text::{ext_of, extension_of};
use crate::validation::{ValidationData, ValidationView};
use vstd::prelude::*;

verus! {

/// The four-way output classification.
#[derive(Clone, Copy, PartialEq, Eq, Structural, Debug)]
pub enum Verdict {
    Generated,
    Modified,
    Genuine,
    Unknown,
}

/// The classifier's exact boundaries: no evidence at all is `Unknown`; low
/// suspicion with thin evidence is `Modified`, with strong evidence
/// `Genuine`; middling suspicion is `Modified`; 81 and above is `Generated`.
pub open spec fn spec_verdict(score: int, confidence: int) -> Verdict {
    if score == 0 && confidence == 0 {
        Verdict::Unknown
    } else if score < 21 {
        if confidence > 40 {
            Verdict::Genuine
        } else {
            Verdict::Modified
        }
    } else if score < 81 {
        Verdict::Modified
    } else {
        Verdict::Generated
    }
}

impl Verdict {
    /// Map a (score, confidence) pair to its verdict.
    pub fn from_score(score: u8, score_confidence: u8) -> (r: Verdict)
        ensures
            r == spec_verdict(score as int, score_confidence as int),
    {
        if score == 0 && score_confidence == 0 {
            Verdict::Unknown
        } else if score < 21 {
            if score_confidence > 40 {
                Verdict::Genuine
            } else {
                Verdict::Modified
            }
        } else if score < 81 {
            Verdict::Modified
        } else {
            Verdict::Generated
        }
    }
}

/// With no claims and no certificates — no evidence at all — the published
/// verdict is `Unknown`.
pub proof fn lemma_no_evidence_verdict(
    pol: PolicyView,
    claims: Seq<ClaimView>,
    t: ValidationView,
)
    requires
        claims.len() == 0,
        t.certs_count == 0,
    ensures
        spec_verdict(final_score(pol, claims, t), final_confidence(pol, claims, t))
            == Verdict::Unknown,
{
    crate::scoring::lemma_no_evidence(pol, claims, t);
}

/// The assembled analysis of one file: its identity, the verdict with its
/// score and confidence, and the claim and trust records behind them.
pub struct Report {
    pub file_name: String,
    pub file_type: String,
    pub verdict: Verdict,
    pub score: u8,
    pub score_confidence: u8,
    pub claims_found: bool,
    pub claims_count: usize,
    pub claims: Vec<ClaimData>,
    pub validation: ValidationData,
}

/// The built-in policy as the scoring engine's spec sees it.
pub open spec fn default_policy_view() -> PolicyView {
    PolicyView { suspicious: default_suspicious(), manipulation: default_manipulation() }
}

impl Report {
    pub fn new(
        file_name: String,
        file_type: String,
        verdict: Verdict,
        score: u8,
        score_confidence: u8,
        claims_found: bool,
        claims_count: usize,
        claims: Vec<ClaimData>,
        validation: ValidationData,
    ) -> (r: Report)
        ensures
            r.file_name == file_name,
            r.file_type == file_type,
            r.verdict == verdict,
            r.score == score,
            r.score_confidence == score_confidence,
            r.claims_found == claims_found,
            r.claims_count == claims_count,
            r.claims == claims,
            r.validation == validation,
    {
        Report {
            file_name,
            file_type,
            verdict,
            score,
            score_confidence,
            claims_found,
            claims_count,
            claims,
            validation,
        }
    }

    /// Assemble the report for one file from its name and its already
    /// normalized claim and trust records: score and confidence under the
    /// built-in policy, the verdict they classify to, and the file-type
    /// suffix read from the name.
    pub fn from_data(file_name: String, claims: Vec<ClaimData>, validation: ValidationData) -> (r:
        Report)
        ensures
            r.file_name == file_name,
            r.file_type@ == ext_of(file_name@),
            r.score as int == final_score(default_policy_view(), claims.deep_view(), validation@),
            r.score_confidence as int == final_confidence(
                default_policy_view(),
                claims.deep_view(),
                validation@,
            ),
            r.verdict == spec_verdict(r.score as int, r.score_confidence as int),
            r.claims_found == (claims@.len() != 0),
            r.claims_count == claims@.len(),
            r.claims == claims,
            r.validation == validation,
    {
        let file_type = extension_of(file_name.as_str()).to_owned();
        let policy = ScoringPolicy::default_policy();
        let (score, score_confidence) = compute_scores(&policy, &claims, &validation);
        let verdict = Verdict::from_score(score, score_confidence);
        let claims_count = claims.len();
        let claims_found = claims_count != 0;
        Report::new(
            file_name,
            file_type,
            verdict,
            score,
            score_confidence,
            claims_found,
            claims_count,
            claims,
            validation,
        )
    }
}

} // verus!
