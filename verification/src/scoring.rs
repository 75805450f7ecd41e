//! The scoring engine: reduces claim records and the trust record to a
//! bounded (score, confidence) pair. The score is a suspicion level, the
//! confidence says how much evidence backs it; both accumulate without an
//! interim clamp and are clamped to [0, 100] once at the end.

use crate::claimdata::{ClaimData, ClaimView};
use crate::text::{chars_eq_ci, eq_ignore_case};
use crate::validation::{ValidationData, ValidationState, ValidationView};
use vstd::prelude::*;
use vstd::string::StringExecFns;

verus! {

/// The classification policy: which generator names mark generative-AI
/// tools, and which mark editing tools. Policy data, not algorithm: a caller
/// may supply its own lists.
pub struct ScoringPolicy {
    pub suspicious: Vec<String>,
    pub manipulation: Vec<String>,
}

/// The abstract value of a [`ScoringPolicy`].
pub ghost struct PolicyView {
    pub suspicious: Seq<Seq<char>>,
    pub manipulation: Seq<Seq<char>>,
}

impl View for ScoringPolicy {
    type V = PolicyView;

    open spec fn view(&self) -> PolicyView {
        PolicyView {
            suspicious: self.suspicious.deep_view(),
            manipulation: self.manipulation.deep_view(),
        }
    }
}

/// `name` matches one of `list`'s entries, case-insensitively.
pub open spec fn in_list(list: Seq<Seq<char>>, name: Seq<char>) -> bool {
    exists|i: int| 0 <= i < list.len() && chars_eq_ci(name, #[trigger] list[i])
}

/// What one generator name adds to the score: 100 for a generative-AI tool,
/// 50 for an editing tool, nothing otherwise. A name on both lists counts as
/// generative-AI.
pub open spec fn gen_score_delta(pol: PolicyView, name: Seq<char>) -> int {
    if in_list(pol.suspicious, name) {
        100
    } else if in_list(pol.manipulation, name) {
        50
    } else {
        0
    }
}

/// What one generator name adds to the confidence: 50 for a name on either
/// list, nothing otherwise.
pub open spec fn gen_conf_delta(pol: PolicyView, name: Seq<char>) -> int {
    if in_list(pol.suspicious, name) || in_list(pol.manipulation, name) {
        50
    } else {
        0
    }
}

/// The score contribution of one claim's generator list.
pub open spec fn gens_score(pol: PolicyView, gens: Seq<Seq<char>>) -> int
    decreases gens.len(),
{
    if gens.len() == 0 {
        0
    } else {
        gens_score(pol, gens.drop_last()) + gen_score_delta(pol, gens.last())
    }
}

/// The confidence contribution of one claim's generator list.
pub open spec fn gens_conf(pol: PolicyView, gens: Seq<Seq<char>>) -> int
    decreases gens.len(),
{
    if gens.len() == 0 {
        0
    } else {
        gens_conf(pol, gens.drop_last()) + gen_conf_delta(pol, gens.last())
    }
}

/// The score contribution of all claims' generators.
pub open spec fn claims_score(pol: PolicyView, claims: Seq<ClaimView>) -> int
    decreases claims.len(),
{
    if claims.len() == 0 {
        0
    } else {
        claims_score(pol, claims.drop_last()) + gens_score(pol, claims.last().claim_generator)
    }
}

/// The confidence contribution of all claims' generators.
pub open spec fn claims_conf(pol: PolicyView, claims: Seq<ClaimView>) -> int
    decreases claims.len(),
{
    if claims.len() == 0 {
        0
    } else {
        claims_conf(pol, claims.drop_last()) + gens_conf(pol, claims.last().claim_generator)
    }
}

/// The baseline signal: a claim exists at all.
pub open spec fn base_signal(claims: Seq<ClaimView>) -> int {
    if claims.len() != 0 {
        1
    } else {
        0
    }
}

/// What the trust record adds to the score: nothing without certificates;
/// with them 20, and 60 more when the trust chain is invalid.
pub open spec fn trust_score_delta(t: ValidationView) -> int {
    if t.certs_count != 0 {
        20 + (if t.state == ValidationState::Invalid {
            60int
        } else {
            0int
        })
    } else {
        0
    }
}

/// What the trust record adds to the confidence: nothing without
/// certificates; with them 20, plus 40 for a valid, 60 for a trusted, and 20
/// for an invalid chain.
pub open spec fn trust_conf_delta(t: ValidationView) -> int {
    if t.certs_count != 0 {
        20 + (match t.state {
            ValidationState::Valid => 40int,
            ValidationState::Trusted => 60int,
            ValidationState::Invalid => 20int,
        })
    } else {
        0
    }
}

/// The unclamped score accumulation.
pub open spec fn raw_score(pol: PolicyView, claims: Seq<ClaimView>, t: ValidationView) -> int {
    base_signal(claims) + claims_score(pol, claims) + trust_score_delta(t)
}

/// The unclamped confidence accumulation.
pub open spec fn raw_confidence(pol: PolicyView, claims: Seq<ClaimView>, t: ValidationView) -> int {
    base_signal(claims) + claims_conf(pol, claims) + trust_conf_delta(t)
}

/// The single final clamp to at most 100.
pub open spec fn clamp100(x: int) -> int {
    if x > 100 {
        100
    } else {
        x
    }
}

/// The published score.
pub open spec fn final_score(pol: PolicyView, claims: Seq<ClaimView>, t: ValidationView) -> int {
    clamp100(raw_score(pol, claims, t))
}

/// The published confidence.
pub open spec fn final_confidence(
    pol: PolicyView,
    claims: Seq<ClaimView>,
    t: ValidationView,
) -> int {
    clamp100(raw_confidence(pol, claims, t))
}

/// Saturation point of the 32-bit accumulators; wide enough that the final
/// clamp cannot tell saturated accumulation from unbounded accumulation.
pub open spec fn cap_u32(x: int) -> int {
    if x > u32::MAX as int {
        u32::MAX as int
    } else {
        x
    }
}

proof fn lemma_cap_add(a: int, d: int)
    requires
        0 <= d,
    ensures
        cap_u32(cap_u32(a) + d) == cap_u32(a + d),
{
}

/// Every generator contribution is non-negative.
pub proof fn lemma_gens_nonneg(pol: PolicyView, gens: Seq<Seq<char>>)
    ensures
        gens_score(pol, gens) >= 0,
        gens_conf(pol, gens) >= 0,
    decreases gens.len(),
{
    if gens.len() > 0 {
        lemma_gens_nonneg(pol, gens.drop_last());
    }
}

/// Every claim contribution is non-negative.
pub proof fn lemma_claims_nonneg(pol: PolicyView, claims: Seq<ClaimView>)
    ensures
        claims_score(pol, claims) >= 0,
        claims_conf(pol, claims) >= 0,
    decreases claims.len(),
{
    if claims.len() > 0 {
        lemma_claims_nonneg(pol, claims.drop_last());
        lemma_gens_nonneg(pol, claims.last().claim_generator);
    }
}

/// With no claims and no certificates the engine publishes score 0 and
/// confidence 0: absence of evidence scores as nothing at all.
pub proof fn lemma_no_evidence(pol: PolicyView, claims: Seq<ClaimView>, t: ValidationView)
    requires
        claims.len() == 0,
        t.certs_count == 0,
    ensures
        final_score(pol, claims, t) == 0,
        final_confidence(pol, claims, t) == 0,
{
}

/// For any combination of claim and trust inputs, the published score and
/// confidence lie in [0, 100].
pub proof fn lemma_scores_clamped(pol: PolicyView, claims: Seq<ClaimView>, t: ValidationView)
    ensures
        0 <= final_score(pol, claims, t) <= 100,
        0 <= final_confidence(pol, claims, t) <= 100,
{
    lemma_claims_nonneg(pol, claims);
}

/// Adding one more claim — in particular one naming a suspicious generator —
/// never decreases the published score or confidence versus the same input
/// without it.
pub proof fn lemma_added_claim_monotonic(
    pol: PolicyView,
    claims: Seq<ClaimView>,
    t: ValidationView,
    c: ClaimView,
)
    ensures
        final_score(pol, claims.push(c), t) >= final_score(pol, claims, t),
        final_confidence(pol, claims.push(c), t) >= final_confidence(pol, claims, t),
{
    assert(claims.push(c).drop_last() =~= claims);
    assert(claims.push(c).last() == c);
    lemma_gens_nonneg(pol, c.claim_generator);
}

fn list_contains_ci(list: &Vec<String>, name: &str) -> (r: bool)
    ensures
        r == in_list(list.deep_view(), name@),
{
    let mut i: usize = 0;
    while i < list.len()
        invariant
            i <= list@.len(),
            forall|j: int| 0 <= j < i ==> !chars_eq_ci(name@, #[trigger] list@[j]@),
        decreases list@.len() - i,
    {
        if eq_ignore_case(name, list[i].as_str()) {
            assert(chars_eq_ci(name@, list.deep_view()[i as int]));
            return true;
        }
        i += 1;
    }
    assert(forall|j: int|
        0 <= j < list@.len() ==> #[trigger] list.deep_view()[j] == list@[j]@);
    false
}

impl ScoringPolicy {
    pub fn new(suspicious: Vec<String>, manipulation: Vec<String>) -> (r: ScoringPolicy)
        ensures
            r@.suspicious == suspicious.deep_view(),
            r@.manipulation == manipulation.deep_view(),
    {
        ScoringPolicy { suspicious, manipulation }
    }

    /// Does `name` match one of the policy's generative-AI tool names?
    pub fn matches_suspicious(&self, name: &str) -> (r: bool)
        ensures
            r == in_list(self@.suspicious, name@),
    {
        list_contains_ci(&self.suspicious, name)
    }

    /// Does `name` match one of the policy's editing tool names?
    pub fn matches_manipulation(&self, name: &str) -> (r: bool)
        ensures
            r == in_list(self@.manipulation, name@),
    {
        list_contains_ci(&self.manipulation, name)
    }

    /// The built-in policy lists.
    pub fn default_policy() -> (r: ScoringPolicy)
        ensures
            r@.suspicious == default_suspicious(),
            r@.manipulation == default_manipulation(),
    {
        let mut suspicious: Vec<String> = Vec::new();
        suspicious.push(String::from_str("chatgpt"));
        suspicious.push(String::from_str("gpt"));
        suspicious.push(String::from_str("gpt-3"));
        suspicious.push(String::from_str("gpt-4"));
        suspicious.push(String::from_str("gpt-4o"));
        suspicious.push(String::from_str("microsoft responsible ai image provenance"));
        suspicious.push(String::from_str("midjourney"));
        suspicious.push(String::from_str("stable diffusion"));
        suspicious.push(String::from_str("adobe firefly"));
        suspicious.push(String::from_str("leonardo"));
        suspicious.push(String::from_str("dall-e"));
        let mut manipulation: Vec<String> = Vec::new();
        manipulation.push(String::from_str("photoshop"));
        manipulation.push(String::from_str("gimp"));
        proof {
            assert(suspicious.deep_view() =~= default_suspicious());
            assert(manipulation.deep_view() =~= default_manipulation());
        }
        ScoringPolicy { suspicious, manipulation }
    }
}

/// The built-in generative-AI tool names.
pub open spec fn default_suspicious() -> Seq<Seq<char>> {
    seq![
        "chatgpt"@,
        "gpt"@,
        "gpt-3"@,
        "gpt-4"@,
        "gpt-4o"@,
        "microsoft responsible ai image provenance"@,
        "midjourney"@,
        "stable diffusion"@,
        "adobe firefly"@,
        "leonardo"@,
        "dall-e"@,
    ]
}

/// The built-in editing tool names.
pub open spec fn default_manipulation() -> Seq<Seq<char>> {
    seq!["photoshop"@, "gimp"@]
}

proof fn lemma_claims_step(pol: PolicyView, claims: Seq<ClaimView>, i: int)
    requires
        0 <= i < claims.len(),
    ensures
        claims_score(pol, claims.take(i + 1)) == claims_score(pol, claims.take(i)) + gens_score(
            pol,
            claims[i].claim_generator,
        ),
        claims_conf(pol, claims.take(i + 1)) == claims_conf(pol, claims.take(i)) + gens_conf(
            pol,
            claims[i].claim_generator,
        ),
{
    assert(claims.take(i + 1).drop_last() =~= claims.take(i));
    assert(claims.take(i + 1).last() == claims[i]);
}

proof fn lemma_gens_step(pol: PolicyView, gens: Seq<Seq<char>>, j: int)
    requires
        0 <= j < gens.len(),
    ensures
        gens_score(pol, gens.take(j + 1)) == gens_score(pol, gens.take(j)) + gen_score_delta(
            pol,
            gens[j],
        ),
        gens_conf(pol, gens.take(j + 1)) == gens_conf(pol, gens.take(j)) + gen_conf_delta(
            pol,
            gens[j],
        ),
{
    assert(gens.take(j + 1).drop_last() =~= gens.take(j));
    assert(gens.take(j + 1).last() == gens[j]);
}

/// The scoring engine's rule set, applied in its fixed order: the claim
/// presence baseline, the per-generator attribution penalties, the trust
/// weighting, and one final clamp of both accumulators to [0, 100].
pub fn compute_scores(
    policy: &ScoringPolicy,
    claims: &Vec<ClaimData>,
    validation: &ValidationData,
) -> (r: (u8, u8))
    ensures
        r.0 as int == final_score(policy@, claims.deep_view(), validation@),
        r.1 as int == final_confidence(policy@, claims.deep_view(), validation@),
        r.0 <= 100,
        r.1 <= 100,
{
    let ghost pol = policy@;
    let ghost cvs = claims.deep_view();
    let ghost tv = validation@;
    let ghost base = base_signal(cvs);
    let mut score: u32 = 0;
    let mut confidence: u32 = 0;
    if claims.len() != 0 {
        score = 1;
        confidence = 1;
    }
    let mut i: usize = 0;
    proof {
        assert(cvs.take(0) =~= Seq::<ClaimView>::empty());
    }
    while i < claims.len()
        invariant
            i <= cvs.len() == claims@.len(),
            cvs == claims.deep_view(),
            pol == policy@,
            base == base_signal(cvs),
            score as int == cap_u32(base + claims_score(pol, cvs.take(i as int))),
            confidence as int == cap_u32(base + claims_conf(pol, cvs.take(i as int))),
        decreases claims@.len() - i,
    {
        let claim = &claims[i];
        let ghost gvs = cvs[i as int].claim_generator;
        let ghost done = claims_score(pol, cvs.take(i as int));
        let ghost done_c = claims_conf(pol, cvs.take(i as int));
        assert(claim.claim_generator.deep_view() == gvs);
        let mut j: usize = 0;
        proof {
            assert(gvs.take(0) =~= Seq::<Seq<char>>::empty());
            lemma_claims_nonneg(pol, cvs.take(i as int));
        }
        while j < claim.claim_generator.len()
            invariant
                0 <= i < cvs.len() == claims@.len(),
                cvs == claims.deep_view(),
                pol == policy@,
                base == base_signal(cvs),
                claim == claims@[i as int],
                gvs == claim.claim_generator.deep_view(),
                j <= gvs.len() == claim.claim_generator@.len(),
                done == claims_score(pol, cvs.take(i as int)),
                done_c == claims_conf(pol, cvs.take(i as int)),
                base >= 0,
                done >= 0,
                done_c >= 0,
                score as int == cap_u32(base + done + gens_score(pol, gvs.take(j as int))),
                confidence as int == cap_u32(base + done_c + gens_conf(pol, gvs.take(j as int))),
            decreases claim.claim_generator@.len() - j,
        {
            let name = &claim.claim_generator[j];
            assert(name@ == gvs[j as int]);
            proof {
                lemma_gens_step(pol, gvs, j as int);
                lemma_gens_nonneg(pol, gvs.take(j as int));
            }
            if policy.matches_suspicious(name.as_str()) {
                proof {
                    lemma_cap_add(base + done + gens_score(pol, gvs.take(j as int)), 100);
                    lemma_cap_add(base + done_c + gens_conf(pol, gvs.take(j as int)), 50);
                }
                score = score.saturating_add(100);
                confidence = confidence.saturating_add(50);
            } else if policy.matches_manipulation(name.as_str()) {
                proof {
                    lemma_cap_add(base + done + gens_score(pol, gvs.take(j as int)), 50);
                    lemma_cap_add(base + done_c + gens_conf(pol, gvs.take(j as int)), 50);
                }
                score = score.saturating_add(50);
                confidence = confidence.saturating_add(50);
            }
            j += 1;
        }
        proof {
            assert(gvs.take(gvs.len() as int) =~= gvs);
            lemma_claims_step(pol, cvs, i as int);
        }
        i += 1;
    }
    proof {
        assert(cvs.take(cvs.len() as int) =~= cvs);
        lemma_claims_nonneg(pol, cvs);
    }
    let ghost claims_done = base + claims_score(pol, cvs);
    let ghost claims_done_c = base + claims_conf(pol, cvs);
    if validation.certs_count != 0 {
        proof {
            lemma_cap_add(claims_done, 20);
            lemma_cap_add(claims_done_c, 20);
        }
        score = score.saturating_add(20);
        confidence = confidence.saturating_add(20);
        match validation.state {
            ValidationState::Valid => {
                proof {
                    lemma_cap_add(claims_done_c + 20, 40);
                }
                confidence = confidence.saturating_add(40);
            },
            ValidationState::Trusted => {
                proof {
                    lemma_cap_add(claims_done_c + 20, 60);
                }
                confidence = confidence.saturating_add(60);
            },
            ValidationState::Invalid => {
                proof {
                    lemma_cap_add(claims_done + 20, 60);
                    lemma_cap_add(claims_done_c + 20, 20);
                }
                score = score.saturating_add(60);
                confidence = confidence.saturating_add(20);
            },
        }
    }
    assert(score as int == cap_u32(raw_score(pol, cvs, tv)));
    assert(confidence as int == cap_u32(raw_confidence(pol, cvs, tv)));
    let s: u8 = if score > 100 {
        100
    } else {
        score as u8
    };
    let c: u8 = if confidence > 100 {
        100
    } else {
        confidence as u8
    };
    (s, c)
}

} // verus!
