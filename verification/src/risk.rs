//! Detection-risk scores: the heuristic that estimates one from a target's
//! text, and the assessor that remembers each estimate.

use crate::text::{chars_of, closes_with, has_substring, has_suffix, mentions};
use vstd::hash_map::StringHashMap;
use vstd::prelude::*;

verus! {

/// The scale of a risk score: this many thousandths make certainty.
pub const FULL_SCALE: u32 = 1000;

/// Added when the target sits behind a content-delivery network.
pub const CDN_WEIGHT: u32 = 300;

/// Added when the target is a government or military site.
pub const GOVERNMENT_WEIGHT: u32 = 500;

/// Added when the target names a captcha service.
pub const CAPTCHA_WEIGHT: u32 = 400;

/// Added when the target is a social-media platform.
pub const SOCIAL_WEIGHT: u32 = 600;

/// A detection-risk estimate between zero and one, held in thousandths:
/// 0 stands for no risk, 1000 for certain detection.
#[derive(Clone, Copy, Debug, PartialEq, Eq, Structural)]
pub struct RiskScore {
    permille: u16,
}

impl View for RiskScore {
    type V = nat;

    /// The score in thousandths.
    closed spec fn view(&self) -> nat {
        self.permille as nat
    }
}

impl RiskScore {
    #[verifier::type_invariant]
    closed spec fn within_scale(self) -> bool {
        self.permille <= FULL_SCALE
    }

    /// The score of `value` thousandths; anything above the full scale counts
    /// as the full scale.
    pub fn from_permille(value: u32) -> (score: RiskScore)
        ensures
            score@ == clamp_to_scale(value as nat),
    {
        if value >= FULL_SCALE {
            RiskScore { permille: 1000 }
        } else {
            RiskScore { permille: value as u16 }
        }
    }

    /// The score in thousandths, never above 1000.
    pub fn permille(&self) -> (value: u16)
        ensures
            value == self@,
            value <= FULL_SCALE,
    {
        proof {
            use_type_invariant(self);
        }
        self.permille
    }
}

/// `raw` cut off at the full scale.
pub open spec fn clamp_to_scale(raw: nat) -> nat {
    if raw > FULL_SCALE {
        FULL_SCALE as nat
    } else {
        raw
    }
}

/// The target names a content-delivery network.
pub open spec fn names_cdn(target: Seq<char>) -> bool {
    has_substring(target, "cloudflare"@) || has_substring(target, "akamai"@)
}

/// The target ends in a government or military domain.
pub open spec fn names_government(target: Seq<char>) -> bool {
    has_suffix(target, ".gov"@) || has_suffix(target, ".mil"@)
}

/// The target names a captcha service.
pub open spec fn names_captcha(target: Seq<char>) -> bool {
    has_substring(target, "recaptcha"@) || has_substring(target, "captcha"@)
}

/// The target names a social-media platform.
pub open spec fn names_social(target: Seq<char>) -> bool {
    has_substring(target, "facebook"@) || has_substring(target, "twitter"@) || has_substring(
        target,
        "linkedin"@,
    ) || has_substring(target, "instagram"@)
}

/// The weights of every indicator that `target` shows, added up.
pub open spec fn raw_risk(target: Seq<char>) -> nat {
    let cdn: nat = if names_cdn(target) { CDN_WEIGHT as nat } else { 0 };
    let government: nat = if names_government(target) { GOVERNMENT_WEIGHT as nat } else { 0 };
    let captcha: nat = if names_captcha(target) { CAPTCHA_WEIGHT as nat } else { 0 };
    let social: nat = if names_social(target) { SOCIAL_WEIGHT as nat } else { 0 };
    cdn + government + captcha + social
}

/// The risk of `target` in thousandths: its indicators' weights added up and
/// cut off at the full scale. Matching is exact; the text is not normalised.
pub open spec fn heuristic_risk(target: Seq<char>) -> nat {
    clamp_to_scale(raw_risk(target))
}

/// Estimates the risk of `target` from the indicators in its text.
pub fn assess_heuristically(target: &str) -> (score: RiskScore)
    ensures
        score@ == heuristic_risk(target@),
{
    let text = chars_of(target);
    let mut raw: u32 = 0;
    if mentions(&text, "cloudflare") || mentions(&text, "akamai") {
        raw = raw + CDN_WEIGHT;
    }
    if closes_with(&text, ".gov") || closes_with(&text, ".mil") {
        raw = raw + GOVERNMENT_WEIGHT;
    }
    if mentions(&text, "recaptcha") || mentions(&text, "captcha") {
        raw = raw + CAPTCHA_WEIGHT;
    }
    if mentions(&text, "facebook") || mentions(&text, "twitter") || mentions(&text, "linkedin")
        || mentions(&text, "instagram") {
        raw = raw + SOCIAL_WEIGHT;
    }
    RiskScore::from_permille(raw)
}

/// A family of responses by which a site shows that it has detected
/// automation. The catalog describes; no score is computed from it.
#[derive(Clone, Debug)]
pub struct DetectionPattern {
    pub pattern_type: String,
    pub indicators: Vec<String>,
    pub risk_score: RiskScore,
}

/// `pattern` is the category `category` with the two indicators given and the
/// weight `weight` in thousandths.
pub open spec fn describes(
    pattern: DetectionPattern,
    category: Seq<char>,
    first: Seq<char>,
    second: Seq<char>,
    weight: nat,
) -> bool {
    &&& pattern.pattern_type@ == category
    &&& pattern.indicators@.len() == 2
    &&& pattern.indicators@[0]@ == first
    &&& pattern.indicators@[1]@ == second
    &&& pattern.risk_score@ == weight
}

/// `patterns` is the catalog that every new assessor starts with.
pub open spec fn is_standard_catalog(patterns: Seq<DetectionPattern>) -> bool {
    &&& patterns.len() == 3
    &&& describes(patterns[0], "rate_limiting"@, "429"@, "rate limit"@, 800)
    &&& describes(patterns[1], "captcha"@, "captcha"@, "recaptcha"@, 900)
    &&& describes(patterns[2], "bot_detection"@, "bot detected"@, "unusual traffic"@, 950)
}

fn pattern(category: &str, first: &str, second: &str, weight: u32) -> (made: DetectionPattern)
    ensures
        describes(made, category@, first@, second@, clamp_to_scale(weight as nat)),
{
    let mut indicators: Vec<String> = Vec::new();
    indicators.push(first.to_owned());
    indicators.push(second.to_owned());
    DetectionPattern {
        pattern_type: category.to_owned(),
        indicators,
        risk_score: RiskScore::from_permille(weight),
    }
}

/// What one scoring of `target` does: it gives the heuristic's risk of the
/// target, remembers the target beside those remembered `before`, and leaves
/// the catalog alone.
pub open spec fn scored(
    before: RiskAssessor,
    target: Seq<char>,
    after: RiskAssessor,
    score: RiskScore,
) -> bool {
    &&& score@ == heuristic_risk(target)
    &&& after.cached() == before.cached().insert(target)
    &&& after.patterns() == before.patterns()
}

/// Scores targets and remembers every score it has computed. An entry, once
/// made, stays for the assessor's lifetime.
pub struct RiskAssessor {
    domain_risk_cache: StringHashMap<RiskScore>,
    detection_patterns: Vec<DetectionPattern>,
}

impl RiskAssessor {
    #[verifier::type_invariant]
    closed spec fn cache_is_faithful(self) -> bool {
        forall|target: Seq<char>| #[trigger]
            self.domain_risk_cache@.contains_key(target) ==> self.domain_risk_cache@[target]@
                == heuristic_risk(target)
    }

    /// The targets whose score is remembered.
    pub closed spec fn cached(&self) -> Set<Seq<char>> {
        self.domain_risk_cache@.dom()
    }

    /// The catalog of detection patterns.
    pub closed spec fn patterns(&self) -> Seq<DetectionPattern> {
        self.detection_patterns@
    }

    /// An assessor that remembers nothing yet and holds the standard catalog.
    pub fn new() -> (assessor: RiskAssessor)
        ensures
            assessor.cached() == Set::<Seq<char>>::empty(),
            is_standard_catalog(assessor.patterns()),
    {
        let mut detection_patterns: Vec<DetectionPattern> = Vec::new();
        detection_patterns.push(pattern("rate_limiting", "429", "rate limit", 800));
        detection_patterns.push(pattern("captcha", "captcha", "recaptcha", 900));
        detection_patterns.push(pattern("bot_detection", "bot detected", "unusual traffic", 950));
        let assessor = RiskAssessor {
            domain_risk_cache: StringHashMap::new(),
            detection_patterns,
        };
        assert(assessor.cached() =~= Set::<Seq<char>>::empty());
        assessor
    }

    /// The risk of `target`, between zero and one. A remembered score is
    /// handed back as it is, and the assessor stays as it was; otherwise the
    /// heuristic runs once and its result is remembered.
    pub fn score(&mut self, target: &str) -> (score: RiskScore)
        ensures
            scored(*old(self), target@, *final(self), score),
            score@ <= FULL_SCALE,
            old(self).cached().contains(target@) ==> final(self).cached() == old(self).cached(),
    {
        proof {
            use_type_invariant(&*self);
        }
        match self.domain_risk_cache.get(target) {
            Some(hit) => {
                assert(self.cached().insert(target@) =~= self.cached());
                return *hit;
            },
            None => {},
        }
        let score = assess_heuristically(target);
        let mut cache: StringHashMap<RiskScore> = StringHashMap::new();
        std::mem::swap(&mut self.domain_risk_cache, &mut cache);
        cache.insert(target.to_owned(), score);
        std::mem::swap(&mut self.domain_risk_cache, &mut cache);
        score
    }

    /// The remembered score of `target`, if there is one.
    pub fn remembered(&self, target: &str) -> (hit: Option<RiskScore>)
        ensures
            hit is Some == self.cached().contains(target@),
            hit is Some ==> hit->0@ == heuristic_risk(target@),
    {
        proof {
            use_type_invariant(self);
        }
        match self.domain_risk_cache.get(target) {
            Some(hit) => Some(*hit),
            None => None,
        }
    }

    /// How many scores are remembered: one for each run of the heuristic.
    pub fn remembered_count(&self) -> (count: usize)
        ensures
            count == self.cached().len(),
    {
        broadcast use vstd::hash_map::group_hash_map_axioms;

        self.domain_risk_cache.len()
    }

    /// The catalog of detection patterns.
    pub fn detection_patterns(&self) -> (catalog: &Vec<DetectionPattern>)
        ensures
            catalog@ == self.patterns(),
    {
        &self.detection_patterns
    }
}

/// Whatever the target, its risk lies between zero and one.
pub proof fn heuristic_risk_is_in_range(target: Seq<char>)
    ensures
        0 <= heuristic_risk(target) <= FULL_SCALE,
{
}

/// Scoring is idempotent: a second scoring of a target gives the score that
/// the first gave and leaves the assessor as the first left it, so that the
/// heuristic has run once for the two.
pub proof fn scoring_is_idempotent(
    before: RiskAssessor,
    between: RiskAssessor,
    after: RiskAssessor,
    target: Seq<char>,
    first: RiskScore,
    second: RiskScore,
)
    requires
        scored(before, target, between, first),
        scored(between, target, after, second),
    ensures
        second@ == first@,
        between.cached().contains(target),
        after.cached() == between.cached(),
        after.patterns() == between.patterns(),
{
    assert(between.cached().insert(target) =~= between.cached());
}

/// A score once remembered stays remembered: scoring one target forgets no
/// other.
pub proof fn scoring_forgets_nothing(
    before: RiskAssessor,
    after: RiskAssessor,
    target: Seq<char>,
    score: RiskScore,
    other: Seq<char>,
)
    requires
        scored(before, target, after, score),
        before.cached().contains(other),
    ensures
        after.cached().contains(other),
{
}

} // verus!
