use rust_security::policy::{fingerprint_tier, timing_for, tls_tier, TimingConfig};
use rust_security::risk::{assess_heuristically, RiskAssessor, RiskScore};
use rust_security::text::{contains, ends_with, same_text};

fn band(min: u64, max: u64, page: u64, human: bool) -> TimingConfig {
    TimingConfig {
        request_delay_min: min,
        request_delay_max: max,
        page_load_delay: page,
        human_simulation: human,
    }
}

#[test]
fn social_login_page_is_standard_risk() {
    let mut assessor = RiskAssessor::new();
    let score = assessor.score("https://www.facebook.com/login");
    assert_eq!(score.permille(), 600);
    assert_eq!(fingerprint_tier(score), "standard");
    assert_eq!(tls_tier(score), "firefox_standard");
    assert_eq!(timing_for(score), band(1000, 4000, 2000, true));
}

#[test]
fn government_domain_is_half_risk() {
    let mut assessor = RiskAssessor::new();
    let score = assessor.score("https://irs.gov");
    assert_eq!(score.permille(), 500);
    assert_eq!(fingerprint_tier(score), "standard");
    assert_eq!(tls_tier(score), "firefox_standard");
    assert_eq!(timing_for(score), band(1000, 4000, 2000, true));
}

#[test]
fn government_suffix_counts_only_at_the_end() {
    let mut assessor = RiskAssessor::new();
    assert_eq!(assessor.score("https://irs.gov/file").permille(), 0);
    assert_eq!(assessor.score("https://army.mil").permille(), 500);
    assert_eq!(assessor.score("https://army.mil/").permille(), 0);
}

#[test]
fn cdn_with_captcha_sits_on_the_stealth_threshold() {
    let mut assessor = RiskAssessor::new();
    let score = assessor.score("https://cdn.cloudflare.com/recaptcha/verify");
    assert_eq!(score.permille(), 700);
    assert_eq!(fingerprint_tier(score), "standard");
    assert_eq!(tls_tier(score), "chrome_latest");
    assert_eq!(timing_for(score), band(1000, 4000, 2000, true));
}

#[test]
fn each_indicator_adds_its_weight() {
    assert_eq!(assess_heuristically("https://example.com").permille(), 0);
    assert_eq!(assess_heuristically("https://akamai.example.com").permille(), 300);
    assert_eq!(assess_heuristically("https://cloudflare.example.com").permille(), 300);
    assert_eq!(assess_heuristically("https://example.com/captcha").permille(), 400);
    assert_eq!(assess_heuristically("https://twitter.com").permille(), 600);
    assert_eq!(assess_heuristically("https://linkedin.com/in").permille(), 600);
    assert_eq!(assess_heuristically("https://instagram.com").permille(), 600);
    assert_eq!(assess_heuristically("https://akamai.example.gov").permille(), 800);
    assert_eq!(assess_heuristically("https://example.com/captcha.mil").permille(), 900);
}

#[test]
fn two_names_of_one_indicator_add_once() {
    assert_eq!(assess_heuristically("cloudflare akamai").permille(), 300);
    assert_eq!(assess_heuristically("facebook twitter linkedin instagram").permille(), 600);
}

#[test]
fn sum_is_cut_off_at_one() {
    assert_eq!(assess_heuristically("https://facebook.com/captcha").permille(), 1000);
    assert_eq!(assess_heuristically("https://facebook.com/portal.gov").permille(), 1000);
    assert_eq!(
        assess_heuristically("https://cloudflare.facebook.com/recaptcha.gov").permille(),
        1000
    );
    assert_eq!(RiskScore::from_permille(1200).permille(), 1000);
    assert_eq!(RiskScore::from_permille(u32::MAX).permille(), 1000);
    assert_eq!(RiskScore::from_permille(1000).permille(), 1000);
    assert_eq!(RiskScore::from_permille(999).permille(), 999);
    assert_eq!(RiskScore::from_permille(0).permille(), 0);
}

#[test]
fn score_lies_in_the_unit_range() {
    let targets = [
        "",
        "a",
        "https://example.com",
        "https://linkedin.com/captcha.mil",
        "cloudflarecloudflare",
        ".gov",
        "\u{e9}t\u{e9}.gov",
    ];
    for target in targets {
        assert!(assess_heuristically(target).permille() <= 1000);
    }
}

#[test]
fn matching_is_exact_about_case() {
    assert_eq!(assess_heuristically("https://CLOUDFLARE.com").permille(), 0);
    assert_eq!(assess_heuristically("https://Facebook.com").permille(), 0);
    assert_eq!(assess_heuristically("https://example.GOV").permille(), 0);
}

#[test]
fn score_is_remembered_and_repeated() {
    let mut assessor = RiskAssessor::new();
    assert_eq!(assessor.remembered_count(), 0);
    assert_eq!(assessor.remembered("https://twitter.com"), None);
    let first = assessor.score("https://twitter.com");
    assert_eq!(assessor.remembered_count(), 1);
    let second = assessor.score("https://twitter.com");
    assert_eq!(first, second);
    assert_eq!(assessor.remembered_count(), 1);
    assert_eq!(assessor.remembered("https://twitter.com"), Some(first));
    let other = assessor.score("https://example.com");
    assert_eq!(other.permille(), 0);
    assert_eq!(assessor.remembered_count(), 2);
    assert_eq!(assessor.score("https://twitter.com").permille(), 600);
    assert_eq!(assessor.remembered_count(), 2);
}

#[test]
fn targets_are_not_normalised_in_the_cache() {
    let mut assessor = RiskAssessor::new();
    assessor.score("https://twitter.com");
    assessor.score("https://twitter.com/");
    assessor.score("HTTPS://twitter.com");
    assert_eq!(assessor.remembered_count(), 3);
}

#[test]
fn new_assessor_holds_the_standard_catalog() {
    let assessor = RiskAssessor::new();
    let catalog = assessor.detection_patterns();
    assert_eq!(catalog.len(), 3);
    assert_eq!(catalog[0].pattern_type, "rate_limiting");
    assert_eq!(catalog[0].indicators, vec!["429".to_string(), "rate limit".to_string()]);
    assert_eq!(catalog[0].risk_score.permille(), 800);
    assert_eq!(catalog[1].pattern_type, "captcha");
    assert_eq!(catalog[1].indicators, vec!["captcha".to_string(), "recaptcha".to_string()]);
    assert_eq!(catalog[1].risk_score.permille(), 900);
    assert_eq!(catalog[2].pattern_type, "bot_detection");
    assert_eq!(
        catalog[2].indicators,
        vec!["bot detected".to_string(), "unusual traffic".to_string()]
    );
    assert_eq!(catalog[2].risk_score.permille(), 950);
}

#[test]
fn fingerprint_tier_is_strict_at_its_thresholds() {
    assert_eq!(fingerprint_tier(RiskScore::from_permille(1000)), "stealth");
    assert_eq!(fingerprint_tier(RiskScore::from_permille(701)), "stealth");
    assert_eq!(fingerprint_tier(RiskScore::from_permille(700)), "standard");
    assert_eq!(fingerprint_tier(RiskScore::from_permille(401)), "standard");
    assert_eq!(fingerprint_tier(RiskScore::from_permille(400)), "simple");
    assert_eq!(fingerprint_tier(RiskScore::from_permille(0)), "simple");
}

#[test]
fn tls_tier_is_strict_at_its_threshold() {
    assert_eq!(tls_tier(RiskScore::from_permille(1000)), "chrome_latest");
    assert_eq!(tls_tier(RiskScore::from_permille(601)), "chrome_latest");
    assert_eq!(tls_tier(RiskScore::from_permille(600)), "firefox_standard");
    assert_eq!(tls_tier(RiskScore::from_permille(0)), "firefox_standard");
}

#[test]
fn timing_bands_have_their_values() {
    assert_eq!(timing_for(RiskScore::from_permille(1000)), band(2000, 8000, 3000, true));
    assert_eq!(timing_for(RiskScore::from_permille(701)), band(2000, 8000, 3000, true));
    assert_eq!(timing_for(RiskScore::from_permille(700)), band(1000, 4000, 2000, true));
    assert_eq!(timing_for(RiskScore::from_permille(401)), band(1000, 4000, 2000, true));
    assert_eq!(timing_for(RiskScore::from_permille(400)), band(500, 2000, 1000, false));
    assert_eq!(timing_for(RiskScore::from_permille(0)), band(500, 2000, 1000, false));
}

#[test]
fn every_timing_band_is_ordered() {
    for value in 0..=1000u32 {
        let band = timing_for(RiskScore::from_permille(value));
        assert!(band.request_delay_min <= band.request_delay_max);
    }
}

#[test]
fn substring_search_finds_what_is_there() {
    assert!(contains("https://cdn.cloudflare.com", "cloudflare"));
    assert!(contains("cloudflare", "cloudflare"));
    assert!(contains("xcloudflare", "cloudflare"));
    assert!(contains("cloudflarex", "cloudflare"));
    assert!(contains("aab", "ab"));
    assert!(contains("anything", ""));
    assert!(contains("", ""));
    assert!(!contains("", "a"));
    assert!(!contains("cloudflar", "cloudflare"));
    assert!(!contains("cloud flare", "cloudflare"));
    assert!(!contains("short", "much longer than the text"));
    assert!(contains("caf\u{e9}.gov", "\u{e9}.g"));
    assert!(!contains("cafe.gov", "\u{e9}"));
}

#[test]
fn suffix_test_looks_at_the_end_only() {
    assert!(ends_with("example.gov", ".gov"));
    assert!(ends_with(".gov", ".gov"));
    assert!(ends_with("anything", ""));
    assert!(ends_with("", ""));
    assert!(!ends_with("gov", ".gov"));
    assert!(!ends_with("example.gov/", ".gov"));
    assert!(!ends_with("example.gov.uk", ".gov"));
    assert!(ends_with("na\u{ef}ve.mil", "\u{ef}ve.mil"));
}

#[test]
fn same_text_compares_every_character() {
    assert!(same_text("", ""));
    assert!(same_text("Accept", "Accept"));
    assert!(!same_text("Accept", "accept"));
    assert!(!same_text("Accept", "Accept-Language"));
    assert!(!same_text("Accept-Language", "Accept-Encoding"));
}
