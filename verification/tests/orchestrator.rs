use rust_security::fingerprint::{BrowserFingerprint, FingerprintManager};
use rust_security::policy::TimingConfig;
use rust_security::proxy::ProxyConfig;
use rust_security::random::RandomSource;
use rust_security::risk::{RiskAssessor, RiskScore};
use rust_security::service::{
    configure, fingerprint_from, tls_profile_from, ConfigError, Resource, SecurityRequest,
    SecurityService, ROTATION_INTERVAL_SECS,
};
use rust_security::tls::{TLSManager, TLSProfile};

fn fingerprint(id: &str) -> BrowserFingerprint {
    BrowserFingerprint {
        id: id.to_string(),
        user_agent: format!("agent of {}", id),
        accept: "text/html".to_string(),
        accept_language: "en-GB".to_string(),
        accept_encoding: "gzip".to_string(),
        dnt: "0".to_string(),
    }
}

fn profile(name: &str) -> TLSProfile {
    TLSProfile {
        name: name.to_string(),
        cipher_suites: vec!["TLS_CHACHA20_POLY1305_SHA256".to_string()],
        extensions: vec!["alpn".to_string(), "sni".to_string()],
    }
}

fn proxy(n: u64) -> ProxyConfig {
    ProxyConfig {
        proxy_url: format!("socks5://10.0.0.{}:1080", n),
        proxy_type: "datacenter".to_string(),
        rotation_interval: 120,
    }
}

fn request(target: &str) -> SecurityRequest {
    SecurityRequest { target: target.to_string(), job_type: "crawl".to_string(), priority: 5 }
}

fn fingerprints() -> FingerprintManager {
    let mut manager = FingerprintManager::new();
    manager.set_pool("simple", vec![fingerprint("simple-a"), fingerprint("simple-b")]);
    manager.set_pool("standard", vec![fingerprint("standard-a"), fingerprint("standard-b")]);
    manager.set_pool("stealth", vec![fingerprint("stealth-a"), fingerprint("stealth-b")]);
    manager
}

fn profiles() -> TLSManager {
    let mut manager = TLSManager::new();
    manager.set_profile("chrome_latest", profile("chrome"));
    manager.set_profile("firefox_standard", profile("firefox"));
    manager
}

fn filled_service(pool: Vec<ProxyConfig>) -> SecurityService {
    let service = SecurityService::new();
    *service.fingerprint_manager.write().unwrap() = fingerprints();
    *service.tls_manager.write().unwrap() = profiles();
    *service.proxy_pool.write().unwrap() = pool;
    service
}

#[test]
fn configuration_follows_the_risk() {
    let mut assessor = RiskAssessor::new();
    let mut random = RandomSource::from_seed(11);
    let pool = vec![proxy(1), proxy(2)];
    let made = configure(
        &mut assessor,
        &fingerprints(),
        &profiles(),
        &pool,
        &request("https://www.facebook.com/login"),
        &mut random,
    )
    .unwrap();
    assert_eq!(made.fingerprint_id, "standard-a");
    assert_eq!(made.tls_config, profile("firefox"));
    assert_eq!(made.timing_config, TimingConfig {
        request_delay_min: 1000,
        request_delay_max: 4000,
        page_load_delay: 2000,
        human_simulation: true,
    });
    assert!(pool.contains(&made.proxy_config));
    assert_eq!(made.headers.get("User-Agent"), Some(&"agent of standard-a".to_string()));
    assert_eq!(made.headers.get("Connection"), Some(&"keep-alive".to_string()));
    assert_eq!(assessor.remembered("https://www.facebook.com/login"), Some(RiskScore::from_permille(600)));
}

#[test]
fn each_tier_gets_its_own_resources() {
    let mut assessor = RiskAssessor::new();
    let mut random = RandomSource::from_seed(12);
    let pool = vec![proxy(1), proxy(2)];
    let low = configure(&mut assessor, &fingerprints(), &profiles(), &pool, &request("https://example.com"), &mut random).unwrap();
    assert_eq!(low.fingerprint_id, "simple-a");
    assert_eq!(low.tls_config.name, "firefox");
    assert_eq!(low.proxy_config, proxy(1));
    assert_eq!(low.timing_config.request_delay_min, 500);
    assert!(!low.timing_config.human_simulation);
    let edge = configure(&mut assessor, &fingerprints(), &profiles(), &pool, &request("https://cdn.cloudflare.com/recaptcha/verify"), &mut random).unwrap();
    assert_eq!(edge.fingerprint_id, "standard-a");
    assert_eq!(edge.tls_config.name, "chrome");
    assert_eq!(edge.timing_config.request_delay_max, 4000);
    let high = configure(&mut assessor, &fingerprints(), &profiles(), &pool, &request("https://twitter.com/captcha"), &mut random).unwrap();
    assert_eq!(high.fingerprint_id, "stealth-a");
    assert_eq!(high.tls_config.name, "chrome");
    assert_eq!(high.timing_config.request_delay_min, 2000);
    assert_eq!(high.timing_config.page_load_delay, 3000);
    assert_eq!(assessor.remembered_count(), 3);
}

#[test]
fn missing_fingerprint_ends_the_work_first() {
    let mut assessor = RiskAssessor::new();
    let mut random = RandomSource::from_seed(13);
    let outcome = configure(
        &mut assessor,
        &FingerprintManager::new(),
        &TLSManager::new(),
        &Vec::new(),
        &request("https://example.com"),
        &mut random,
    );
    let error = outcome.unwrap_err();
    assert_eq!(error, ConfigError::ResourceUnavailable { resource: Resource::Fingerprint });
    assert_eq!(error.resource().name(), "fingerprint");
    assert_eq!(error.message(), "No suitable fingerprint available");
    assert_eq!(assessor.remembered_count(), 1);
}

#[test]
fn missing_tls_profile_is_reported() {
    let mut assessor = RiskAssessor::new();
    let mut random = RandomSource::from_seed(14);
    let mut tls = TLSManager::new();
    tls.set_profile("chrome_latest", profile("chrome"));
    let outcome = configure(
        &mut assessor,
        &fingerprints(),
        &tls,
        &Vec::new(),
        &request("https://example.com"),
        &mut random,
    );
    let error = outcome.unwrap_err();
    assert_eq!(error, ConfigError::ResourceUnavailable { resource: Resource::TlsProfile });
    assert_eq!(error.resource().name(), "tls_profile");
    assert_eq!(error.message(), "No suitable TLS profile available");
    let served = configure(
        &mut assessor,
        &fingerprints(),
        &tls,
        &Vec::new(),
        &request("https://instagram.com/captcha"),
        &mut random,
    );
    assert!(served.is_ok());
}

#[test]
fn stage_functions_say_which_resource_is_missing() {
    let score = RiskScore::from_permille(650);
    assert_eq!(
        fingerprint_from(&FingerprintManager::new(), score),
        Err(ConfigError::ResourceUnavailable { resource: Resource::Fingerprint })
    );
    assert_eq!(
        tls_profile_from(&TLSManager::new(), score),
        Err(ConfigError::ResourceUnavailable { resource: Resource::TlsProfile })
    );
    assert_eq!(fingerprint_from(&fingerprints(), score), Ok(fingerprint("standard-a")));
    assert_eq!(tls_profile_from(&profiles(), score), Ok(profile("chrome")));
}

#[test]
fn empty_pool_always_configures_the_direct_connection() {
    let service = filled_service(Vec::new());
    let mut random = RandomSource::from_seed(15);
    let targets = [
        "https://example.com",
        "https://www.facebook.com/login",
        "https://cdn.cloudflare.com/recaptcha/verify",
        "https://twitter.com/captcha",
        "https://portal.gov",
    ];
    for target in targets {
        let made = service.configure_security(request(target), &mut random).unwrap();
        assert_eq!(made.proxy_config.proxy_url, "direct");
        assert_eq!(made.proxy_config.proxy_type, "direct");
        assert_eq!(made.proxy_config.rotation_interval, 300);
    }
}

#[test]
fn shared_service_configures_like_the_plain_pipeline() {
    let service = filled_service(vec![proxy(1), proxy(2), proxy(3)]);
    let mut random = RandomSource::from_seed(16);
    let made = service.configure_security(request("https://irs.gov"), &mut random).unwrap();
    assert_eq!(made.fingerprint_id, "standard-a");
    assert_eq!(made.tls_config, profile("firefox"));
    assert_eq!(made.proxy_config, proxy(1));
    assert_eq!(made.timing_config.request_delay_min, 1000);
    assert_eq!(made.headers.get("User-Agent"), Some(&"agent of standard-a".to_string()));
    assert!(made.headers.len() >= 7);
    assert_eq!(service.risk_assessor.read().unwrap().remembered_count(), 1);
}

#[test]
fn new_service_has_no_resources() {
    let service = SecurityService::new();
    let mut random = RandomSource::from_seed(17);
    let outcome = service.configure_security(request("https://example.com"), &mut random);
    assert_eq!(
        outcome.unwrap_err(),
        ConfigError::ResourceUnavailable { resource: Resource::Fingerprint }
    );
    assert_eq!(service.fingerprint_of_tier("simple"), None);
    assert!(service.proxy_pool.read().unwrap().is_empty());
    assert_eq!(service.risk_assessor.read().unwrap().remembered_count(), 1);
}

#[test]
fn rotation_is_seen_by_later_requests() {
    let service = filled_service(Vec::new());
    let mut random = RandomSource::from_seed(18);
    assert_eq!(service.fingerprint_of_tier("stealth"), Some(fingerprint("stealth-a")));
    let before = service.configure_security(request("https://example.com"), &mut random).unwrap();
    assert_eq!(before.fingerprint_id, "simple-a");
    assert_eq!(service.rotate_fingerprints(), 1);
    assert_eq!(service.fingerprint_of_tier("stealth"), Some(fingerprint("stealth-b")));
    assert_eq!(service.fingerprint_of_tier("standard"), Some(fingerprint("standard-b")));
    let after = service.configure_security(request("https://example.com"), &mut random).unwrap();
    assert_eq!(after.fingerprint_id, "simple-b");
    assert_eq!(after.headers.get("User-Agent"), Some(&"agent of simple-b".to_string()));
    assert_eq!(service.rotate_fingerprints(), 2);
    assert_eq!(service.fingerprint_of_tier("simple"), Some(fingerprint("simple-a")));
}

#[test]
fn clones_of_a_service_share_its_resources() {
    let service = filled_service(Vec::new());
    let other = service.clone();
    other.rotate_fingerprints();
    assert_eq!(service.fingerprint_of_tier("simple"), Some(fingerprint("simple-b")));
    let mut random = RandomSource::from_seed(20);
    assert!(service.configure_security(request("https://linkedin.com"), &mut random).is_ok());
    assert_eq!(
        other.risk_assessor.read().unwrap().remembered("https://linkedin.com"),
        Some(RiskScore::from_permille(600))
    );
}

#[test]
fn background_rotation_runs_every_five_minutes() {
    assert_eq!(ROTATION_INTERVAL_SECS, 300);
}
