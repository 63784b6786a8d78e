//! The orchestrator: from a request to its configuration, over resources
//! passed in and over resources shared behind locks.

use crate::fingerprint::{BrowserFingerprint, FingerprintManager, FingerprintModel};
use crate::headers::{build_headers, header_set, HeaderMap};
use crate::policy::{
    fingerprint_tier, fingerprint_tier_name, rotates_proxy, timing_band, timing_for, tls_tier,
    tls_tier_name, TimingConfig,
};
use crate::proxy::{direct_connection, pick_proxy, ProxyConfig};
use crate::random::RandomSource;
use crate::risk::{heuristic_risk, RiskAssessor, RiskScore};
use crate::shared::{new_lock, read_guarded, read_lock, write_guarded, write_lock};
use crate::tls::{TLSManager, TLSProfile};
use std::sync::{Arc, RwLock};
use vstd::prelude::*;

verus! {

/// How often the fingerprints are rotated in the background, in seconds.
pub const ROTATION_INTERVAL_SECS: u64 = 300;

/// What a client asks a configuration for.
#[derive(Clone, Debug, PartialEq, Eq)]
pub struct SecurityRequest {
    pub target: String,
    pub job_type: String,
    pub priority: i32,
}

/// A summary of the configuration that a job ran under.
#[derive(Clone, Debug, PartialEq, Eq)]
pub struct SecurityMetadata {
    pub fingerprint: String,
    pub proxy_used: String,
    pub tls_profile: String,
    pub user_agent: String,
    pub detection_risk: String,
}

/// The configuration for one request.
#[derive(Debug)]
pub struct SecurityConfiguration {
    pub headers: HeaderMap,
    pub tls_config: TLSProfile,
    pub proxy_config: ProxyConfig,
    pub timing_config: TimingConfig,
    pub fingerprint_id: String,
}

/// A resource that a configuration is made from.
#[derive(Clone, Copy, Debug, PartialEq, Eq, Structural)]
pub enum Resource {
    Fingerprint,
    TlsProfile,
}

/// Why no configuration could be made.
#[derive(Clone, Copy, Debug, PartialEq, Eq, Structural)]
pub enum ConfigError {
    /// The tier that the target's risk calls for has nothing of this
    /// resource. Nothing is tried again: the caller may ask anew.
    ResourceUnavailable { resource: Resource },
}

impl Resource {
    /// The resource's name: `fingerprint` or `tls_profile`.
    pub fn name(&self) -> (name: &'static str)
        ensures
            name@ == (match *self {
                Resource::Fingerprint => "fingerprint"@,
                Resource::TlsProfile => "tls_profile"@,
            }),
    {
        match self {
            Resource::Fingerprint => "fingerprint",
            Resource::TlsProfile => "tls_profile",
        }
    }
}

impl ConfigError {
    /// The resource that was missing.
    pub fn resource(&self) -> (resource: Resource)
        ensures
            *self == (ConfigError::ResourceUnavailable { resource }),
    {
        match self {
            ConfigError::ResourceUnavailable { resource } => *resource,
        }
    }

    /// The error in words.
    pub fn message(&self) -> (text: String)
        ensures
            text@ == (match *self {
                ConfigError::ResourceUnavailable { resource: Resource::Fingerprint } =>
                    "No suitable fingerprint available"@,
                ConfigError::ResourceUnavailable { resource: Resource::TlsProfile } =>
                    "No suitable TLS profile available"@,
            }),
    {
        match self {
            ConfigError::ResourceUnavailable { resource: Resource::Fingerprint } => {
                "No suitable fingerprint available".to_owned()
            },
            ConfigError::ResourceUnavailable { resource: Resource::TlsProfile } => {
                "No suitable TLS profile available".to_owned()
            },
        }
    }
}

/// The fingerprint for a target of `score`: the one that `manager` has in
/// use for the score's tier. That the tier has none is an error.
pub fn fingerprint_from(manager: &FingerprintManager, score: RiskScore) -> (outcome: Result<
    BrowserFingerprint,
    ConfigError,
>)
    ensures
        match outcome {
            Ok(fingerprint) => manager.active(fingerprint_tier_name(score@)) == Some(
                fingerprint@,
            ),
            Err(error) => manager.active(fingerprint_tier_name(score@)) is None && error == (
            ConfigError::ResourceUnavailable { resource: Resource::Fingerprint }),
        },
{
    match manager.get_fingerprint(fingerprint_tier(score)) {
        Some(fingerprint) => Ok(fingerprint),
        None => Err(ConfigError::ResourceUnavailable { resource: Resource::Fingerprint }),
    }
}

/// The TLS profile for a target of `score`: the one that `manager` has for
/// the score's tier. That the tier has none is an error.
pub fn tls_profile_from(manager: &TLSManager, score: RiskScore) -> (outcome: Result<
    TLSProfile,
    ConfigError,
>)
    ensures
        match outcome {
            Ok(profile) => manager.profile(tls_tier_name(score@)) == Some(profile@),
            Err(error) => manager.profile(tls_tier_name(score@)) is None && error == (
            ConfigError::ResourceUnavailable { resource: Resource::TlsProfile }),
        },
{
    match manager.get_profile(tls_tier(score)) {
        Some(profile) => Ok(profile),
        None => Err(ConfigError::ResourceUnavailable { resource: Resource::TlsProfile }),
    }
}

/// `configuration` is one for a target of `score` thousandths, made from
/// `fingerprint`: it names the fingerprint, carries the timing band of the
/// score and the headers built from the fingerprint, with or without each
/// group of optional ones.
pub open spec fn made_from(
    configuration: SecurityConfiguration,
    score: nat,
    fingerprint: FingerprintModel,
) -> bool {
    &&& configuration.fingerprint_id@ == fingerprint.id
    &&& configuration.timing_config == timing_band(score)
    &&& exists|cache_control: bool, fetch_metadata: bool|
        configuration.headers@ == #[trigger] header_set(fingerprint, cache_control, fetch_metadata)
}

/// `configuration` is one for a target of `score` thousandths, made from
/// some fingerprint.
pub open spec fn made_for(configuration: SecurityConfiguration, score: nat) -> bool {
    exists|fingerprint: FingerprintModel| made_from(configuration, score, fingerprint)
}

/// `proxy` is a choice that the selection rule allows for a target of
/// `score` thousandths over `pool`.
pub open spec fn proxy_allowed(proxy: ProxyConfig, pool: Seq<ProxyConfig>, score: nat) -> bool {
    if pool.len() == 0 {
        proxy@ == direct_connection()
    } else if rotates_proxy(score) {
        exists|i: int| 0 <= i < pool.len() && proxy@ == #[trigger] pool[i]@
    } else {
        proxy@ == pool[0]@
    }
}

/// Makes the configuration for `request` from the resources given: scores
/// the target, then takes the fingerprint and the TLS profile of the score's
/// tiers, picks the proxy, sets the timing and builds the headers. The first
/// resource that is missing ends the work with its error, and nothing of a
/// configuration is handed out. The score is remembered either way.
pub fn configure(
    assessor: &mut RiskAssessor,
    fingerprints: &FingerprintManager,
    tls: &TLSManager,
    pool: &Vec<ProxyConfig>,
    request: &SecurityRequest,
    random: &mut RandomSource,
) -> (outcome: Result<SecurityConfiguration, ConfigError>)
    ensures
        final(assessor).cached() == old(assessor).cached().insert(request.target@),
        final(assessor).patterns() == old(assessor).patterns(),
        outcome is Ok <==> fingerprints.active(
            fingerprint_tier_name(heuristic_risk(request.target@)),
        ) is Some && tls.profile(tls_tier_name(heuristic_risk(request.target@))) is Some,
        ({
            let score = heuristic_risk(request.target@);
            let fingerprint = fingerprints.active(fingerprint_tier_name(score));
            let profile = tls.profile(tls_tier_name(score));
            match outcome {
                Ok(configuration) => {
                    &&& fingerprint is Some
                    &&& profile is Some
                    &&& made_from(configuration, score, fingerprint->0)
                    &&& configuration.tls_config@ == profile->0
                    &&& proxy_allowed(configuration.proxy_config, pool@, score)
                },
                Err(error) => {
                    ||| fingerprint is None && error == (ConfigError::ResourceUnavailable {
                        resource: Resource::Fingerprint,
                    })
                    ||| fingerprint is Some && profile is None && error == (
                    ConfigError::ResourceUnavailable { resource: Resource::TlsProfile })
                },
            }
        }),
{
    let score = assessor.score(request.target.as_str());
    let fingerprint = match fingerprint_from(fingerprints, score) {
        Ok(fingerprint) => fingerprint,
        Err(error) => {
            return Err(error);
        },
    };
    let tls_config = match tls_profile_from(tls, score) {
        Ok(profile) => profile,
        Err(error) => {
            return Err(error);
        },
    };
    let proxy_config = pick_proxy(pool, score, random);
    let timing_config = timing_for(score);
    let headers = build_headers(&fingerprint, random);
    Ok(
        SecurityConfiguration {
            headers,
            tls_config,
            proxy_config,
            timing_config,
            fingerprint_id: fingerprint.id.clone(),
        },
    )
}

/// The resources that all requests share, each behind a lock of its own, so
/// that requests wait for one another only where they use the same resource.
#[derive(Clone)]
pub struct SecurityService {
    pub fingerprint_manager: Arc<RwLock<FingerprintManager>>,
    pub tls_manager: Arc<RwLock<TLSManager>>,
    pub proxy_pool: Arc<RwLock<Vec<ProxyConfig>>>,
    pub risk_assessor: Arc<RwLock<RiskAssessor>>,
}

impl SecurityService {
    /// A service with no fingerprint, no TLS profile and no proxy yet, and an
    /// assessor that remembers nothing.
    pub fn new() -> (service: SecurityService) {
        SecurityService {
            fingerprint_manager: Arc::new(new_lock(FingerprintManager::new())),
            tls_manager: Arc::new(new_lock(TLSManager::new())),
            proxy_pool: Arc::new(new_lock(Vec::new())),
            risk_assessor: Arc::new(new_lock(RiskAssessor::new())),
        }
    }

    /// Makes the configuration for `request`, as `configure` does, from the
    /// shared resources as each is found when its turn comes. Each step holds
    /// the lock of its own resource and no other. What other requests and
    /// rotations do to the resources meanwhile is not known here, so of a
    /// configuration only this is stated: it has the timing band of the
    /// target's risk, and its headers and fingerprint id come from one
    /// fingerprint.
    pub fn configure_security(&self, request: SecurityRequest, random: &mut RandomSource) -> (outcome:
        Result<SecurityConfiguration, ConfigError>)
        ensures
            match outcome {
                Ok(configuration) => made_for(configuration, heuristic_risk(request.target@)),
                Err(error) => error == (ConfigError::ResourceUnavailable {
                    resource: Resource::Fingerprint,
                }) || error == (ConfigError::ResourceUnavailable {
                    resource: Resource::TlsProfile,
                }),
            },
    {
        let risk_score = self.assess_target_risk(request.target.as_str());
        let fingerprint = match self.select_fingerprint(&request, risk_score) {
            Ok(fingerprint) => fingerprint,
            Err(error) => {
                return Err(error);
            },
        };
        let tls_config = match self.get_tls_configuration(&request, risk_score) {
            Ok(profile) => profile,
            Err(error) => {
                return Err(error);
            },
        };
        let proxy_config = self.select_proxy(&request, risk_score, random);
        let timing_config = self.configure_timing(&request, risk_score);
        let headers = self.build_headers(&fingerprint, &request, random);
        let configuration = SecurityConfiguration {
            headers,
            tls_config,
            proxy_config,
            timing_config,
            fingerprint_id: fingerprint.id.clone(),
        };
        assert(made_from(configuration, heuristic_risk(request.target@), fingerprint@));
        Ok(configuration)
    }

    /// The risk of `target`. The lookup, the heuristic and the remembering
    /// run under the assessor's lock taken for writing, hits included, so
    /// that all scoring goes one request at a time.
    fn assess_target_risk(&self, target: &str) -> (score: RiskScore)
        ensures
            score@ == heuristic_risk(target@),
    {
        let mut guard = write_lock(&self.risk_assessor);
        let assessor = write_guarded(&mut guard);
        assessor.score(target)
    }

    /// The fingerprint in use for the tier of `risk_score`, read under the
    /// fingerprint manager's lock.
    fn select_fingerprint(&self, _request: &SecurityRequest, risk_score: RiskScore) -> (outcome:
        Result<BrowserFingerprint, ConfigError>)
        ensures
            outcome is Err ==> outcome->Err_0 == (ConfigError::ResourceUnavailable {
                resource: Resource::Fingerprint,
            }),
    {
        let guard = read_lock(&self.fingerprint_manager);
        fingerprint_from(read_guarded(&guard), risk_score)
    }

    /// The TLS profile for the tier of `risk_score`, read under the TLS
    /// manager's lock.
    fn get_tls_configuration(&self, _request: &SecurityRequest, risk_score: RiskScore) -> (outcome:
        Result<TLSProfile, ConfigError>)
        ensures
            outcome is Err ==> outcome->Err_0 == (ConfigError::ResourceUnavailable {
                resource: Resource::TlsProfile,
            }),
    {
        let guard = read_lock(&self.tls_manager);
        tls_profile_from(read_guarded(&guard), risk_score)
    }

    /// The proxy for `risk_score`, picked under the pool's lock.
    fn select_proxy(
        &self,
        _request: &SecurityRequest,
        risk_score: RiskScore,
        random: &mut RandomSource,
    ) -> (proxy: ProxyConfig) {
        let guard = read_lock(&self.proxy_pool);
        pick_proxy(read_guarded(&guard), risk_score, random)
    }

    /// The timing band for `risk_score`.
    fn configure_timing(&self, _request: &SecurityRequest, risk_score: RiskScore) -> (band:
        TimingConfig)
        ensures
            band == timing_band(risk_score@),
            band.request_delay_min <= band.request_delay_max,
    {
        timing_for(risk_score)
    }

    /// The headers for `fingerprint`.
    fn build_headers(
        &self,
        fingerprint: &BrowserFingerprint,
        _request: &SecurityRequest,
        random: &mut RandomSource,
    ) -> (headers: HeaderMap)
        ensures
            exists|cache_control: bool, fetch_metadata: bool|
                headers@ == #[trigger] header_set(fingerprint@, cache_control, fetch_metadata),
    {
        build_headers(fingerprint, random)
    }

    /// The fingerprint in use for `tier`, if the tier has any, read under the
    /// fingerprint manager's lock.
    pub fn fingerprint_of_tier(&self, tier: &str) -> (found: Option<BrowserFingerprint>) {
        let guard = read_lock(&self.fingerprint_manager);
        read_guarded(&guard).get_fingerprint(tier)
    }

    /// Rotates the fingerprints under the manager's lock taken for writing,
    /// and says how many rotations there have been. The rotation on the
    /// clock and the one on demand both come through here, so one is over
    /// before the other begins, and no lookup sees a rotation half done.
    pub fn rotate_fingerprints(&self) -> (rotations: u64) {
        let mut guard = write_lock(&self.fingerprint_manager);
        let manager = write_guarded(&mut guard);
        manager.rotate_fingerprints();
        manager.rotation_count()
    }
}

} // verus!
