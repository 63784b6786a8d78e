//! The tiering rules: from a risk score to a fingerprint class, a TLS class
//! and a timing band. Every comparison is strict, so a score that sits on a
//! threshold falls to the lower tier.

use crate::risk::RiskScore;
use vstd::prelude::*;

verus! {

/// Above this score a target gets the stealth fingerprint and the slowest
/// timing.
pub const HIGH_RISK: u16 = 700;

/// Above this score a target gets the standard fingerprint and moderate
/// timing.
pub const ELEVATED_RISK: u16 = 400;

/// Above this score a target gets the newest browser's TLS profile.
pub const MODERN_TLS_RISK: u16 = 600;

/// Above this score a target's proxy is drawn afresh for every request.
pub const ROTATING_PROXY_RISK: u16 = 500;

/// How long to wait between requests and after a page has loaded, in
/// milliseconds, and whether to imitate a human's pauses.
#[derive(Clone, Copy, Debug, PartialEq, Eq, Structural)]
pub struct TimingConfig {
    pub request_delay_min: u64,
    pub request_delay_max: u64,
    pub page_load_delay: u64,
    pub human_simulation: bool,
}

/// The name of the fingerprint class for a score in thousandths.
pub open spec fn fingerprint_tier_name(score: nat) -> Seq<char> {
    if score > HIGH_RISK {
        "stealth"@
    } else if score > ELEVATED_RISK {
        "standard"@
    } else {
        "simple"@
    }
}

/// The name of the TLS class for a score in thousandths.
pub open spec fn tls_tier_name(score: nat) -> Seq<char> {
    if score > MODERN_TLS_RISK {
        "chrome_latest"@
    } else {
        "firefox_standard"@
    }
}

/// The timing band for a score in thousandths.
pub open spec fn timing_band(score: nat) -> TimingConfig {
    if score > HIGH_RISK {
        TimingConfig {
            request_delay_min: 2000,
            request_delay_max: 8000,
            page_load_delay: 3000,
            human_simulation: true,
        }
    } else if score > ELEVATED_RISK {
        TimingConfig {
            request_delay_min: 1000,
            request_delay_max: 4000,
            page_load_delay: 2000,
            human_simulation: true,
        }
    } else {
        TimingConfig {
            request_delay_min: 500,
            request_delay_max: 2000,
            page_load_delay: 1000,
            human_simulation: false,
        }
    }
}

/// Whether a target with this score, in thousandths, has its proxy drawn at
/// random rather than pinned to the first of the pool.
pub open spec fn rotates_proxy(score: nat) -> bool {
    score > ROTATING_PROXY_RISK
}

/// The fingerprint class for `score`.
pub fn fingerprint_tier(score: RiskScore) -> (tier: &'static str)
    ensures
        tier@ == fingerprint_tier_name(score@),
{
    let value: u16 = score.permille();
    if value > HIGH_RISK {
        "stealth"
    } else if value > ELEVATED_RISK {
        "standard"
    } else {
        "simple"
    }
}

/// The TLS class for `score`.
pub fn tls_tier(score: RiskScore) -> (tier: &'static str)
    ensures
        tier@ == tls_tier_name(score@),
{
    if score.permille() > MODERN_TLS_RISK {
        "chrome_latest"
    } else {
        "firefox_standard"
    }
}

/// The timing band for `score`.
pub fn timing_for(score: RiskScore) -> (band: TimingConfig)
    ensures
        band == timing_band(score@),
        band.request_delay_min <= band.request_delay_max,
{
    let value: u16 = score.permille();
    if value > HIGH_RISK {
        TimingConfig {
            request_delay_min: 2000,
            request_delay_max: 8000,
            page_load_delay: 3000,
            human_simulation: true,
        }
    } else if value > ELEVATED_RISK {
        TimingConfig {
            request_delay_min: 1000,
            request_delay_max: 4000,
            page_load_delay: 2000,
            human_simulation: true,
        }
    } else {
        TimingConfig {
            request_delay_min: 500,
            request_delay_max: 2000,
            page_load_delay: 1000,
            human_simulation: false,
        }
    }
}

/// Whether the proxy for `score` is drawn at random.
pub fn draws_proxy(score: RiskScore) -> (random: bool)
    ensures
        random == rotates_proxy(score@),
{
    score.permille() > ROTATING_PROXY_RISK
}

/// In every timing band the shortest delay between requests is no longer
/// than the longest.
pub proof fn timing_band_is_ordered(score: nat)
    ensures
        timing_band(score).request_delay_min <= timing_band(score).request_delay_max,
{
}

/// A riskier target never gets a faster band: each delay grows with the
/// score, and human simulation, once on, stays on.
pub proof fn timing_band_is_monotone(lower: nat, higher: nat)
    requires
        lower <= higher,
    ensures
        timing_band(lower).request_delay_min <= timing_band(higher).request_delay_min,
        timing_band(lower).request_delay_max <= timing_band(higher).request_delay_max,
        timing_band(lower).page_load_delay <= timing_band(higher).page_load_delay,
        timing_band(lower).human_simulation ==> timing_band(higher).human_simulation,
{
}

} // verus!
