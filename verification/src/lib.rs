//! Risk-adaptive request configuration: scores a target's detection risk and
//! maps the score to a fingerprint class, TLS class, proxy and timing band.

pub mod fingerprint;
pub mod headers;
pub mod policy;
pub mod proxy;
pub mod random;
pub mod risk;
pub mod service;
pub mod shared;
pub mod text;
pub mod tls;
