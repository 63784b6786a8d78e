//! Proxy descriptors and the rule that picks one from the pool.

use crate::policy::{draws_proxy, rotates_proxy};
use crate::random::RandomSource;
use crate::risk::RiskScore;
use vstd::prelude::*;

verus! {

/// How often the direct connection is reconsidered, in seconds.
pub const DIRECT_ROTATION_INTERVAL: u64 = 300;

/// A proxy to send requests through.
#[derive(Debug, PartialEq, Eq)]
pub struct ProxyConfig {
    pub proxy_url: String,
    pub proxy_type: String,
    pub rotation_interval: u64,
}

/// What a proxy descriptor says.
pub struct ProxyModel {
    pub url: Seq<char>,
    pub kind: Seq<char>,
    pub rotation_interval: u64,
}

impl View for ProxyConfig {
    type V = ProxyModel;

    open spec fn view(&self) -> ProxyModel {
        ProxyModel {
            url: self.proxy_url@,
            kind: self.proxy_type@,
            rotation_interval: self.rotation_interval,
        }
    }
}

impl Clone for ProxyConfig {
    fn clone(&self) -> (copy: ProxyConfig)
        ensures
            copy@ == self@,
    {
        ProxyConfig {
            proxy_url: self.proxy_url.clone(),
            proxy_type: self.proxy_type.clone(),
            rotation_interval: self.rotation_interval,
        }
    }
}

/// The descriptor that stands for using no proxy at all.
pub open spec fn direct_connection() -> ProxyModel {
    ProxyModel { url: "direct"@, kind: "direct"@, rotation_interval: DIRECT_ROTATION_INTERVAL }
}

/// The views of a pool's descriptors, in the pool's order.
pub open spec fn pool_view(pool: Seq<ProxyConfig>) -> Seq<ProxyModel> {
    pool.map_values(|proxy: ProxyConfig| proxy@)
}

/// The proxy for a target of `score` thousandths when `draw` is the index
/// that chance gave: the direct connection where the pool is empty, the
/// pool's first entry for a target that does not rotate, else the entry
/// drawn.
pub open spec fn chosen_proxy(pool: Seq<ProxyModel>, score: nat, draw: int) -> ProxyModel {
    if pool.len() == 0 {
        direct_connection()
    } else if rotates_proxy(score) {
        pool[draw]
    } else {
        pool[0]
    }
}

/// The descriptor for using no proxy.
pub fn direct() -> (proxy: ProxyConfig)
    ensures
        proxy@ == direct_connection(),
{
    ProxyConfig {
        proxy_url: "direct".to_owned(),
        proxy_type: "direct".to_owned(),
        rotation_interval: DIRECT_ROTATION_INTERVAL,
    }
}

/// The proxy for `score` given the index `draw` that chance gave. The draw
/// counts only for a target that rotates over a pool that is not empty, and
/// must then be an index of the pool.
pub fn proxy_for_draw(pool: &Vec<ProxyConfig>, score: RiskScore, draw: usize) -> (proxy:
    ProxyConfig)
    requires
        pool.len() > 0 && rotates_proxy(score@) ==> draw < pool.len(),
    ensures
        proxy@ == chosen_proxy(pool_view(pool@), score@, draw as int),
{
    if pool.len() == 0 {
        direct()
    } else if draws_proxy(score) {
        pool[draw].clone()
    } else {
        pool[0].clone()
    }
}

/// Picks the proxy for `score`: the direct connection where the pool is
/// empty, the first entry for a target that does not rotate, and for one
/// that does an entry drawn from `random`, each equally likely.
pub fn pick_proxy(pool: &Vec<ProxyConfig>, score: RiskScore, random: &mut RandomSource) -> (proxy:
    ProxyConfig)
    ensures
        pool.len() == 0 ==> proxy@ == direct_connection(),
        pool.len() > 0 && !rotates_proxy(score@) ==> proxy@ == pool[0]@,
        pool.len() > 0 ==> exists|i: int| 0 <= i < pool.len() && proxy@ == #[trigger] pool[i]@,
{
    let draw: usize = if pool.len() > 0 && draws_proxy(score) {
        random.index_below(pool.len())
    } else {
        0
    };
    let proxy = proxy_for_draw(pool, score, draw);
    proof {
        if pool.len() > 0 {
            let i: int = if rotates_proxy(score@) { draw as int } else { 0 };
            assert(proxy@ == pool[i]@);
        }
    }
    proxy
}

/// The rule of selection: from an empty pool the direct connection, for a
/// target that does not rotate the pool's first entry whatever the draw, and
/// for one that rotates the entry that the draw names, which is one of the
/// pool.
pub proof fn chosen_proxy_is_of_the_pool(pool: Seq<ProxyModel>, score: nat, draw: int)
    requires
        pool.len() > 0 ==> 0 <= draw < pool.len(),
    ensures
        pool.len() == 0 ==> chosen_proxy(pool, score, draw) == direct_connection(),
        pool.len() > 0 ==> pool.contains(chosen_proxy(pool, score, draw)),
        pool.len() > 0 && !rotates_proxy(score) ==> chosen_proxy(pool, score, draw) == pool[0],
        pool.len() > 0 && rotates_proxy(score) ==> chosen_proxy(pool, score, draw) == pool[draw],
{
}

} // verus!
