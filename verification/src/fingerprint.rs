//! Browser fingerprints and the manager that holds a pool of them for each
//! tier and rotates which one of each pool is in use.

use vstd::hash_map::StringHashMap;
use vstd::prelude::*;

verus! {

/// The header values by which a client presents itself as one browser.
#[derive(Debug, PartialEq, Eq)]
pub struct BrowserFingerprint {
    pub id: String,
    pub user_agent: String,
    pub accept: String,
    pub accept_language: String,
    pub accept_encoding: String,
    pub dnt: String,
}

/// What a fingerprint says.
pub struct FingerprintModel {
    pub id: Seq<char>,
    pub user_agent: Seq<char>,
    pub accept: Seq<char>,
    pub accept_language: Seq<char>,
    pub accept_encoding: Seq<char>,
    pub dnt: Seq<char>,
}

impl View for BrowserFingerprint {
    type V = FingerprintModel;

    open spec fn view(&self) -> FingerprintModel {
        FingerprintModel {
            id: self.id@,
            user_agent: self.user_agent@,
            accept: self.accept@,
            accept_language: self.accept_language@,
            accept_encoding: self.accept_encoding@,
            dnt: self.dnt@,
        }
    }
}

impl Clone for BrowserFingerprint {
    fn clone(&self) -> (copy: BrowserFingerprint)
        ensures
            copy@ == self@,
    {
        BrowserFingerprint {
            id: self.id.clone(),
            user_agent: self.user_agent.clone(),
            accept: self.accept.clone(),
            accept_language: self.accept_language.clone(),
            accept_encoding: self.accept_encoding.clone(),
            dnt: self.dnt.clone(),
        }
    }
}

/// The views of a pool's fingerprints, in the pool's order.
pub open spec fn fingerprints_view(pool: Seq<BrowserFingerprint>) -> Seq<FingerprintModel> {
    pool.map_values(|fingerprint: BrowserFingerprint| fingerprint@)
}

/// The count of rotations after one more: it starts again at zero once the
/// counter is full.
pub open spec fn next_rotation(rotations: nat) -> nat {
    if rotations >= u64::MAX {
        0
    } else {
        rotations + 1
    }
}

/// The fingerprint of `pool` that is in use after `rotations` rotations: the
/// pool is walked in order and round again.
pub open spec fn in_use(pool: Seq<FingerprintModel>, rotations: nat) -> Option<FingerprintModel> {
    if pool.len() == 0 {
        None
    } else {
        Some(pool[(rotations % pool.len()) as int])
    }
}

/// Holds a pool of fingerprints for each tier. Of each pool one fingerprint
/// is in use at a time; a rotation moves every pool on to its next one.
pub struct FingerprintManager {
    pools: StringHashMap<Vec<BrowserFingerprint>>,
    rotations: u64,
}

impl FingerprintManager {
    /// The pool of `tier`, empty where the tier has none.
    pub closed spec fn pool(&self, tier: Seq<char>) -> Seq<FingerprintModel> {
        if self.pools@.contains_key(tier) {
            fingerprints_view(self.pools@[tier]@)
        } else {
            Seq::empty()
        }
    }

    /// How many rotations the pools have been through.
    pub closed spec fn rotations(&self) -> nat {
        self.rotations as nat
    }

    /// The fingerprint of `tier` that is in use.
    pub open spec fn active(&self, tier: Seq<char>) -> Option<FingerprintModel> {
        in_use(self.pool(tier), self.rotations())
    }

    /// A manager without any fingerprint.
    pub fn new() -> (manager: FingerprintManager)
        ensures
            manager.rotations() == 0,
            forall|tier: Seq<char>| #[trigger] manager.pool(tier) == Seq::<FingerprintModel>::empty(),
    {
        FingerprintManager { pools: StringHashMap::new(), rotations: 0 }
    }

    /// Makes `pool` the pool of `tier`, in place of the one it had.
    pub fn set_pool(&mut self, tier: &str, pool: Vec<BrowserFingerprint>)
        ensures
            final(self).pool(tier@) == fingerprints_view(pool@),
            forall|other: Seq<char>|
                other != tier@ ==> #[trigger] final(self).pool(other) == old(self).pool(other),
            final(self).rotations() == old(self).rotations(),
    {
        self.pools.insert(tier.to_owned(), pool);
    }

    /// The fingerprint of `tier` that is in use, if the tier has any.
    pub fn get_fingerprint(&self, tier: &str) -> (found: Option<BrowserFingerprint>)
        ensures
            found is Some == self.active(tier@) is Some,
            found is Some ==> found->0@ == self.active(tier@)->0,
    {
        match self.pools.get(tier) {
            Some(pool) => {
                if pool.len() == 0 {
                    None
                } else {
                    let at: usize = (self.rotations % (pool.len() as u64)) as usize;
                    Some(pool[at].clone())
                }
            },
            None => None,
        }
    }

    /// Moves every tier on to the next fingerprint of its pool, all at once.
    /// The pools themselves stay as they are.
    pub fn rotate_fingerprints(&mut self)
        ensures
            final(self).rotations() == next_rotation(old(self).rotations()),
            forall|tier: Seq<char>| #[trigger] final(self).pool(tier) == old(self).pool(tier),
    {
        if self.rotations == u64::MAX {
            self.rotations = 0;
        } else {
            self.rotations = self.rotations + 1;
        }
    }

    /// How many rotations the pools have been through.
    pub fn rotation_count(&self) -> (count: u64)
        ensures
            count == self.rotations(),
    {
        self.rotations
    }
}

/// After a rotation every tier with a pool uses the fingerprint that follows
/// the one it used before, and the pool's last is followed by its first.
pub proof fn rotation_moves_to_the_next(pool: Seq<FingerprintModel>, rotations: nat)
    requires
        pool.len() > 0,
        rotations < u64::MAX,
    ensures
        in_use(pool, next_rotation(rotations)) == Some(
            pool[((rotations as int % pool.len() as int) + 1) % (pool.len() as int)],
        ),
{
    let n = pool.len() as int;
    let r = rotations as int;
    assert((r + 1) % n == ((r % n) + 1) % n) by (nonlinear_arith)
        requires
            n > 0,
            r >= 0,
    ;
}

} // verus!
