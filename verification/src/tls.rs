//! TLS emulation profiles and the manager that holds one for each tier.

use vstd::hash_map::StringHashMap;
use vstd::prelude::*;

verus! {

/// How a client's TLS handshake is to look: the cipher suites and the
/// extensions that it offers, in the order in which it offers them.
#[derive(Debug, PartialEq, Eq)]
pub struct TLSProfile {
    pub name: String,
    pub cipher_suites: Vec<String>,
    pub extensions: Vec<String>,
}

/// What a TLS profile says.
pub struct TlsModel {
    pub name: Seq<char>,
    pub cipher_suites: Seq<Seq<char>>,
    pub extensions: Seq<Seq<char>>,
}

/// The texts of a list of strings, in the list's order.
pub open spec fn texts(list: Seq<String>) -> Seq<Seq<char>> {
    list.map_values(|item: String| item@)
}

impl View for TLSProfile {
    type V = TlsModel;

    open spec fn view(&self) -> TlsModel {
        TlsModel {
            name: self.name@,
            cipher_suites: texts(self.cipher_suites@),
            extensions: texts(self.extensions@),
        }
    }
}

fn copy_of(list: &Vec<String>) -> (copy: Vec<String>)
    ensures
        texts(copy@) == texts(list@),
{
    let mut copy: Vec<String> = Vec::new();
    let mut i: usize = 0;
    while i < list.len()
        invariant
            i <= list.len(),
            copy.len() == i,
            forall|k: int| 0 <= k < i ==> copy@[k]@ == list@[k]@,
        decreases list.len() - i,
    {
        copy.push(list[i].clone());
        i += 1;
    }
    assert(texts(copy@) =~= texts(list@));
    copy
}

impl Clone for TLSProfile {
    fn clone(&self) -> (copy: TLSProfile)
        ensures
            copy@ == self@,
    {
        TLSProfile {
            name: self.name.clone(),
            cipher_suites: copy_of(&self.cipher_suites),
            extensions: copy_of(&self.extensions),
        }
    }
}

/// Holds the TLS profile of each tier.
pub struct TLSManager {
    profiles: StringHashMap<TLSProfile>,
}

impl TLSManager {
    /// The profile of `tier`, if it has one.
    pub closed spec fn profile(&self, tier: Seq<char>) -> Option<TlsModel> {
        if self.profiles@.contains_key(tier) {
            Some(self.profiles@[tier]@)
        } else {
            None
        }
    }

    /// A manager without any profile.
    pub fn new() -> (manager: TLSManager)
        ensures
            forall|tier: Seq<char>| #[trigger] manager.profile(tier) is None,
    {
        TLSManager { profiles: StringHashMap::new() }
    }

    /// Makes `profile` the profile of `tier`, in place of the one it had.
    pub fn set_profile(&mut self, tier: &str, profile: TLSProfile)
        ensures
            final(self).profile(tier@) == Some(profile@),
            forall|other: Seq<char>|
                other != tier@ ==> #[trigger] final(self).profile(other) == old(self).profile(
                    other,
                ),
    {
        self.profiles.insert(tier.to_owned(), profile);
    }

    /// The profile of `tier`, if it has one.
    pub fn get_profile(&self, tier: &str) -> (found: Option<TLSProfile>)
        ensures
            found is Some == self.profile(tier@) is Some,
            found is Some ==> found->0@ == self.profile(tier@)->0,
    {
        match self.profiles.get(tier) {
            Some(profile) => Some(profile.clone()),
            None => None,
        }
    }
}

} // verus!
