//! Request headers: the map that holds them and the rule that builds them
//! from a fingerprint.

use crate::fingerprint::{BrowserFingerprint, FingerprintModel};
use crate::random::RandomSource;
use crate::text::same_text;
use vstd::prelude::*;

verus! {

/// Cache-Control is sent in this many requests ...
pub const CACHE_CONTROL_HITS: u32 = 7;

/// ... out of this many.
pub const CACHE_CONTROL_TRIALS: u32 = 10;

/// The fetch-metadata headers are sent in this many requests ...
pub const FETCH_METADATA_HITS: u32 = 1;

/// ... out of this many.
pub const FETCH_METADATA_TRIALS: u32 = 2;

/// One header: its name and its value.
#[derive(Clone, Debug, PartialEq, Eq)]
pub struct Header {
    pub name: String,
    pub value: String,
}

/// No two of `entries` have the same name.
pub open spec fn names_differ(entries: Seq<Header>) -> bool {
    forall|i: int, j: int| 0 <= i < j < entries.len() ==> entries[i].name@ != entries[j].name@
}

/// The entry of `entries` at `at` is named `name`.
pub open spec fn named_at(entries: Seq<Header>, name: Seq<char>, at: int) -> bool {
    0 <= at < entries.len() && entries[at].name@ == name
}

/// The map from each name in `entries` to the value listed with it.
pub open spec fn listed(entries: Seq<Header>) -> Map<Seq<char>, Seq<char>> {
    Map::new(
        |name: Seq<char>| exists|at: int| named_at(entries, name, at),
        |name: Seq<char>| entries[choose|at: int| named_at(entries, name, at)].value@,
    )
}

proof fn lemma_listed_value(entries: Seq<Header>, at: int)
    requires
        names_differ(entries),
        0 <= at < entries.len(),
    ensures
        listed(entries).contains_key(entries[at].name@),
        listed(entries)[entries[at].name@] == entries[at].value@,
{
    let name = entries[at].name@;
    assert(named_at(entries, name, at));
    let chosen = choose|i: int| named_at(entries, name, i);
    assert(named_at(entries, name, chosen));
    if chosen < at {
        assert(entries[chosen].name@ != entries[at].name@);
    } else if at < chosen {
        assert(entries[at].name@ != entries[chosen].name@);
    }
}

proof fn lemma_listed_push(entries: Seq<Header>, added: Header)
    requires
        names_differ(entries),
        forall|at: int| !named_at(entries, added.name@, at),
    ensures
        names_differ(entries.push(added)),
        listed(entries.push(added)) == listed(entries).insert(added.name@, added.value@),
{
    let longer = entries.push(added);
    assert(names_differ(longer)) by {
        assert forall|i: int, j: int| 0 <= i < j < longer.len() implies longer[i].name@
            != longer[j].name@ by {
            if j == entries.len() {
                assert(!named_at(entries, added.name@, i));
            } else {
                assert(entries[i].name@ != entries[j].name@);
            }
        }
    }
    let grown = listed(entries).insert(added.name@, added.value@);
    assert forall|name: Seq<char>| listed(longer).contains_key(name) <==> grown.contains_key(
        name,
    ) by {
        if listed(longer).contains_key(name) {
            let at = choose|at: int| named_at(longer, name, at);
            if at < entries.len() {
                assert(named_at(entries, name, at));
            }
        }
        if grown.contains_key(name) {
            if name == added.name@ {
                assert(named_at(longer, name, entries.len() as int));
            } else {
                let at = choose|at: int| named_at(entries, name, at);
                assert(named_at(longer, name, at));
            }
        }
    }
    assert forall|name: Seq<char>| listed(longer).contains_key(name) implies listed(longer)[name]
        == grown[name] by {
        let at = choose|at: int| named_at(longer, name, at);
        assert(named_at(longer, name, at));
        lemma_listed_value(longer, at);
        if at < entries.len() {
            assert(named_at(entries, name, at));
            lemma_listed_value(entries, at);
        }
    }
    assert(listed(longer) =~= grown);
}

proof fn lemma_listed_update(entries: Seq<Header>, at: int, changed: Header)
    requires
        names_differ(entries),
        named_at(entries, changed.name@, at),
    ensures
        names_differ(entries.update(at, changed)),
        listed(entries.update(at, changed)) == listed(entries).insert(
            changed.name@,
            changed.value@,
        ),
{
    let after = entries.update(at, changed);
    assert(names_differ(after)) by {
        assert forall|i: int, j: int| 0 <= i < j < after.len() implies after[i].name@
            != after[j].name@ by {
            assert(entries[i].name@ != entries[j].name@);
        }
    }
    let grown = listed(entries).insert(changed.name@, changed.value@);
    assert forall|name: Seq<char>| listed(after).contains_key(name) <==> grown.contains_key(
        name,
    ) by {
        if listed(after).contains_key(name) {
            let i = choose|i: int| named_at(after, name, i);
            assert(named_at(entries, name, i));
        }
        if grown.contains_key(name) {
            if name == changed.name@ {
                assert(named_at(after, name, at));
            } else {
                let i = choose|i: int| named_at(entries, name, i);
                assert(named_at(after, name, i));
            }
        }
    }
    assert forall|name: Seq<char>| listed(after).contains_key(name) implies listed(after)[name]
        == grown[name] by {
        let i = choose|i: int| named_at(after, name, i);
        assert(named_at(after, name, i));
        lemma_listed_value(after, i);
        if name != changed.name@ {
            assert(named_at(entries, name, i));
            lemma_listed_value(entries, i);
        }
    }
    assert(listed(after) =~= grown);
}

proof fn lemma_listed_len(entries: Seq<Header>)
    requires
        names_differ(entries),
    ensures
        listed(entries).dom().finite(),
        listed(entries).dom().len() == entries.len(),
    decreases entries.len(),
{
    if entries.len() == 0 {
        assert(listed(entries).dom() =~= Set::<Seq<char>>::empty());
    } else {
        let shorter = entries.drop_last();
        let last = entries.last();
        assert(names_differ(shorter)) by {
            assert forall|i: int, j: int| 0 <= i < j < shorter.len() implies shorter[i].name@
                != shorter[j].name@ by {
                assert(entries[i].name@ != entries[j].name@);
            }
        }
        assert forall|at: int| !named_at(shorter, last.name@, at) by {
            if 0 <= at < shorter.len() {
                assert(entries[at].name@ != entries[entries.len() - 1].name@);
            }
        }
        lemma_listed_len(shorter);
        lemma_listed_push(shorter, last);
        assert(shorter.push(last) =~= entries);
        assert(!listed(shorter).dom().contains(last.name@)) by {
            if listed(shorter).dom().contains(last.name@) {
                let at = choose|at: int| named_at(shorter, last.name@, at);
                assert(named_at(shorter, last.name@, at));
            }
        }
        assert(listed(entries).dom() =~= listed(shorter).dom().insert(last.name@));
    }
}

/// A set of headers in which each name stands once. Names are told apart
/// character by character: case counts.
#[derive(Debug)]
pub struct HeaderMap {
    entries: Vec<Header>,
}

impl View for HeaderMap {
    type V = Map<Seq<char>, Seq<char>>;

    /// The value under each name.
    closed spec fn view(&self) -> Map<Seq<char>, Seq<char>> {
        listed(self.entries@)
    }
}

impl HeaderMap {
    #[verifier::type_invariant]
    closed spec fn each_name_once(self) -> bool {
        names_differ(self.entries@)
    }

    /// A map without headers.
    pub fn new() -> (headers: HeaderMap)
        ensures
            headers@ == Map::<Seq<char>, Seq<char>>::empty(),
    {
        let headers = HeaderMap { entries: Vec::new() };
        assert(headers@ =~= Map::<Seq<char>, Seq<char>>::empty());
        headers
    }

    fn position(&self, name: &str) -> (found: Option<usize>)
        ensures
            match found {
                Some(at) => named_at(self.entries@, name@, at as int),
                None => forall|at: int| !named_at(self.entries@, name@, at),
            },
    {
        let mut i: usize = 0;
        while i < self.entries.len()
            invariant
                i <= self.entries.len(),
                forall|at: int| 0 <= at < i ==> !named_at(self.entries@, name@, at),
            decreases self.entries.len() - i,
        {
            if same_text(self.entries[i].name.as_str(), name) {
                return Some(i);
            }
            i += 1;
        }
        None
    }

    /// Sets the header `name` to `value`, whether or not it was set before.
    pub fn insert(&mut self, name: String, value: String)
        ensures
            final(self)@ == old(self)@.insert(name@, value@),
    {
        proof {
            use_type_invariant(&*self);
        }
        let found = self.position(name.as_str());
        let header = Header { name, value };
        let mut entries: Vec<Header> = Vec::new();
        std::mem::swap(&mut self.entries, &mut entries);
        match found {
            Some(at) => {
                proof {
                    lemma_listed_update(entries@, at as int, header);
                }
                entries.set(at, header);
            },
            None => {
                proof {
                    lemma_listed_push(entries@, header);
                }
                entries.push(header);
            },
        }
        std::mem::swap(&mut self.entries, &mut entries);
    }

    /// The value of the header `name`, if it is set.
    pub fn get(&self, name: &str) -> (value: Option<&String>)
        ensures
            value is Some == self@.contains_key(name@),
            value is Some ==> value->0@ == self@[name@],
    {
        proof {
            use_type_invariant(self);
        }
        match self.position(name) {
            Some(at) => {
                proof {
                    lemma_listed_value(self.entries@, at as int);
                }
                Some(&self.entries[at].value)
            },
            None => None,
        }
    }

    /// Whether the header `name` is set.
    pub fn contains_key(&self, name: &str) -> (set: bool)
        ensures
            set == self@.contains_key(name@),
    {
        self.position(name).is_some()
    }

    /// How many headers are set.
    pub fn len(&self) -> (count: usize)
        ensures
            self@.dom().finite(),
            count == self@.dom().len(),
    {
        proof {
            use_type_invariant(self);
            lemma_listed_len(self.entries@);
        }
        self.entries.len()
    }

    /// Whether no header is set.
    pub fn is_empty(&self) -> (empty: bool)
        ensures
            empty == (self@ == Map::<Seq<char>, Seq<char>>::empty()),
    {
        proof {
            use_type_invariant(self);
            if self.entries@.len() > 0 {
                lemma_listed_value(self.entries@, 0);
            } else {
                assert(self@ =~= Map::<Seq<char>, Seq<char>>::empty());
            }
        }
        self.entries.len() == 0
    }

    /// The headers one by one, each name once, in the order in which the
    /// names were first set.
    pub fn entries(&self) -> (list: &Vec<Header>)
        ensures
            names_differ(list@),
            listed(list@) == self@,
    {
        proof {
            use_type_invariant(self);
        }
        &self.entries
    }
}

/// The headers that every request carries: the five that the fingerprint
/// gives and two that never change.
pub open spec fn mandatory_headers(fingerprint: FingerprintModel) -> Map<Seq<char>, Seq<char>> {
    Map::<Seq<char>, Seq<char>>::empty().insert("User-Agent"@, fingerprint.user_agent).insert(
        "Accept"@,
        fingerprint.accept,
    ).insert("Accept-Language"@, fingerprint.accept_language).insert(
        "Accept-Encoding"@,
        fingerprint.accept_encoding,
    ).insert("DNT"@, fingerprint.dnt).insert("Connection"@, "keep-alive"@).insert(
        "Upgrade-Insecure-Requests"@,
        "1"@,
    )
}

/// `headers` with the three fetch-metadata headers of a top-level navigation.
pub open spec fn with_fetch_metadata(headers: Map<Seq<char>, Seq<char>>) -> Map<
    Seq<char>,
    Seq<char>,
> {
    headers.insert("Sec-Fetch-Dest"@, "document"@).insert("Sec-Fetch-Mode"@, "navigate"@).insert(
        "Sec-Fetch-Site"@,
        "none"@,
    )
}

/// The headers of a request: the mandatory ones, Cache-Control where
/// `cache_control` says so, and the fetch-metadata headers, all three or
/// none, where `fetch_metadata` says so.
pub open spec fn header_set(
    fingerprint: FingerprintModel,
    cache_control: bool,
    fetch_metadata: bool,
) -> Map<Seq<char>, Seq<char>> {
    let mandatory = mandatory_headers(fingerprint);
    let cached = if cache_control {
        mandatory.insert("Cache-Control"@, "max-age=0"@)
    } else {
        mandatory
    };
    if fetch_metadata {
        with_fetch_metadata(cached)
    } else {
        cached
    }
}

/// The headers for `fingerprint`, with the optional ones as the two flags
/// say.
pub fn headers_for(fingerprint: &BrowserFingerprint, cache_control: bool, fetch_metadata: bool) -> (headers:
    HeaderMap)
    ensures
        headers@ == header_set(fingerprint@, cache_control, fetch_metadata),
{
    let mut headers = HeaderMap::new();
    headers.insert("User-Agent".to_owned(), fingerprint.user_agent.clone());
    headers.insert("Accept".to_owned(), fingerprint.accept.clone());
    headers.insert("Accept-Language".to_owned(), fingerprint.accept_language.clone());
    headers.insert("Accept-Encoding".to_owned(), fingerprint.accept_encoding.clone());
    headers.insert("DNT".to_owned(), fingerprint.dnt.clone());
    headers.insert("Connection".to_owned(), "keep-alive".to_owned());
    headers.insert("Upgrade-Insecure-Requests".to_owned(), "1".to_owned());
    if cache_control {
        headers.insert("Cache-Control".to_owned(), "max-age=0".to_owned());
    }
    if fetch_metadata {
        headers.insert("Sec-Fetch-Dest".to_owned(), "document".to_owned());
        headers.insert("Sec-Fetch-Mode".to_owned(), "navigate".to_owned());
        headers.insert("Sec-Fetch-Site".to_owned(), "none".to_owned());
    }
    headers
}

/// Builds the headers for `fingerprint`. Two draws from `random`, neither
/// depending on the other, decide on the optional headers: Cache-Control in
/// seven requests of ten, the fetch-metadata headers in one of two.
pub fn build_headers(fingerprint: &BrowserFingerprint, random: &mut RandomSource) -> (headers:
    HeaderMap)
    ensures
        exists|cache_control: bool, fetch_metadata: bool|
            headers@ == #[trigger] header_set(fingerprint@, cache_control, fetch_metadata),
        mandatory_headers(fingerprint@).submap_of(headers@),
{
    let cache_control = random.chance(CACHE_CONTROL_HITS, CACHE_CONTROL_TRIALS);
    let fetch_metadata = random.chance(FETCH_METADATA_HITS, FETCH_METADATA_TRIALS);
    let headers = headers_for(fingerprint, cache_control, fetch_metadata);
    proof {
        header_set_holds_mandatory(fingerprint@, cache_control, fetch_metadata);
    }
    headers
}

proof fn lemma_header_names_differ()
    ensures
        "User-Agent"@ != "Accept"@,
        "User-Agent"@ != "Accept-Language"@,
        "User-Agent"@ != "Accept-Encoding"@,
        "User-Agent"@ != "DNT"@,
        "User-Agent"@ != "Connection"@,
        "User-Agent"@ != "Upgrade-Insecure-Requests"@,
        "User-Agent"@ != "Cache-Control"@,
        "User-Agent"@ != "Sec-Fetch-Dest"@,
        "User-Agent"@ != "Sec-Fetch-Mode"@,
        "User-Agent"@ != "Sec-Fetch-Site"@,
        "Accept"@ != "Accept-Language"@,
        "Accept"@ != "Accept-Encoding"@,
        "Accept"@ != "DNT"@,
        "Accept"@ != "Connection"@,
        "Accept"@ != "Upgrade-Insecure-Requests"@,
        "Accept"@ != "Cache-Control"@,
        "Accept"@ != "Sec-Fetch-Dest"@,
        "Accept"@ != "Sec-Fetch-Mode"@,
        "Accept"@ != "Sec-Fetch-Site"@,
        "Accept-Language"@ != "Accept-Encoding"@,
        "Accept-Language"@ != "DNT"@,
        "Accept-Language"@ != "Connection"@,
        "Accept-Language"@ != "Upgrade-Insecure-Requests"@,
        "Accept-Language"@ != "Cache-Control"@,
        "Accept-Language"@ != "Sec-Fetch-Dest"@,
        "Accept-Language"@ != "Sec-Fetch-Mode"@,
        "Accept-Language"@ != "Sec-Fetch-Site"@,
        "Accept-Encoding"@ != "DNT"@,
        "Accept-Encoding"@ != "Connection"@,
        "Accept-Encoding"@ != "Upgrade-Insecure-Requests"@,
        "Accept-Encoding"@ != "Cache-Control"@,
        "Accept-Encoding"@ != "Sec-Fetch-Dest"@,
        "Accept-Encoding"@ != "Sec-Fetch-Mode"@,
        "Accept-Encoding"@ != "Sec-Fetch-Site"@,
        "DNT"@ != "Connection"@,
        "DNT"@ != "Upgrade-Insecure-Requests"@,
        "DNT"@ != "Cache-Control"@,
        "DNT"@ != "Sec-Fetch-Dest"@,
        "DNT"@ != "Sec-Fetch-Mode"@,
        "DNT"@ != "Sec-Fetch-Site"@,
        "Connection"@ != "Upgrade-Insecure-Requests"@,
        "Connection"@ != "Cache-Control"@,
        "Connection"@ != "Sec-Fetch-Dest"@,
        "Connection"@ != "Sec-Fetch-Mode"@,
        "Connection"@ != "Sec-Fetch-Site"@,
        "Upgrade-Insecure-Requests"@ != "Cache-Control"@,
        "Upgrade-Insecure-Requests"@ != "Sec-Fetch-Dest"@,
        "Upgrade-Insecure-Requests"@ != "Sec-Fetch-Mode"@,
        "Upgrade-Insecure-Requests"@ != "Sec-Fetch-Site"@,
        "Cache-Control"@ != "Sec-Fetch-Dest"@,
        "Cache-Control"@ != "Sec-Fetch-Mode"@,
        "Cache-Control"@ != "Sec-Fetch-Site"@,
        "Sec-Fetch-Dest"@ != "Sec-Fetch-Mode"@,
        "Sec-Fetch-Dest"@ != "Sec-Fetch-Site"@,
        "Sec-Fetch-Mode"@ != "Sec-Fetch-Site"@,
{
    reveal_strlit("User-Agent");
    reveal_strlit("Accept");
    reveal_strlit("Accept-Language");
    reveal_strlit("Accept-Encoding");
    reveal_strlit("DNT");
    reveal_strlit("Connection");
    reveal_strlit("Upgrade-Insecure-Requests");
    reveal_strlit("Cache-Control");
    reveal_strlit("Sec-Fetch-Dest");
    reveal_strlit("Sec-Fetch-Mode");
    reveal_strlit("Sec-Fetch-Site");
    assert("User-Agent"@.len() == 10 && "User-Agent"@[0] == 'U');
    assert("Accept"@.len() == 6);
    assert("Accept-Language"@.len() == 15 && "Accept-Language"@[7] == 'L');
    assert("Accept-Encoding"@.len() == 15 && "Accept-Encoding"@[7] == 'E');
    assert("DNT"@.len() == 3);
    assert("Connection"@.len() == 10 && "Connection"@[0] == 'C');
    assert("Upgrade-Insecure-Requests"@.len() == 25);
    assert("Cache-Control"@.len() == 13);
    assert("Sec-Fetch-Dest"@.len() == 14 && "Sec-Fetch-Dest"@[10] == 'D');
    assert("Sec-Fetch-Mode"@.len() == 14 && "Sec-Fetch-Mode"@[10] == 'M');
    assert("Sec-Fetch-Site"@.len() == 14 && "Sec-Fetch-Site"@[10] == 'S');
}

/// The mandatory headers are seven, and every request carries each of them
/// with the value that the fingerprint gives: no optional header takes the
/// place of one.
pub proof fn header_set_holds_mandatory(
    fingerprint: FingerprintModel,
    cache_control: bool,
    fetch_metadata: bool,
)
    ensures
        mandatory_headers(fingerprint).dom().finite(),
        mandatory_headers(fingerprint).dom().len() == 7,
        mandatory_headers(fingerprint).submap_of(
            header_set(fingerprint, cache_control, fetch_metadata),
        ),
        mandatory_headers(fingerprint)["User-Agent"@] == fingerprint.user_agent,
        mandatory_headers(fingerprint)["Accept"@] == fingerprint.accept,
        mandatory_headers(fingerprint)["Accept-Language"@] == fingerprint.accept_language,
        mandatory_headers(fingerprint)["Accept-Encoding"@] == fingerprint.accept_encoding,
        mandatory_headers(fingerprint)["DNT"@] == fingerprint.dnt,
        mandatory_headers(fingerprint)["Connection"@] == "keep-alive"@,
        mandatory_headers(fingerprint)["Upgrade-Insecure-Requests"@] == "1"@,
{
    lemma_header_names_differ();
    let names = set![
        "User-Agent"@,
        "Accept"@,
        "Accept-Language"@,
        "Accept-Encoding"@,
        "DNT"@,
        "Connection"@,
        "Upgrade-Insecure-Requests"@,
    ];
    assert(mandatory_headers(fingerprint).dom() =~= names);
    lemma_seven(
        "User-Agent"@,
        "Accept"@,
        "Accept-Language"@,
        "Accept-Encoding"@,
        "DNT"@,
        "Connection"@,
        "Upgrade-Insecure-Requests"@,
    );
}

proof fn lemma_seven(
    a: Seq<char>,
    b: Seq<char>,
    c: Seq<char>,
    d: Seq<char>,
    e: Seq<char>,
    f: Seq<char>,
    g: Seq<char>,
)
    requires
        a != b && a != c && a != d && a != e && a != f && a != g,
        b != c && b != d && b != e && b != f && b != g,
        c != d && c != e && c != f && c != g,
        d != e && d != f && d != g,
        e != f && e != g,
        f != g,
    ensures
        set![a, b, c, d, e, f, g].finite(),
        set![a, b, c, d, e, f, g].len() == 7,
{
    broadcast use vstd::set::group_set_axioms;

    let s0 = Set::<Seq<char>>::empty();
    let s1 = s0.insert(a);
    let s2 = s1.insert(b);
    let s3 = s2.insert(c);
    let s4 = s3.insert(d);
    let s5 = s4.insert(e);
    let s6 = s5.insert(f);
    let s7 = s6.insert(g);
    assert(s1.len() == 1);
    assert(s2.len() == 2);
    assert(s3.len() == 3);
    assert(s4.len() == 4);
    assert(s5.len() == 5);
    assert(s6.len() == 6);
    assert(s7.len() == 7);
    assert(s7 =~= set![a, b, c, d, e, f, g]);
}

/// The optional headers come as the flags say and in no other way:
/// Cache-Control exactly where `cache_control` holds, and each of the three
/// fetch-metadata headers exactly where `fetch_metadata` holds, so that the
/// three are sent together or not at all. The request carries seven headers
/// and one more for Cache-Control and three more for the fetch metadata.
pub proof fn header_set_optional_headers(
    fingerprint: FingerprintModel,
    cache_control: bool,
    fetch_metadata: bool,
)
    ensures
        header_set(fingerprint, cache_control, fetch_metadata).contains_key("Cache-Control"@)
            == cache_control,
        header_set(fingerprint, cache_control, fetch_metadata).contains_key("Sec-Fetch-Dest"@)
            == fetch_metadata,
        header_set(fingerprint, cache_control, fetch_metadata).contains_key("Sec-Fetch-Mode"@)
            == fetch_metadata,
        header_set(fingerprint, cache_control, fetch_metadata).contains_key("Sec-Fetch-Site"@)
            == fetch_metadata,
        cache_control ==> header_set(fingerprint, cache_control, fetch_metadata)["Cache-Control"@]
            == "max-age=0"@,
        fetch_metadata ==> header_set(
            fingerprint,
            cache_control,
            fetch_metadata,
        )["Sec-Fetch-Dest"@] == "document"@,
        fetch_metadata ==> header_set(
            fingerprint,
            cache_control,
            fetch_metadata,
        )["Sec-Fetch-Mode"@] == "navigate"@,
        fetch_metadata ==> header_set(
            fingerprint,
            cache_control,
            fetch_metadata,
        )["Sec-Fetch-Site"@] == "none"@,
        header_set(fingerprint, cache_control, fetch_metadata).dom().finite(),
        header_set(fingerprint, cache_control, fetch_metadata).dom().len() == 7 + (if cache_control {
            1nat
        } else {
            0nat
        }) + (if fetch_metadata {
            3nat
        } else {
            0nat
        }),
{
    broadcast use vstd::set::group_set_axioms;

    lemma_header_names_differ();
    header_set_holds_mandatory(fingerprint, cache_control, fetch_metadata);
    let mandatory = mandatory_headers(fingerprint);
    let cached = if cache_control {
        mandatory.insert("Cache-Control"@, "max-age=0"@)
    } else {
        mandatory
    };
    assert(!mandatory.dom().contains("Cache-Control"@));
    assert(cached.dom().len() == 7 + (if cache_control { 1nat } else { 0nat })) by {
        if cache_control {
            assert(cached.dom() =~= mandatory.dom().insert("Cache-Control"@));
        }
    }
    if fetch_metadata {
        let one = cached.dom().insert("Sec-Fetch-Dest"@);
        let two = one.insert("Sec-Fetch-Mode"@);
        let three = two.insert("Sec-Fetch-Site"@);
        assert(!cached.dom().contains("Sec-Fetch-Dest"@));
        assert(!one.contains("Sec-Fetch-Mode"@));
        assert(!two.contains("Sec-Fetch-Site"@));
        assert(one.len() == cached.dom().len() + 1);
        assert(two.len() == one.len() + 1);
        assert(three.len() == two.len() + 1);
        assert(with_fetch_metadata(cached).dom() =~= three);
    }
}

} // verus!
