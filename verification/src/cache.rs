//! The cache of objects fetched from other servers.
use vstd::prelude::*;

use crate::actors::InstanceActor;
use crate::config::Config;
use crate::text;
use crate::text::eq_ignore_ascii_case;
use crate::urls::UrlParts;
use crate::webfinger::eq_str;

verus! {

/// No two entries have the same key.
pub open spec fn unique_keys<V>(s: Seq<(String, V)>) -> bool {
    forall|i: int, j: int|
        0 <= i < s.len() && 0 <= j < s.len() && i != j ==> #[trigger] s[i].0@ != #[trigger] s[j].0@
}

/// Some entry has the key `k`.
pub open spec fn has_key<V>(s: Seq<(String, V)>, k: Seq<char>) -> bool {
    exists|i: int| 0 <= i < s.len() && #[trigger] s[i].0@ == k
}

/// The entries as a map from keys to values.
pub open spec fn map_of<V>(s: Seq<(String, V)>) -> Map<Seq<char>, V> {
    Map::new(
        |k: Seq<char>| has_key(s, k),
        |k: Seq<char>| s[choose|i: int| 0 <= i < s.len() && #[trigger] s[i].0@ == k].1,
    )
}

proof fn lemma_map_of_index<V>(s: Seq<(String, V)>, i: int)
    requires
        unique_keys(s),
        0 <= i < s.len(),
    ensures
        map_of(s).dom().contains(s[i].0@),
        map_of(s)[s[i].0@] == s[i].1,
{
    let k = s[i].0@;
    assert(has_key(s, k));
    let j = choose|j: int| 0 <= j < s.len() && #[trigger] s[j].0@ == k;
    if j != i {
        assert(s[i].0@ != s[j].0@);
    }
}

proof fn lemma_map_of_update<V>(s: Seq<(String, V)>, i: int, e: (String, V))
    requires
        unique_keys(s),
        0 <= i < s.len(),
        s[i].0@ == e.0@,
    ensures
        unique_keys(s.update(i, e)),
        map_of(s.update(i, e)) == map_of(s).insert(e.0@, e.1),
{
    let t = s.update(i, e);
    assert(unique_keys(t)) by {
        assert forall|a: int, b: int| 0 <= a < t.len() && 0 <= b < t.len() && a != b implies #[trigger] t[a].0@
            != #[trigger] t[b].0@ by {
            assert(s[a].0@ != s[b].0@);
        }
    }
    assert forall|q: Seq<char>| has_key(t, q) == (has_key(s, q) || q == e.0@) by {
        if has_key(s, q) {
            let a = choose|a: int| 0 <= a < s.len() && #[trigger] s[a].0@ == q;
            assert(t[a].0@ == q);
        }
        if has_key(t, q) {
            let a = choose|a: int| 0 <= a < t.len() && #[trigger] t[a].0@ == q;
            assert(s[a].0@ == q);
        }
        if q == e.0@ {
            assert(t[i].0@ == q);
        }
    }
    assert forall|q: Seq<char>| #[trigger] map_of(t).dom().contains(q) implies map_of(t)[q] == map_of(
        s,
    ).insert(e.0@, e.1)[q] by {
        let a = choose|a: int| 0 <= a < t.len() && #[trigger] t[a].0@ == q;
        lemma_map_of_index(t, a);
        if a != i {
            lemma_map_of_index(s, a);
            assert(s[a].0@ != s[i].0@);
        }
    }
    assert(map_of(t) =~= map_of(s).insert(e.0@, e.1));
}

proof fn lemma_map_of_push<V>(s: Seq<(String, V)>, e: (String, V))
    requires
        unique_keys(s),
        !has_key(s, e.0@),
    ensures
        unique_keys(s.push(e)),
        map_of(s.push(e)) == map_of(s).insert(e.0@, e.1),
{
    let t = s.push(e);
    assert(unique_keys(t)) by {
        assert forall|a: int, b: int| 0 <= a < t.len() && 0 <= b < t.len() && a != b implies #[trigger] t[a].0@
            != #[trigger] t[b].0@ by {
            if a < s.len() && b < s.len() {
                assert(s[a].0@ != s[b].0@);
            } else if a < s.len() {
                assert(t[a] == s[a]);
            } else {
                assert(t[b] == s[b]);
            }
        }
    }
    assert forall|q: Seq<char>| has_key(t, q) == (has_key(s, q) || q == e.0@) by {
        if has_key(s, q) {
            let a = choose|a: int| 0 <= a < s.len() && #[trigger] s[a].0@ == q;
            assert(t[a].0@ == q);
        }
        if has_key(t, q) {
            let a = choose|a: int| 0 <= a < t.len() && #[trigger] t[a].0@ == q;
            if a < s.len() {
                assert(s[a].0@ == q);
            }
        }
        if q == e.0@ {
            assert(t[s.len() as int].0@ == q);
        }
    }
    assert forall|q: Seq<char>| #[trigger] map_of(t).dom().contains(q) implies map_of(t)[q] == map_of(
        s,
    ).insert(e.0@, e.1)[q] by {
        let a = choose|a: int| 0 <= a < t.len() && #[trigger] t[a].0@ == q;
        lemma_map_of_index(t, a);
        if a < s.len() {
            assert(t[a] == s[a]);
            lemma_map_of_index(s, a);
        }
    }
    assert(map_of(t) =~= map_of(s).insert(e.0@, e.1));
}

/// A map from texts to values, kept as a list of entries with distinct keys.
pub struct KeyedMap<V> {
    entries: Vec<(String, V)>,
}

impl<V> KeyedMap<V> {
    /// No two entries have the same key.
    pub closed spec fn wf(&self) -> bool {
        unique_keys(self.entries@)
    }

    /// The contents as a map from keys to values.
    pub closed spec fn view(&self) -> Map<Seq<char>, V> {
        map_of(self.entries@)
    }

    /// An empty map.
    pub fn new() -> (m: Self)
        ensures
            m.wf(),
            m.view() == Map::<Seq<char>, V>::empty(),
    {
        let m = KeyedMap { entries: Vec::new() };
        assert(m.view() =~= Map::<Seq<char>, V>::empty());
        m
    }

    /// The position of the entry for `key`, if there is one.
    fn find(&self, key: &str) -> (r: Option<usize>)
        requires
            self.wf(),
        ensures
            match r {
                Some(i) => i < self.entries@.len() && self.entries@[i as int].0@ == key@,
                None => !has_key(self.entries@, key@),
            },
    {
        let n = self.entries.len();
        for i in 0..n
            invariant
                n == self.entries@.len(),
                forall|j: int| 0 <= j < i ==> self.entries@[j].0@ != key@,
        {
            if eq_str(self.entries[i].0.as_str(), key) {
                return Some(i);
            }
        }
        None
    }

    /// The value stored for `key`, if any.
    pub fn get(&self, key: &str) -> (r: Option<&V>)
        requires
            self.wf(),
        ensures
            match r {
                Some(v) => self.view().dom().contains(key@) && *v == self.view()[key@],
                None => !self.view().dom().contains(key@),
            },
    {
        match self.find(key) {
            Some(i) => {
                proof {
                    lemma_map_of_index(self.entries@, i as int);
                }
                Some(&self.entries[i].1)
            },
            None => None,
        }
    }

    /// Stores `value` for `key`, replacing any earlier value.
    pub fn insert(&mut self, key: String, value: V)
        requires
            old(self).wf(),
        ensures
            final(self).wf(),
            final(self).view() == old(self).view().insert(key@, value),
    {
        match self.find(key.as_str()) {
            Some(i) => {
                proof {
                    lemma_map_of_update(self.entries@, i as int, (key, value));
                }
                self.entries.set(i, (key, value));
            },
            None => {
                proof {
                    lemma_map_of_push(self.entries@, (key, value));
                }
                self.entries.push((key, value));
            },
        }
    }
}

/// What is known of a remote server's failed requests.
pub struct DomainRequest {
    pub last_adverse: u64,
    pub adverse_events: u64,
}

/// A cached object with its state.
pub struct CachedItem<T> {
    pub item: T,
    /// the object does not exist, or no longer exists
    pub tombstone: bool,
    /// the object was changed in the database since it was cached
    pub stale: bool,
}

/// Why an object cannot be served from the cache or fetched.
pub enum FetchErr {
    MaxAdverse,
    DoesNotExist,
}

/// What the cache says of a requested object.
pub enum CacheLookup<'a, T> {
    /// the object is known not to exist
    DoesNotExist,
    /// a fresh copy is cached
    Cached(&'a T),
    /// the object must be fetched
    Fetch,
}

/// The instance's cache of remote objects.
pub struct Cache<T> {
    pub state: Config,
    pub instance_actor: InstanceActor,
    pub domains: KeyedMap<DomainRequest>,
    /// cache of objects being requested by other servers
    pub outgoing_cache: KeyedMap<String>,
    /// cache of objects fetched from other servers
    pub fetch: KeyedMap<CachedItem<T>>,
}

impl<T> Cache<T> {
    /// The maps of the cache are well formed.
    pub open spec fn wf(&self) -> bool {
        self.domains.wf() && self.outgoing_cache.wf() && self.fetch.wf()
    }

    /// An empty cache.
    pub fn new(instance_actor: InstanceActor, state: Config) -> (c: Cache<T>)
        ensures
            c.wf(),
            c.domains.view() == Map::<Seq<char>, DomainRequest>::empty(),
            c.outgoing_cache.view() == Map::<Seq<char>, String>::empty(),
            c.fetch.view() == Map::<Seq<char>, CachedItem<T>>::empty(),
            c.state == state,
            c.instance_actor == instance_actor,
    {
        Cache {
            state,
            instance_actor,
            domains: KeyedMap::new(),
            outgoing_cache: KeyedMap::new(),
            fetch: KeyedMap::new(),
        }
    }

    /// Looks up a remote object: a tombstoned object does not exist, a
    /// cached object that is not stale is served, anything else is fetched.
    pub fn lookup_federated(&self, id: &str) -> (r: CacheLookup<'_, T>)
        requires
            self.wf(),
        ensures
            if !self.fetch.view().dom().contains(id@) {
                r is Fetch
            } else {
                let entry = self.fetch.view()[id@];
                if entry.tombstone {
                    r is DoesNotExist
                } else if entry.stale {
                    r is Fetch
                } else {
                    r matches CacheLookup::Cached(x) && *x == entry.item
                }
            },
    {
        match self.fetch.get(id) {
            Some(x) => {
                if x.tombstone {
                    CacheLookup::DoesNotExist
                } else if x.stale {
                    CacheLookup::Fetch
                } else {
                    CacheLookup::Cached(&x.item)
                }
            },
            None => CacheLookup::Fetch,
        }
    }

    /// Records a freshly fetched object as cached, neither tombstoned nor stale.
    pub fn store_fetched(&mut self, id: String, object: T)
        requires
            old(self).wf(),
        ensures
            final(self).wf(),
            final(self).fetch.view() == old(self).fetch.view().insert(
                id@,
                CachedItem { item: object, tombstone: false, stale: false },
            ),
            final(self).domains.view() == old(self).domains.view(),
            final(self).outgoing_cache.view() == old(self).outgoing_cache.view(),
            final(self).state == old(self).state,
            final(self).instance_actor == old(self).instance_actor,
    {
        self.fetch.insert(id, CachedItem { item: object, tombstone: false, stale: false });
    }
}

/// Where an object is got from.
pub enum ObjectSource {
    /// the object is this instance's own
    Local,
    /// the object lives on another server and goes through the cache
    Federated,
}

/// Where the object with the id `id` is got from: an id whose domain is the
/// instance domain, compared without regard to ASCII case, is local; any other
/// domain is federated. An id without a domain name is not handled.
pub fn object_source(id: &UrlParts, instance_domain: &str) -> (r: ObjectSource)
    requires
        id.domain is Some,
    ensures
        r is Local <==> text::eq_ignore_ascii_case_spec(id.domain->0@, instance_domain@),
{
    match &id.domain {
        Some(d) => if eq_ignore_ascii_case(d.as_str(), instance_domain) {
            ObjectSource::Local
        } else {
            ObjectSource::Federated
        },
        None => vstd::pervasive::unreached(),
    }
}

/// An object stored after a fetch is served from the cache on the next
/// lookup of its id, and the other cached ids keep their entries.
pub proof fn law_fetched_object_is_served<T>(
    before: Map<Seq<char>, CachedItem<T>>,
    id: Seq<char>,
    object: T,
    other: Seq<char>,
)
    ensures
        ({
            let after = before.insert(id, CachedItem { item: object, tombstone: false, stale: false });
            &&& after.dom().contains(id)
            &&& !after[id].tombstone
            &&& !after[id].stale
            &&& after[id].item == object
            &&& other != id ==> (after.dom().contains(other) == before.dom().contains(other))
            &&& other != id && before.dom().contains(other) ==> after[other] == before[other]
        }),
{
}

} // verus!
