//! Resolution of names to the app or database that serves them, and the
//! cache of domains already resolved.
use vstd::prelude::*;
use vstd::string::*;

use crate::apps::App;

verus! {

/// Resolves a key to a value, if it knows one.
pub trait IResolver<K, V> {
    fn resolve(&mut self, domain: K) -> Option<V>;
}

/// The database that every app's registry lookups go to.
pub const MASTER_DB: &'static str = "master_db";

/// Resolves every name to the master database.
#[derive(Debug)]
pub struct MasterResolver {}

impl IResolver<String, String> for MasterResolver {
    fn resolve(&mut self, domain: String) -> (r: Option<String>)
        ensures
            r matches Some(db) && db@ == MASTER_DB@,
    {
        Some(String::from_str(MASTER_DB))
    }
}

/// The id of an app.
#[derive(Debug)]
pub struct AppId(String);

impl View for AppId {
    type V = Seq<char>;

    closed spec fn view(&self) -> Seq<char> {
        self.0@
    }
}

/// The id of the master app.
pub const MASTER_APP_ID: &'static str = "57370747-2fe1-4d6f-a6fc-93a3f951b89a";

impl AppId {
    pub fn new(id: String) -> (r: AppId)
        ensures
            r@ == id@,
    {
        AppId(id)
    }

    /// The id as text.
    pub fn value(&self) -> (r: String)
        ensures
            r@ == self@,
    {
        self.0.clone()
    }

    pub fn duplicate(&self) -> (r: AppId)
        ensures
            r@ == self@,
    {
        AppId(self.0.clone())
    }

    /// The id of the master app.
    pub fn get_master_id() -> (r: String)
        ensures
            r@ == MASTER_APP_ID@,
    {
        String::from_str(MASTER_APP_ID)
    }
}

/// Cache entries: a domain and the app serving it.
pub type CacheEntries = Seq<(String, AppId)>;

pub open spec fn domains_unique(m: CacheEntries) -> bool {
    forall|i: int, j: int| 0 <= i < j < m.len() ==> #[trigger] m[i].0@ != #[trigger] m[j].0@
}

pub open spec fn cached_domain(m: CacheEntries, d: Seq<char>) -> bool {
    exists|i: int| 0 <= i < m.len() && #[trigger] m[i].0@ == d
}

pub open spec fn domain_index(m: CacheEntries, d: Seq<char>) -> int {
    choose|i: int| 0 <= i < m.len() && #[trigger] m[i].0@ == d
}

/// The cache as a map from domain to app id.
pub open spec fn cache_map(m: CacheEntries) -> Map<Seq<char>, Seq<char>> {
    Map::new(|d: Seq<char>| cached_domain(m, d), |d: Seq<char>| m[domain_index(m, d)].1@)
}

/// The map that sends each of `domains` to `app`.
pub open spec fn domains_to(domains: Seq<String>, app: Seq<char>) -> Map<Seq<char>, Seq<char>> {
    Map::new(|d: Seq<char>| exists|i: int| 0 <= i < domains.len() && #[trigger] domains[i]@ == d, |d: Seq<char>| app)
}

/// Remembers which app serves which domain.
#[derive(Debug)]
pub struct AppResolver {
    domain_app_map: Vec<(String, AppId)>,
}

impl View for AppResolver {
    type V = Map<Seq<char>, Seq<char>>;

    closed spec fn view(&self) -> Map<Seq<char>, Seq<char>> {
        cache_map(self.domain_app_map@)
    }
}

impl AppResolver {
    /// No domain is cached twice.
    #[verifier::type_invariant]
    spec fn domains_cached_once(&self) -> bool {
        domains_unique(self.domain_app_map@)
    }

    /// An empty cache.
    pub fn new() -> (r: Self)
        ensures
            r@ == Map::<Seq<char>, Seq<char>>::empty(),
    {
        let r = AppResolver { domain_app_map: Vec::new() };
        assert(r@ =~= Map::<Seq<char>, Seq<char>>::empty());
        r
    }

    /// The app cached for `domain`, if any.
    pub fn cached(&self, domain: &str) -> (r: Option<AppId>)
        ensures
            match r {
                Some(id) => self@.contains_key(domain@) && id@ == self@[domain@],
                None => !self@.contains_key(domain@),
            },
    {
        proof {
            use_type_invariant(self);
        }
        let wanted = String::from_str(domain);
        let mut i: usize = 0;
        while i < self.domain_app_map.len()
            invariant
                wanted@ == domain@,
                domains_unique(self.domain_app_map@),
                i <= self.domain_app_map.len(),
                forall|j: int| 0 <= j < i ==> #[trigger] self.domain_app_map@[j].0@ != domain@,
            decreases self.domain_app_map.len() - i,
        {
            if self.domain_app_map[i].0 == wanted {
                proof {
                    assert(cached_domain(self.domain_app_map@, domain@));
                    let k = domain_index(self.domain_app_map@, domain@);
                    assert(k == i as int);
                }
                return Some(self.domain_app_map[i].1.duplicate());
            }
            i += 1;
        }
        None
    }

    /// Caches `app` as the app serving `domain`, replacing any app cached for
    /// it before.
    pub fn insert(&mut self, domain: String, app: AppId)
        ensures
            final(self)@ == old(self)@.insert(domain@, app@),
    {
        proof {
            use_type_invariant(&*self);
        }
        let mut entries: Vec<(String, AppId)> = Vec::new();
        std::mem::swap(&mut entries, &mut self.domain_app_map);
        let ghost start = entries@;
        let ghost d = domain@;
        let ghost a = app@;
        let mut i: usize = 0;
        while i < entries.len()
            invariant
                entries@ == start,
                start == old(self).domain_app_map@,
                domains_unique(start),
                d == domain@,
                a == app@,
                i <= entries.len(),
                forall|j: int| 0 <= j < i ==> #[trigger] entries@[j].0@ != d,
            decreases entries.len() - i,
        {
            if entries[i].0 == domain {
                proof {
                    assert(cached_domain(start, d));
                    assert(domain_index(start, d) == i as int);
                }
                entries.set(i, (domain, app));
                proof {
                    Self::lemma_replace(start, i as int, d, a, entries@);
                }
                self.domain_app_map = entries;
                return;
            }
            i += 1;
        }
        proof {
            if cached_domain(start, d) {
                let k = domain_index(start, d);
                assert(start[k].0@ == d);
            }
        }
        entries.push((domain, app));
        proof {
            Self::lemma_append(start, d, a, entries@);
        }
        self.domain_app_map = entries;
    }

    proof fn lemma_replace(m: CacheEntries, i: int, d: Seq<char>, a: Seq<char>, r: CacheEntries)
        requires
            domains_unique(m),
            0 <= i < m.len(),
            m[i].0@ == d,
            r.len() == m.len(),
            r[i].0@ == d,
            r[i].1@ == a,
            forall|j: int| 0 <= j < m.len() && j != i ==> r[j] == m[j],
        ensures
            domains_unique(r),
            cache_map(r) == cache_map(m).insert(d, a),
    {
        assert forall|x: int, y: int| 0 <= x < y < r.len() implies #[trigger] r[x].0@ != #[trigger] r[y].0@ by {
            if x == i {
                assert(m[y].0@ != m[i].0@);
            } else if y == i {
                assert(m[x].0@ != m[i].0@);
            }
        }
        assert forall|k: Seq<char>| #[trigger] cached_domain(r, k) == (cached_domain(m, k) || k == d) by {
            if cached_domain(m, k) {
                let j = domain_index(m, k);
                assert(r[j].0@ == k);
            }
            if cached_domain(r, k) {
                let j = domain_index(r, k);
                assert(m[j].0@ == k);
            }
            if k == d {
                assert(r[i].0@ == k);
            }
        }
        assert forall|k: Seq<char>| cached_domain(r, k) implies #[trigger] cache_map(r)[k] == cache_map(m).insert(d, a)[k] by {
            let j = domain_index(r, k);
            if k == d {
                assert(j == i);
            } else {
                let jm = domain_index(m, k);
                assert(r[jm].0@ == k);
                assert(j == jm);
            }
        }
        assert(cache_map(r) =~= cache_map(m).insert(d, a));
    }

    proof fn lemma_append(m: CacheEntries, d: Seq<char>, a: Seq<char>, r: CacheEntries)
        requires
            domains_unique(m),
            !cached_domain(m, d),
            r.len() == m.len() + 1,
            r[m.len() as int].0@ == d,
            r[m.len() as int].1@ == a,
            forall|j: int| 0 <= j < m.len() ==> r[j] == m[j],
        ensures
            domains_unique(r),
            cache_map(r) == cache_map(m).insert(d, a),
    {
        let n = m.len() as int;
        assert forall|x: int, y: int| 0 <= x < y < r.len() implies #[trigger] r[x].0@ != #[trigger] r[y].0@ by {
            if y == n {
                assert(m[x].0@ != d);
            }
        }
        assert forall|k: Seq<char>| #[trigger] cached_domain(r, k) == (cached_domain(m, k) || k == d) by {
            if cached_domain(m, k) {
                let j = domain_index(m, k);
                assert(r[j].0@ == k);
            }
            if cached_domain(r, k) {
                let j = domain_index(r, k);
                if j < n {
                    assert(m[j].0@ == k);
                }
            }
            if k == d {
                assert(r[n].0@ == k);
            }
        }
        assert forall|k: Seq<char>| cached_domain(r, k) implies #[trigger] cache_map(r)[k] == cache_map(m).insert(d, a)[k] by {
            let j = domain_index(r, k);
            if k == d {
                assert(j == n);
            } else {
                let jm = domain_index(m, k);
                assert(r[jm].0@ == k);
                assert(j == jm);
            }
        }
        assert(cache_map(r) =~= cache_map(m).insert(d, a));
    }

    /// Caches `app_id` as the app serving each of `domains`.
    pub fn record(&mut self, app_id: &String, domains: &Vec<String>)
        ensures
            final(self)@ == old(self)@.union_prefer_right(domains_to(domains@, app_id@)),
    {
        let ghost start = self@;
        let mut i: usize = 0;
        while i < domains.len()
            invariant
                i <= domains.len(),
                self@ == start.union_prefer_right(domains_to(domains@.take(i as int), app_id@)),
            decreases domains.len() - i,
        {
            let ghost before = self@;
            self.insert(domains[i].clone(), AppId(app_id.clone()));
            proof {
                let prev = domains@.take(i as int);
                let next = domains@.take(i + 1);
                assert forall|d: Seq<char>| #[trigger] domains_to(next, app_id@).contains_key(d) == (
                domains_to(prev, app_id@).contains_key(d) || d == domains@[i as int]@) by {
                    if domains_to(prev, app_id@).contains_key(d) {
                        let j = choose|j: int| 0 <= j < prev.len() && #[trigger] prev[j]@ == d;
                        assert(next[j]@ == d);
                    }
                    if d == domains@[i as int]@ {
                        assert(next[i as int]@ == d);
                    }
                    if domains_to(next, app_id@).contains_key(d) {
                        let j = choose|j: int| 0 <= j < next.len() && #[trigger] next[j]@ == d;
                        if j < i {
                            assert(prev[j]@ == d);
                        }
                    }
                }
                assert(self@ =~= start.union_prefer_right(domains_to(next, app_id@)));
            }
            i += 1;
        }
        proof {
            assert(domains@.take(domains@.len() as int) =~= domains@);
        }
    }

    /// Resolves `domain` to the app serving it. A cached domain is answered
    /// from the cache, and `fetched` is not looked at. Otherwise `fetched` is
    /// the app the registry returned for the domain, if any: all its domains
    /// are cached for it, and the domain is then looked up again.
    pub fn resolve(&mut self, domain: &str, fetched: Option<App>) -> (r: Option<AppId>)
        ensures
            old(self)@.contains_key(domain@) ==> (final(self)@ == old(self)@ && (r matches Some(id)
                && id@ == old(self)@[domain@])),
            !old(self)@.contains_key(domain@) ==> match fetched {
                Some(a) => final(self)@ == old(self)@.union_prefer_right(domains_to(a.domains@, a._id@)),
                None => final(self)@ == old(self)@,
            },
            match r {
                Some(id) => final(self)@.contains_key(domain@) && id@ == final(self)@[domain@],
                None => !final(self)@.contains_key(domain@),
            },
    {
        let hit = self.cached(domain);
        if hit.is_some() {
            return hit;
        }
        if let Some(a) = fetched {
            self.record(&a._id, &a.domains);
        }
        self.cached(domain)
    }
}

/// Once an app fetched for a domain has been recorded, every domain it lists
/// resolves to it, and every other cached domain keeps its app.
pub proof fn lemma_fetched_domains_resolve(before: Map<Seq<char>, Seq<char>>, domains: Seq<String>, app: Seq<char>, after: Map<Seq<char>, Seq<char>>)
    requires
        after == before.union_prefer_right(domains_to(domains, app)),
    ensures
        forall|i: int| 0 <= i < domains.len() ==> after.contains_key(#[trigger] domains[i]@) && after[domains[i]@] == app,
        forall|d: Seq<char>|
            before.contains_key(d) && !(exists|i: int| 0 <= i < domains.len() && #[trigger] domains[i]@ == d)
                ==> after.contains_key(d) && after[d] == before[d],
{
    assert forall|i: int| 0 <= i < domains.len() implies after.contains_key(#[trigger] domains[i]@) && after[domains[i]@] == app by {
        assert(domains_to(domains, app).contains_key(domains[i]@));
    }
}

} // verus!
