//! When each synchronised release asset was last fetched, so that
//! unchanged assets are not fetched again.
use crate::paths::same_text;
use vstd::prelude::*;

verus! {

/// The file the cache is kept in.
pub const CACHE_FILENAME: &'static str = ".cache";

/// When an asset was fetched and when its release last changed, in
/// seconds since the Unix epoch.
#[derive(Clone, Copy, Debug, PartialEq, Eq, Structural)]
pub struct AssetTimestamp {
    pub downloaded_at: i64,
    pub updated_at: i64,
}

/// One cached asset.
pub struct CacheEntry {
    pub name: String,
    pub stamp: AssetTimestamp,
}

/// The map a list of entries stands for; a later entry for a name hides
/// an earlier one.
pub open spec fn cache_map(es: Seq<CacheEntry>) -> Map<Seq<char>, AssetTimestamp>
    decreases es.len(),
{
    if es.len() == 0 {
        Map::empty()
    } else {
        cache_map(es.drop_last()).insert(es.last().name@, es.last().stamp)
    }
}

proof fn lemma_cache_lookup(es: Seq<CacheEntry>, i: int)
    requires
        0 <= i < es.len(),
        forall|j: int| i < j < es.len() ==> es[j].name@ != es[i].name@,
    ensures
        cache_map(es).contains_key(es[i].name@),
        cache_map(es)[es[i].name@] == es[i].stamp,
    decreases es.len(),
{
    if i < es.len() - 1 {
        lemma_cache_lookup(es.drop_last(), i);
    }
}

proof fn lemma_cache_absent(es: Seq<CacheEntry>, k: Seq<char>)
    requires
        forall|j: int| 0 <= j < es.len() ==> es[j].name@ != k,
    ensures
        !cache_map(es).contains_key(k),
    decreases es.len(),
{
    if es.len() > 0 {
        lemma_cache_absent(es.drop_last(), k);
    }
}

/// Asset name to timestamps.
pub struct AssetCache {
    entries: Vec<CacheEntry>,
}

impl View for AssetCache {
    type V = Map<Seq<char>, AssetTimestamp>;

    closed spec fn view(&self) -> Map<Seq<char>, AssetTimestamp> {
        cache_map(self.entries@)
    }
}

/// Whether the cached copy of `name` is at least as new as a release
/// updated at `timestamp`.
pub open spec fn up_to_date(m: Map<Seq<char>, AssetTimestamp>, name: Seq<char>, timestamp: i64) -> bool {
    m.contains_key(name) && m[name].updated_at >= timestamp
}

impl AssetCache {
    /// A cache that knows no asset.
    pub fn new() -> (r: AssetCache)
        ensures
            r@ == Map::<Seq<char>, AssetTimestamp>::empty(),
    {
        AssetCache { entries: Vec::new() }
    }

    /// A cache holding `entries`, of which a later one for a name wins.
    pub fn load(entries: Vec<CacheEntry>) -> (r: AssetCache)
        ensures
            r@ == cache_map(entries@),
    {
        AssetCache { entries }
    }

    /// Records that `name`, last changed at `timestamp`, was fetched at `now`.
    pub fn update(&mut self, name: &str, now: i64, timestamp: i64)
        ensures
            final(self)@ == old(self)@.insert(name@, AssetTimestamp { downloaded_at: now, updated_at: timestamp }),
    {
        let stamp = AssetTimestamp { downloaded_at: now, updated_at: timestamp };
        self.entries.push(CacheEntry { name: String::from_str(name), stamp });
        assert(self.entries@.drop_last() == old(self).entries@);
    }

    /// Whether `name` need not be fetched again for a release updated at `timestamp`.
    pub fn is_up_to_date(&self, name: &str, timestamp: i64) -> (r: bool)
        ensures
            r == up_to_date(self@, name@, timestamp),
    {
        let mut i: usize = self.entries.len();
        while i > 0
            invariant
                i <= self.entries@.len(),
                forall|j: int| i <= j < self.entries@.len() ==> self.entries@[j].name@ != name@,
            decreases i,
        {
            let e = &self.entries[i - 1];
            if same_text(e.name.as_str(), name) {
                proof {
                    lemma_cache_lookup(self.entries@, i - 1);
                }
                return e.stamp.updated_at >= timestamp;
            }
            i = i - 1;
        }
        proof {
            lemma_cache_absent(self.entries@, name@);
        }
        false
    }

    /// The cached entries, for saving; a later one for a name wins.
    pub fn entries(&self) -> (r: Vec<CacheEntry>)
        ensures
            cache_map(r@) == self@,
    {
        let mut r: Vec<CacheEntry> = Vec::new();
        let mut i: usize = 0;
        while i < self.entries.len()
            invariant
                i <= self.entries@.len(),
                r@ =~= self.entries@.take(i as int),
            decreases self.entries.len() - i,
        {
            let e = &self.entries[i];
            r.push(CacheEntry { name: e.name.clone(), stamp: e.stamp });
            i = i + 1;
        }
        assert(self.entries@.take(self.entries@.len() as int) =~= self.entries@);
        r
    }
}

} // verus!
