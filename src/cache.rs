//! The cache of built configurations of one compiler instance, keyed by the
//! environment name and the directory whose configuration file applied.

use vstd::prelude::*;
use crate::config::{Config, Options, config_view, pairs_view, spec_source_maps_enabled};
use crate::pipeline::{BuiltConfig, BuiltView, built_of, layered};

verus! {

/// The key of a cache entry: the environment name, and the directory whose
/// configuration file applied (none when no file applied).
#[derive(Clone, Debug, PartialEq, Eq)]
pub struct CacheKey {
    pub env: String,
    pub dir: Option<String>,
}

pub open spec fn key_view(k: CacheKey) -> (Seq<char>, Option<Seq<char>>) {
    (
        k.env@,
        match k.dir {
            Some(d) => Some(d@),
            None => None,
        },
    )
}

/// Whether two keys name the same entry.
pub fn same_key(a: &CacheKey, b: &CacheKey) -> (r: bool)
    ensures
        r == (key_view(*a) == key_view(*b)),
{
    if !a.env.eq(&b.env) {
        return false;
    }
    match (&a.dir, &b.dir) {
        (Some(x), Some(y)) => x.eq(y),
        (None, None) => true,
        _ => false,
    }
}

/// What a sequence of insertions leaves in the cache: for each key, the
/// value inserted last.
pub open spec fn entries_map(s: Seq<(CacheKey, BuiltConfig)>) -> Map<
    (Seq<char>, Option<Seq<char>>),
    BuiltView,
>
    decreases s.len(),
{
    if s.len() == 0 {
        Map::empty()
    } else {
        entries_map(s.drop_last()).insert(key_view(s.last().0), s.last().1@)
    }
}

proof fn later_entries_skip(s: Seq<(CacheKey, BuiltConfig)>, i: int, k: (Seq<char>, Option<Seq<char>>))
    requires
        0 <= i <= s.len(),
        forall|j: int| i <= j < s.len() ==> key_view(#[trigger] s[j].0) != k,
    ensures
        entries_map(s).contains_key(k) == entries_map(s.take(i)).contains_key(k),
        entries_map(s).contains_key(k) ==> entries_map(s)[k] == entries_map(s.take(i))[k],
    decreases s.len(),
{
    if s.len() > i {
        assert(key_view(s[s.len() - 1].0) != k);
        later_entries_skip(s.drop_last(), i, k);
        assert(s.drop_last().take(i) =~= s.take(i));
    } else {
        assert(s.take(i) =~= s);
    }
}

/// Built configurations by key. Concurrent resolutions of one key may each
/// insert; the last insertion wins, and all of them built the same value.
#[derive(Debug)]
pub struct ConfigCache {
    entries: Vec<(CacheKey, BuiltConfig)>,
}

impl View for ConfigCache {
    type V = Map<(Seq<char>, Option<Seq<char>>), BuiltView>;

    closed spec fn view(&self) -> Map<(Seq<char>, Option<Seq<char>>), BuiltView> {
        entries_map(self.entries@)
    }
}

/// The outcome of resolving `key`: the cached value if there is one, else
/// `fresh`, which the cache then holds.
pub open spec fn resolution(
    cache: Map<(Seq<char>, Option<Seq<char>>), BuiltView>,
    key: (Seq<char>, Option<Seq<char>>),
    fresh: BuiltView,
) -> (BuiltView, Map<(Seq<char>, Option<Seq<char>>), BuiltView>) {
    if cache.contains_key(key) {
        (cache[key], cache)
    } else {
        (fresh, cache.insert(key, fresh))
    }
}

impl ConfigCache {
    pub fn new() -> (r: ConfigCache)
        ensures
            r@ == Map::<(Seq<char>, Option<Seq<char>>), BuiltView>::empty(),
    {
        let r = ConfigCache { entries: Vec::new() };
        assert(r@ == entries_map(Seq::empty()));
        r
    }

    /// The configuration cached under `key`, if any.
    pub fn get(&self, key: &CacheKey) -> (r: Option<&BuiltConfig>)
        ensures
            r matches Some(b) ==> self@.contains_key(key_view(*key)) && b@ == self@[key_view(*key)],
            r is None ==> !self@.contains_key(key_view(*key)),
    {
        let ghost s = self.entries@;
        let ghost k = key_view(*key);
        let mut i: usize = self.entries.len();
        while i > 0
            invariant
                i <= s.len(),
                s == self.entries@,
                k == key_view(*key),
                forall|j: int| i <= j < s.len() ==> key_view(#[trigger] s[j].0) != k,
            decreases i,
        {
            if same_key(&self.entries[i - 1].0, key) {
                proof {
                    later_entries_skip(s, i as int, k);
                    let t = s.take(i as int);
                    assert(t.drop_last() =~= s.take(i - 1));
                    assert(t.last() == s[i - 1]);
                    assert(entries_map(t) == entries_map(t.drop_last()).insert(
                        key_view(t.last().0),
                        t.last().1@,
                    ));
                }
                return Some(&self.entries[i - 1].1);
            }
            i = i - 1;
        }
        proof {
            later_entries_skip(s, 0, k);
            assert(s.take(0) =~= Seq::<(CacheKey, BuiltConfig)>::empty());
        }
        None
    }

    /// Whether a configuration is cached under `key`.
    pub fn contains(&self, key: &CacheKey) -> (r: bool)
        ensures
            r == self@.contains_key(key_view(*key)),
    {
        self.get(key).is_some()
    }

    /// Caches `value` under `key`, replacing what was there.
    pub fn insert(&mut self, key: CacheKey, value: BuiltConfig)
        ensures
            final(self)@ == old(self)@.insert(key_view(key), value@),
    {
        let ghost before = self.entries@;
        self.entries.push((key, value));
        assert(self.entries@.drop_last() =~= before);
    }

    /// The configuration for `key`: the cached one, else the one built from
    /// `file_config` (the applicable configuration file, if any) under the
    /// invocation's options, which the cache then holds.
    pub fn resolve(
        &mut self,
        key: CacheKey,
        opts: &Options,
        file_config: Option<Config>,
        env: &Vec<(String, String)>,
    ) -> (r: BuiltConfig)
        ensures
            (r@, final(self)@) == resolution(
                old(self)@,
                key_view(key),
                built_of(
                    layered(config_view(file_config), config_view(opts.config)),
                    spec_source_maps_enabled(&opts.source_maps),
                    pairs_view(env@),
                ),
            ),
    {
        match self.get(&key) {
            Some(b) => {
                return b.duplicate();
            },
            None => {},
        }
        let built = opts.build(file_config, env);
        let kept = built.duplicate();
        self.insert(key, built);
        kept
    }
}

/// Resolution is deterministic: a fresh cache resolves a request to what
/// the request builds to, and resolving it again against the cache that the
/// first resolution filled gives the same value and leaves the cache as it
/// was.
pub proof fn resolution_is_deterministic(key: (Seq<char>, Option<Seq<char>>), fresh: BuiltView)
    ensures
        resolution(Map::empty(), key, fresh).0 == fresh,
        resolution(resolution(Map::empty(), key, fresh).1, key, fresh).0 == fresh,
        resolution(resolution(Map::empty(), key, fresh).1, key, fresh).1 == resolution(
            Map::empty(),
            key,
            fresh,
        ).1,
{
}

} // verus!
