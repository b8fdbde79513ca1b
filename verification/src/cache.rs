//! Authorization tokens kept in memory.
use vstd::prelude::*;

verus! {

/// What an authorization token is good for, by itself: which service issues it,
/// for whom, for what, and who may receive it.
pub struct CacheKey {
    pub auth_url: String,
    pub identity: String,
    pub resource_id: String,
    pub recipient_domain: String,
}

/// A [`CacheKey`] as text.
pub struct CacheKeyView {
    pub auth_url: Seq<char>,
    pub identity: Seq<char>,
    pub resource_id: Seq<char>,
    pub recipient_domain: Seq<char>,
}

impl View for CacheKey {
    type V = CacheKeyView;

    open spec fn view(&self) -> CacheKeyView {
        CacheKeyView {
            auth_url: self.auth_url@,
            identity: self.identity@,
            resource_id: self.resource_id@,
            recipient_domain: self.recipient_domain@,
        }
    }
}

impl CacheKey {
    /// Whether two keys are the same text in each part.
    pub fn same(&self, other: &CacheKey) -> (r: bool)
        ensures
            r == (self@ == other@),
    {
        self.auth_url == other.auth_url && self.identity == other.identity && self.resource_id
            == other.resource_id && self.recipient_domain == other.recipient_domain
    }
}

/// Authorization tokens obtained so far, by what they are good for.
pub struct AuthzCache {
    entries: Vec<(CacheKey, String)>,
}

/// Whether `i` is where `entries` holds `key`.
spec fn holds_at(entries: Seq<(CacheKey, String)>, i: int, key: CacheKeyView) -> bool {
    0 <= i < entries.len() && entries[i].0@ == key
}

/// Whether no key occurs twice.
spec fn keys_differ(entries: Seq<(CacheKey, String)>) -> bool {
    forall|i: int, j: int|
        0 <= i < entries.len() && 0 <= j < entries.len() && #[trigger] entries[i].0@
            == #[trigger] entries[j].0@ ==> i == j
}

spec fn as_map(entries: Seq<(CacheKey, String)>) -> Map<CacheKeyView, String> {
    Map::new(
        |key: CacheKeyView| exists|i: int| holds_at(entries, i, key),
        |key: CacheKeyView| entries[choose|i: int| holds_at(entries, i, key)].1,
    )
}

proof fn as_map_at(entries: Seq<(CacheKey, String)>, i: int)
    requires
        keys_differ(entries),
        0 <= i < entries.len(),
    ensures
        as_map(entries).contains_key(entries[i].0@),
        as_map(entries)[entries[i].0@] == entries[i].1,
{
    assert(holds_at(entries, i, entries[i].0@));
}

proof fn as_map_push(entries: Seq<(CacheKey, String)>, key: CacheKey, token: String)
    requires
        keys_differ(entries),
        !as_map(entries).contains_key(key@),
    ensures
        keys_differ(entries.push((key, token))),
        as_map(entries.push((key, token))) == as_map(entries).insert(key@, token),
{
    let pushed = entries.push((key, token));
    assert forall|i: int| 0 <= i < entries.len() implies entries[i].0@ != key@ by {
        if entries[i].0@ == key@ {
            assert(holds_at(entries, i, key@));
        }
    }
    assert(keys_differ(pushed)) by {
        assert forall|i: int, j: int|
            0 <= i < pushed.len() && 0 <= j < pushed.len() && #[trigger] pushed[i].0@
                == #[trigger] pushed[j].0@ implies i == j by {
            if i < entries.len() && j < entries.len() {
                assert(entries[i].0@ == entries[j].0@);
            } else if i < entries.len() {
                assert(entries[i].0@ != key@);
            } else if j < entries.len() {
                assert(entries[j].0@ != key@);
            }
        }
    }
    assert forall|k: CacheKeyView| true implies {
        &&& #[trigger] as_map(pushed).contains_key(k) == as_map(entries).insert(
            key@,
            token,
        ).contains_key(k)
        &&& as_map(pushed).contains_key(k) ==> as_map(pushed)[k] == as_map(entries).insert(
            key@,
            token,
        )[k]
    } by {
        if as_map(pushed).contains_key(k) {
            let i = choose|i: int| holds_at(pushed, i, k);
            as_map_at(pushed, i);
            if i < entries.len() {
                as_map_at(entries, i);
            }
        }
        if k == key@ {
            assert(holds_at(pushed, entries.len() as int, k));
        } else if as_map(entries).contains_key(k) {
            let i = choose|i: int| holds_at(entries, i, k);
            assert(holds_at(pushed, i, k));
        }
    }
    assert(as_map(pushed) =~= as_map(entries).insert(key@, token));
}

proof fn as_map_replace(entries: Seq<(CacheKey, String)>, at: int, key: CacheKey, token: String)
    requires
        keys_differ(entries),
        holds_at(entries, at, key@),
    ensures
        keys_differ(entries.update(at, (key, token))),
        as_map(entries.update(at, (key, token))) == as_map(entries).insert(key@, token),
{
    let updated = entries.update(at, (key, token));
    assert forall|i: int| 0 <= i < entries.len() implies #[trigger] updated[i].0@
        == entries[i].0@ by {}
    assert(keys_differ(updated)) by {
        assert forall|i: int, j: int|
            0 <= i < updated.len() && 0 <= j < updated.len() && #[trigger] updated[i].0@
                == #[trigger] updated[j].0@ implies i == j by {
            assert(entries[i].0@ == entries[j].0@);
        }
    }
    assert forall|k: CacheKeyView| true implies {
        &&& #[trigger] as_map(updated).contains_key(k) == as_map(entries).insert(
            key@,
            token,
        ).contains_key(k)
        &&& as_map(updated).contains_key(k) ==> as_map(updated)[k] == as_map(entries).insert(
            key@,
            token,
        )[k]
    } by {
        if as_map(updated).contains_key(k) {
            let i = choose|i: int| holds_at(updated, i, k);
            as_map_at(updated, i);
            as_map_at(entries, i);
            if k == key@ {
                assert(entries[i].0@ == entries[at].0@);
            }
        }
        if k == key@ {
            assert(holds_at(updated, at, k));
        } else if as_map(entries).contains_key(k) {
            let i = choose|i: int| holds_at(entries, i, k);
            assert(holds_at(updated, i, k));
        }
    }
    assert(as_map(updated) =~= as_map(entries).insert(key@, token));
}

impl View for AuthzCache {
    type V = Map<CacheKeyView, String>;

    closed spec fn view(&self) -> Map<CacheKeyView, String> {
        as_map(self.entries@)
    }
}

impl AuthzCache {
    #[verifier::type_invariant]
    spec fn each_key_once(self) -> bool {
        keys_differ(self.entries@)
    }

    /// A cache that holds nothing.
    pub fn new() -> (r: AuthzCache)
        ensures
            r@ == Map::<CacheKeyView, String>::empty(),
    {
        let entries: Vec<(CacheKey, String)> = Vec::new();
        assert(as_map(entries@) =~= Map::<CacheKeyView, String>::empty());
        AuthzCache { entries }
    }

    /// Where the entries hold a key.
    fn find(entries: &Vec<(CacheKey, String)>, key: &CacheKey) -> (r: Option<usize>)
        ensures
            match r {
                Some(i) => holds_at(entries@, i as int, key@),
                None => !as_map(entries@).contains_key(key@),
            },
    {
        let mut i: usize = 0;
        while i < entries.len()
            invariant
                i <= entries.len(),
                forall|j: int| 0 <= j < i ==> (#[trigger] entries@[j]).0@ != key@,
            decreases entries.len() - i,
        {
            if entries[i].0.same(key) {
                return Some(i);
            }
            i = i + 1;
        }
        None
    }

    /// The token held for a key.
    pub fn get(&self, key: &CacheKey) -> (r: Option<String>)
        ensures
            r == self@.get(key@),
    {
        proof {
            use_type_invariant(self);
        }
        match AuthzCache::find(&self.entries, key) {
            Some(i) => {
                proof {
                    as_map_at(self.entries@, i as int);
                }
                Some(self.entries[i].1.clone())
            },
            None => None,
        }
    }

    /// Holds a token for a key, in place of one held before.
    pub fn insert(&mut self, key: CacheKey, token: String)
        ensures
            final(self)@ == old(self)@.insert(key@, token),
    {
        proof {
            use_type_invariant(&*self);
        }
        let mut entries: Vec<(CacheKey, String)> = Vec::new();
        std::mem::swap(&mut entries, &mut self.entries);
        match AuthzCache::find(&entries, &key) {
            Some(i) => {
                proof {
                    as_map_replace(entries@, i as int, key, token);
                }
                entries.set(i, (key, token));
            },
            None => {
                proof {
                    as_map_push(entries@, key, token);
                }
                entries.push((key, token));
            },
        }
        self.entries = entries;
    }
}

/// Keys are the same exactly where each of their four parts is the same text.
pub proof fn keys_are_told_apart_by_every_part(a: &CacheKey, b: &CacheKey, r: bool)
    requires
        call_ensures(CacheKey::same, (a, b), r),
    ensures
        r <==> {
            &&& a.auth_url@ == b.auth_url@
            &&& a.identity@ == b.identity@
            &&& a.resource_id@ == b.resource_id@
            &&& a.recipient_domain@ == b.recipient_domain@
        },
{
}

/// A new cache gives no token for any key.
pub proof fn new_cache_gives_nothing(cache: AuthzCache, key: &CacheKey, r: Option<String>)
    requires
        call_ensures(AuthzCache::new, (), cache),
        call_ensures(AuthzCache::get, (&cache, key), r),
    ensures
        r is None,
{
}

/// What was held last for a key is what the cache gives for it, and what it gives for
/// every other key is as before. Two keys are the same where each part is.
pub proof fn cache_gives_what_was_held_last(
    before: &AuthzCache,
    cache: &mut AuthzCache,
    after: &AuthzCache,
    key: CacheKey,
    token: String,
    asked: &CacheKey,
    earlier: Option<String>,
    r: Option<String>,
)
    requires
        before@ == old(cache)@,
        call_ensures(AuthzCache::insert, (cache, key, token), ()),
        after@ == final(cache)@,
        call_ensures(AuthzCache::get, (before, asked), earlier),
        call_ensures(AuthzCache::get, (after, asked), r),
    ensures
        if asked.auth_url@ == key.auth_url@ && asked.identity@ == key.identity@
            && asked.resource_id@ == key.resource_id@ && asked.recipient_domain@
            == key.recipient_domain@ {
            r == Some(token)
        } else {
            r == earlier
        },
{
}

} // verus!
