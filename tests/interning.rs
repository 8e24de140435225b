use hash_str::{GetHash, HashStr, HashStrCache, HashStrHost, HashStrMap, HashedStr, Presence, UnhashedStr};

#[test]
fn test_cache() {
    let lifetime_host = HashStrHost::new();
    let mut words = HashStrCache::new();

    let a: HashStr = words.intern_with(&lifetime_host, "bruh");
    let b: HashStr = words.get("bruh").unwrap();
    assert_eq!(a, b);
    assert!(core::ptr::addr_eq(a.as_str(), b.as_str()));

    // it also works with a HashStr as the index
    let a2: HashStr = words.cache(a);
    let b2: HashStr = words.get(b).unwrap();
    assert_eq!(a, a2);
    assert_eq!(b, b2);
    assert!(core::ptr::addr_eq(a.as_str(), a2.as_str()));
    assert!(core::ptr::addr_eq(b.as_str(), b2.as_str()));

    drop(words);
    assert_eq!(a, b);

    assert_eq!(a, b);
}

#[test]
fn readme() {
    // string with its hash laid out ahead of time, read in place
    let bytes = HashStr::anonymous("bruh".to_owned()).as_hash_str().as_hash_str_bytes();
    let hstr_static: HashStr = HashStr::ref_from_bytes(&bytes).unwrap();
    // string with hash calculated at run time
    let runtime = HashStr::anonymous("bruh".to_owned());
    let hstr_runtime: HashStr = runtime.as_hash_str();

    let lifetime_host = HashStrHost::new();
    let mut cache = HashStrCache::new();

    let hstr_interned: HashStr = cache.intern_with(&lifetime_host, "bruh");
    let hstr_interned1: HashStr = cache.intern_with(&lifetime_host, hstr_static);
    let hstr_interned2: HashStr = cache.cache(hstr_runtime);
    let hstr_interned3: HashStr = cache.cache(hstr_interned);

    assert!(core::ptr::addr_eq(hstr_interned.as_str(), hstr_interned1.as_str()));
    assert!(core::ptr::addr_eq(hstr_interned.as_str(), hstr_interned2.as_str()));
    assert!(core::ptr::addr_eq(hstr_interned.as_str(), hstr_interned3.as_str()));

    let mut map = HashStrMap::default();
    map.insert(hstr_static, 1);

    assert_eq!(map.get(&hstr_static), Some(&1));
    assert_eq!(map.get(&hstr_runtime), Some(&1));
    assert_eq!(map.get(&hstr_interned), Some(&1));
    // an unhashed probe is hashed on the spot, without allocating
    assert_eq!(map.get(&UnhashedStr::from_ref("bruh").hashed()), Some(&1));

    drop(cache);
    drop(lifetime_host);
}

#[test]
fn dedup() {
    let host = HashStrHost::new();
    let mut cache = HashStrCache::new();
    let h1 = cache.intern_with(&host, "hey");
    let h2 = cache.intern_with(&host, "hey");
    assert!(core::ptr::addr_eq(h1.as_str(), h2.as_str()));
}

#[test]
fn second_intern_allocates_nothing() {
    let host = HashStrHost::new();
    let mut cache = HashStrCache::new();
    let first = cache.intern_with(&host, "a");
    let used = host.allocated_bytes();
    let second = cache.intern_with(&host, "a");
    assert_eq!(host.allocated_bytes(), used);
    assert_eq!(first, second);
    assert!(core::ptr::addr_eq(first.as_str(), second.as_str()));
    assert_eq!(cache.len(), 1);
}

#[test]
fn unrelated_cache_misses_until_adopted() {
    let host1 = HashStrHost::new();
    let mut cache1 = HashStrCache::new();
    let x = cache1.intern_with(&host1, "x");

    let _host2 = HashStrHost::new();
    let mut cache2 = HashStrCache::new();
    assert!(cache2.get("x").is_none());

    let adopted = cache2.cache(x);
    assert!(core::ptr::addr_eq(adopted.as_str(), x.as_str()));
    let found = cache2.get("x").unwrap();
    assert!(core::ptr::addr_eq(found.as_str(), x.as_str()));
}

#[test]
fn chain_interns_into_last_cache() {
    let host = HashStrHost::new();
    let cache1 = HashStrCache::new();
    let cache2 = HashStrCache::new();
    let mut cache3 = HashStrCache::new();

    let hs = cache1.presence("str").or_present_in(&cache2).or_intern_with(&host, &mut cache3);
    assert_eq!(hs.as_str(), "str");
    assert_eq!(hs.precomputed_hash(), HashedStr::new("str").precomputed_hash());
    let found = cache3.get("str").unwrap();
    assert!(core::ptr::addr_eq(found.as_str(), hs.as_str()));
    assert!(cache1.get("str").is_none());
    assert!(cache2.get("str").is_none());
}

#[test]
fn chain_stops_at_first_hit() {
    let host = HashStrHost::new();
    let mut cache1 = HashStrCache::new();
    let earlier = cache1.intern_with(&host, "k");
    let cache2 = HashStrCache::new();
    let mut cache3 = HashStrCache::new();

    let p = cache1.presence("k");
    assert!(matches!(p, Presence::Present(_)));
    let hs = p.or_present_in(&cache2).or_intern_with(&host, &mut cache3);
    assert!(core::ptr::addr_eq(hs.as_str(), earlier.as_str()));
    assert_eq!(cache3.len(), 0);
}

#[test]
fn presence_absent_carries_hash() {
    let cache: HashStrCache = HashStrCache::new();
    match cache.presence("missing") {
        Presence::Absent(hashed) => {
            assert_eq!(hashed.as_str(), "missing");
            assert_eq!(hashed.precomputed_hash(), "missing".get_hash());
        }
        Presence::Present(_) => panic!("empty cache found an entry"),
    }
    assert!(cache.presence("missing").get().is_none());
}

#[test]
fn colliding_hashes_stay_apart() {
    let host = HashStrHost::new();
    let mut cache = HashStrCache::new();
    let a = cache.intern_with(&host, HashedStr::from_parts(7, "left"));
    assert!(cache.get(HashedStr::from_parts(7, "right")).is_none());
    let b = cache.intern_with(&host, HashedStr::from_parts(7, "right"));
    assert_eq!(a.precomputed_hash(), b.precomputed_hash());
    assert_ne!(a, b);
    assert_eq!(a.as_str(), "left");
    assert_eq!(b.as_str(), "right");
    assert_eq!(cache.len(), 2);
    assert_eq!(cache.get(HashedStr::from_parts(7, "left")).unwrap().as_str(), "left");
}

#[test]
fn clear_forgets_entries_but_keeps_strings() {
    let host = HashStrHost::with_capacity(64);
    let mut cache = HashStrCache::with_capacity(4);
    let s = cache.intern_with(&host, "kept");
    cache.clear();
    assert_eq!(cache.len(), 0);
    assert!(cache.get("kept").is_none());
    assert_eq!(s.as_str(), "kept");
}

#[test]
fn iter_len_capacity_reserve() {
    let host = HashStrHost::new();
    let mut cache = HashStrCache::new();
    cache.intern_with(&host, "one");
    cache.intern_with(&host, "two");
    cache.intern_with(&host, "one");
    cache.reserve(10);
    assert!(cache.capacity() >= 12);
    assert_eq!(cache.len(), 2);
    let mut all: Vec<String> = cache.iter().iter().map(|h| h.as_str().to_owned()).collect();
    all.sort();
    assert_eq!(all, vec!["one".to_owned(), "two".to_owned()]);
}

#[test]
fn allocate_copies_into_host() {
    let host = HashStrHost::new();
    let source = String::from("copied");
    let h = host.allocate(source.as_str());
    assert_eq!(h.as_str(), "copied");
    assert!(!core::ptr::addr_eq(h.as_str(), source.as_str()));
    assert_eq!(h.precomputed_hash(), HashedStr::new("copied").precomputed_hash());
    let g = host.alloc_str_with_hash(99, "copied");
    assert_eq!(g.precomputed_hash(), 99);
    assert!(!core::ptr::addr_eq(h.as_str(), g.as_str()));
}
