use cache_backend::{CacheBackend, CacheError, SimpleMemoryCache};

#[test]
fn store_on_empty_then_retrieve_finds_value() {
    let mut cache = SimpleMemoryCache::<u32>::new();

    assert_eq!(cache.store(&0, 7), Ok(()));
    assert_eq!(cache.retrieve(&0), Ok(Some(&7)));
    assert_eq!(cache.len(), 1);
}

#[test]
fn store_on_largest_key() {
    let mut cache = SimpleMemoryCache::<u8>::new();

    assert_eq!(cache.store(&usize::MAX, 1), Ok(()));
    assert_eq!(cache.retrieve(&usize::MAX), Ok(Some(&1)));
    assert_eq!(cache.retrieve(&0), Ok(None));
}

#[test]
fn failed_store_keeps_previous_value() {
    let mut cache = SimpleMemoryCache::<u8>::new();
    let _ = cache.store(&5, 1);

    assert_eq!(cache.store(&5, 2), Err(CacheError::KeyAlreadyPresent(5)));
    assert_eq!(cache.retrieve(&5), Ok(Some(&1)));
    assert_eq!(cache.len(), 1);
}

#[test]
fn duplicate_store_then_retrieve_scenario() {
    let mut cache = SimpleMemoryCache::<u8>::new();

    assert_eq!(cache.store(&23, 13), Ok(()));
    assert_eq!(cache.store(&23, 13), Err(CacheError::KeyAlreadyPresent(23)));
    assert_eq!(cache.retrieve(&23), Ok(Some(&13)));
}

#[test]
fn update_on_empty_inserts() {
    let mut cache = SimpleMemoryCache::<u8>::new();

    assert_eq!(cache.update(&4, 40), Ok(()));
    assert_eq!(cache.retrieve(&4), Ok(Some(&40)));
}

#[test]
fn update_overwrites_and_keeps_other_keys() {
    let mut cache = SimpleMemoryCache::<u8>::new();
    let _ = cache.store(&1, 10);
    let _ = cache.store(&2, 20);

    assert_eq!(cache.update(&1, 11), Ok(()));
    assert_eq!(cache.retrieve(&1), Ok(Some(&11)));
    assert_eq!(cache.retrieve(&2), Ok(Some(&20)));
    assert_eq!(cache.len(), 2);
}

#[test]
fn store_after_expire_succeeds() {
    let mut cache = SimpleMemoryCache::<u8>::new();
    let _ = cache.store(&23, 13);

    assert_eq!(cache.expire(&23), Ok(()));
    assert_eq!(cache.retrieve(&23), Ok(None));
    assert_eq!(cache.store(&23, 14), Ok(()));
    assert_eq!(cache.retrieve(&23), Ok(Some(&14)));
}

#[test]
fn expire_absent_key_leaves_mapping_unchanged() {
    let mut cache = SimpleMemoryCache::<u8>::new();
    let _ = cache.store(&23, 13);
    let before = cache.clone();

    assert_eq!(cache.expire(&78), Ok(()));
    assert_eq!(cache.expire(&78), Ok(()));
    assert_eq!(cache, before);
}

#[test]
fn retrieve_on_empty_is_none() {
    let cache = SimpleMemoryCache::<u8>::new();

    assert_eq!(cache.retrieve(&0), Ok(None));
    assert_eq!(cache.retrieve(&23), Ok(None));
}
