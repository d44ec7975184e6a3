use chat_relay::batch::ReferenceRow;
use chat_relay::cache::NameCache;

fn reference(entity_id: u64, name: &str) -> ReferenceRow {
    ReferenceRow { entity_id, name: name.to_string() }
}

#[test]
fn new_cache_knows_no_name() {
    let cache = NameCache::new();
    assert_eq!(cache.get(0), None);
    assert_eq!(cache.get(u64::MAX), None);
}

#[test]
fn insert_gives_an_id_its_name() {
    let mut cache = NameCache::new();
    cache.insert(5, "Sol Empire".to_string());
    assert_eq!(cache.get(5), Some(&"Sol Empire".to_string()));
    assert_eq!(cache.get(6), None);
}

#[test]
fn insert_replaces_the_name_an_id_had() {
    let mut cache = NameCache::new();
    cache.insert(5, "Old".to_string());
    cache.insert(5, "New".to_string());
    assert_eq!(cache.get(5), Some(&"New".to_string()));
}

#[test]
fn inserting_twice_is_inserting_once() {
    let mut once = NameCache::new();
    once.insert(5, "Sol Empire".to_string());
    let mut twice = NameCache::new();
    twice.insert(5, "Sol Empire".to_string());
    twice.insert(5, "Sol Empire".to_string());
    for id in [0u64, 4, 5, 6] {
        assert_eq!(once.get(id), twice.get(id));
    }
}

#[test]
fn rows_are_taken_in_order() {
    let mut cache = NameCache::new();
    cache.insert(1, "kept".to_string());
    cache.absorb_rows(&vec![
        reference(2, "first"),
        reference(3, "other"),
        reference(2, "second"),
    ]);
    assert_eq!(cache.get(1), Some(&"kept".to_string()));
    assert_eq!(cache.get(2), Some(&"second".to_string()));
    assert_eq!(cache.get(3), Some(&"other".to_string()));
    cache.absorb_rows(&Vec::new());
    assert_eq!(cache.get(2), Some(&"second".to_string()));
}
