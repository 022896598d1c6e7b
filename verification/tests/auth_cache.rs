use curriculum_board::auth::AuthCache;
use curriculum_board::model::{course_code_of, UserInfo};

#[test]
fn credential_cache_round_trip() {
    let mut cache = AuthCache::new(100);
    assert!(cache.get(&"Bearer abc".to_string()).is_none());
    cache.insert("Bearer abc".to_string(), UserInfo { id: 42, is_admin: false });
    let hit = cache.get(&"Bearer abc".to_string()).unwrap();
    assert_eq!(hit.id, 42);
    assert!(!hit.is_admin);
    assert!(cache.get(&"Bearer other".to_string()).is_none());
}

#[test]
fn credential_cache_updates_in_place() {
    let mut cache = AuthCache::new(100);
    cache.insert("t1".to_string(), UserInfo { id: 1, is_admin: false });
    cache.insert("t2".to_string(), UserInfo { id: 2, is_admin: false });
    cache.insert("t1".to_string(), UserInfo { id: 1, is_admin: true });
    assert_eq!(cache.entries.len(), 2);
    assert!(cache.get(&"t1".to_string()).unwrap().is_admin);
    assert_eq!(cache.get(&"t2".to_string()).unwrap().id, 2);
}

#[test]
fn credential_cache_evicts_oldest_at_capacity() {
    let mut cache = AuthCache::new(2);
    cache.insert("t1".to_string(), UserInfo { id: 1, is_admin: false });
    cache.insert("t2".to_string(), UserInfo { id: 2, is_admin: false });
    cache.insert("t3".to_string(), UserInfo { id: 3, is_admin: false });
    assert_eq!(cache.entries.len(), 2);
    assert!(cache.get(&"t1".to_string()).is_none());
    assert_eq!(cache.get(&"t2".to_string()).unwrap().id, 2);
    assert_eq!(cache.get(&"t3".to_string()).unwrap().id, 3);
}

#[test]
fn course_code_strips_year_qualifier() {
    assert_eq!(course_code_of("COMP110042.01h").unwrap(), "COMP110042.");
    assert_eq!(course_code_of("MATH120001.02"), Some("MATH120001".to_string()));
    assert_eq!(course_code_of("abc"), None);
    assert_eq!(course_code_of(""), None);
    assert_eq!(course_code_of("abcd"), Some("a".to_string()));
}
