use docgen::storage::{FileStorage, StoredFile, FILE_EXPIRATION_SECS};

#[test]
fn test_store_and_retrieve() {
    let mut storage = FileStorage::new();
    let data = vec![1u8, 2, 3, 4];
    let filename = "test.pdf".to_string();

    let id = storage.store(data.clone(), filename.clone());
    let retrieved = storage.retrieve(id);

    assert!(retrieved.is_some());
    let file = retrieved.unwrap();
    assert_eq!(file.data, data);
    assert_eq!(file.filename, filename);
}

#[test]
fn test_retrieve_nonexistent() {
    let mut storage = FileStorage::new();
    let id = uuid::Uuid::new_v4().as_u128();
    let retrieved = storage.retrieve(id);
    assert!(retrieved.is_none());
}

#[test]
fn test_cleanup_expired() {
    let mut storage = FileStorage::new();
    // Stored two lifetimes ago, so already expired now.
    let now = 10 * FILE_EXPIRATION_SECS;
    storage.store_at(vec![1, 2, 3], "test.pdf".to_string(), now - 2 * FILE_EXPIRATION_SECS, 42);
    storage.cleanup_expired_at(now);
    assert_eq!(storage.count(), 0);
}

#[test]
fn stored_file_expires_one_hour_after_creation() {
    let f = StoredFile::created(vec![9], "a.pdf".to_string(), 1000);
    assert_eq!(f.created_at, 1000);
    assert_eq!(f.expires_at, 1000 + 3600);
    assert!(!f.is_expired_at(4599));
    assert!(f.is_expired_at(4600));
}

#[test]
fn expiry_saturates_at_the_end_of_time() {
    let f = StoredFile::created(vec![], "a.pdf".to_string(), u64::MAX - 10);
    assert_eq!(f.expires_at, u64::MAX);
}

#[test]
fn retrieve_after_expiry_misses_and_drops_the_entry() {
    let mut storage = FileStorage::new();
    let id = storage.store_at(vec![7, 7], "x.pdf".to_string(), 100, 5);
    assert_eq!(storage.count(), 1);
    let hit = storage.retrieve_at(id, 100).unwrap();
    assert_eq!(hit.data, vec![7, 7]);
    assert_eq!(hit.filename, "x.pdf");
    assert_eq!(storage.count(), 1);
    assert!(storage.retrieve_at(id, 100 + FILE_EXPIRATION_SECS).is_none());
    assert_eq!(storage.count(), 0);
}

#[test]
fn colliding_seeds_still_give_distinct_ids() {
    let mut storage = FileStorage::new();
    let a = storage.store_at(vec![1], "a.pdf".to_string(), 0, 77);
    let b = storage.store_at(vec![2], "b.pdf".to_string(), 0, 77);
    let c = storage.store_at(vec![3], "c.pdf".to_string(), 0, 77);
    assert_eq!(a, 77);
    assert_eq!(b, 77 ^ 1);
    assert_eq!(c, 77 ^ 2);
    assert_eq!(storage.count(), 3);
}

#[test]
fn random_stores_give_distinct_ids() {
    let mut storage = FileStorage::new();
    let mut ids = Vec::new();
    for i in 0..50u8 {
        ids.push(storage.store(vec![i], "f.pdf".to_string()));
    }
    ids.sort();
    ids.dedup();
    assert_eq!(ids.len(), 50);
    assert_eq!(storage.count(), 50);
}

#[test]
fn cleanup_keeps_live_entries() {
    let mut storage = FileStorage::new();
    storage.store_at(vec![1], "old.pdf".to_string(), 0, 1);
    let live = storage.store_at(vec![2], "new.pdf".to_string(), 5000, 2);
    storage.cleanup_expired_at(5000);
    assert_eq!(storage.count(), 1);
    assert_eq!(storage.retrieve_at(live, 5000).unwrap().filename, "new.pdf");
}

#[test]
fn fresh_file_is_not_expired_by_the_clock() {
    let mut storage = FileStorage::new();
    let id = storage.store(vec![1], "a.pdf".to_string());
    let f = storage.retrieve(id).unwrap();
    assert!(!f.is_expired());
    storage.cleanup_expired();
    assert_eq!(storage.count(), 1);
}
