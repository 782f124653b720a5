use rules_compiler::events::FileLockType;
use rules_compiler::file_lock::{FileLockHandle, FileLockService, LockFailurePolicy};

const ABC_SHA256: &str = "ba7816bf8f01cfea414140de5dae2223b00361a396177a9cb410ff61f20015ad";
const EMPTY_SHA256: &str = "e3b0c44298fc1c149afbf4c8996fb92427ae41e4649b934ca495991b7852b855";

#[test]
fn test_release_twice_is_safe() {
    let mut service = FileLockService::new();
    let mut handle = service.acquire_read_lock("/data/rules.txt", Some(b"abc"), 100);
    assert!(handle.is_active());
    handle.release();
    assert!(!handle.is_active());
    let after_first = format!("{:?}", handle);
    handle.release();
    assert!(!handle.is_active());
    assert_eq!(format!("{:?}", handle), after_first);
    assert_eq!(handle.file_path, "/data/rules.txt");
    assert_eq!(handle.content_hash.as_deref(), Some(ABC_SHA256));
}

#[test]
fn test_acquire_records_the_lock() {
    let mut service = FileLockService::default();
    assert_eq!(service.active_lock_count(), 0);
    let read = service.acquire_read_lock("/data/a.txt", None, 5);
    assert_eq!(read.lock_type, FileLockType::Read);
    assert_eq!(read.file_path, "/data/a.txt");
    assert_eq!(read.acquired_at, 5);
    assert_eq!(read.content_hash, None);
    assert!(read.is_active());
    assert!(!read.lock_id.is_empty());
    assert_ne!(read.lock_id, "/data/a.txt");
    let write = service.acquire_write_lock("/data/a.txt", Some(b""), 6);
    assert_eq!(write.lock_type, FileLockType::Write);
    assert_eq!(write.content_hash.as_deref(), Some(EMPTY_SHA256));
    assert_ne!(write.lock_id, read.lock_id);
    assert_eq!(service.active_lock_count(), 2);
    let other = service.acquire_lock("/data/b.txt", FileLockType::Read, Some(b"abc"), 7);
    assert_eq!(other.content_hash.as_deref(), Some(ABC_SHA256));
    assert_eq!(service.active_lock_count(), 3);
    service.release_all_locks();
    assert_eq!(service.active_lock_count(), 0);
    service.release_all_locks();
    assert_eq!(service.active_lock_count(), 0);
}

#[test]
fn test_lock_duration() {
    let handle = FileLockHandle {
        lock_id: "id".to_string(),
        file_path: "f".to_string(),
        lock_type: FileLockType::Read,
        acquired_at: 1_000,
        content_hash: None,
        active: true,
    };
    assert_eq!(handle.duration(1_250), 250);
    assert_eq!(handle.duration(1_000), 0);
    assert_eq!(handle.duration(999), 0);
    let early = FileLockHandle { acquired_at: i64::MIN, ..handle };
    assert_eq!(early.duration(i64::MAX), u64::MAX);
}

#[test]
fn test_verify_integrity() {
    let service = FileLockService::new();
    assert_eq!(service.compute_hash(b"abc"), ABC_SHA256);
    assert_eq!(service.compute_hash(b""), EMPTY_SHA256);
    assert!(service.verify_integrity(b"abc", ABC_SHA256));
    assert!(service.verify_integrity(b"abc", &ABC_SHA256.to_uppercase()));
    assert!(!service.verify_integrity(b"abd", ABC_SHA256));
    assert!(!service.verify_integrity(b"abc", &ABC_SHA256[..63]));
    assert!(!service.verify_integrity(b"abc", ""));
    assert!(!service.verify_integrity(b"abc", "abc"));
}

#[test]
fn test_lock_failure_policy() {
    assert_eq!(LockFailurePolicy::default(), LockFailurePolicy::Continue);
    let go_on = LockFailurePolicy::Continue.failed_event("/data/a.txt", FileLockType::Write, "busy");
    assert!(go_on.continue_without_lock);
    assert_eq!(go_on.file_path, "/data/a.txt");
    assert_eq!(go_on.lock_type, FileLockType::Write);
    assert_eq!(go_on.reason, "busy");
    assert_eq!(go_on.error_message, None);
    let stop = LockFailurePolicy::Stop.failed_event("/data/a.txt", FileLockType::Read, "busy");
    assert!(!stop.continue_without_lock);
    assert_eq!(stop.lock_type, FileLockType::Read);
}
