use std::cell::Cell;

use tempfile::util::create_helper;
use tempfile::ErrorKind;

#[test]
fn exhausted_retries_report_already_exists() {
    let attempts: Cell<u64> = Cell::new(0);
    let r: Result<String, ErrorKind> = create_helper("/tmp", "p-", ".x", 6, |_path: String| {
        attempts.set(attempts.get() + 1);
        Err(ErrorKind::AlreadyExists)
    });
    assert_eq!(r, Err(ErrorKind::AlreadyExists));
    assert_eq!(attempts.get(), 65536);
}

#[test]
fn collision_is_retried_with_a_fresh_name_until_success() {
    let attempts: Cell<u64> = Cell::new(0);
    let r: Result<String, ErrorKind> = create_helper("/tmp", "p-", ".x", 6, |path: String| {
        attempts.set(attempts.get() + 1);
        if attempts.get() < 3 {
            Err(ErrorKind::AlreadyExists)
        } else {
            Ok(path)
        }
    });
    assert_eq!(attempts.get(), 3);
    let path = r.expect("third attempt succeeds");
    assert!(path.starts_with("/tmp/p-"));
    assert!(path.ends_with(".x"));
    assert_eq!(path.len(), "/tmp/p-.x".len() + 6);
}

#[test]
fn non_retryable_errors_surface_immediately() {
    let attempts: Cell<u64> = Cell::new(0);
    let r: Result<String, ErrorKind> = create_helper("/tmp", "p-", ".x", 6, |_path: String| {
        attempts.set(attempts.get() + 1);
        Err(ErrorKind::NotFound)
    });
    assert_eq!(r, Err(ErrorKind::NotFound));
    assert_eq!(attempts.get(), 1);

    let r2: Result<String, ErrorKind> = create_helper("/tmp", "p-", ".x", 6, |_path: String| {
        Err(ErrorKind::Other)
    });
    assert_eq!(r2, Err(ErrorKind::Other));
}
