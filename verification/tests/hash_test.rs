use std::io::Write;

use disk_tidy::hash::{
    full_hash_result, hash_bytes, hash_string, hashes_equal, partial_hash_result, HashCalculator,
};
use tempfile::TempDir;

#[test]
fn test_hash_known_vector() {
    // The SHA-256 digest of "abc", in lower-case hex.
    assert_eq!(
        hash_string("abc"),
        "ba7816bf8f01cfea414140de5dae2223b00361a396177a9cb410ff61f20015ad"
    );
}

#[test]
fn test_hash_empty_input() {
    // The SHA-256 digest of the empty input.
    assert_eq!(
        hash_bytes(&[]),
        "e3b0c44298fc1c149afbf4c8996fb92427ae41e4649b934ca495991b7852b855"
    );
}

#[test]
fn test_identical_content_identical_hash() {
    let a: Vec<u8> = (0..4096u32).map(|i| (i % 256) as u8).collect();
    let b = a.clone();
    assert_eq!(hash_bytes(&a), hash_bytes(&b));
    let c: Vec<u8> = (1..4097u32).map(|i| (i % 256) as u8).collect();
    assert_ne!(hash_bytes(&a), hash_bytes(&c));
}

#[test]
fn test_partial_hash_covers_prefix_only() {
    let mut data: Vec<u8> = vec![0x42; 65536];
    let partial_short = partial_hash_result(&data);
    data.extend_from_slice(&[0x43; 100]);
    let partial_long = partial_hash_result(&data);
    let full_long = full_hash_result(&data);
    assert!(partial_long.is_partial);
    assert_eq!(partial_long.bytes_processed, 65536);
    assert_eq!(partial_short.hash, partial_long.hash);
    assert_ne!(partial_long.hash, full_long.hash);
    assert!(!full_long.is_partial);
    assert_eq!(full_long.bytes_processed, 65636);
}

#[test]
fn test_cache_validation_forces_recompute() {
    let mut calc = HashCalculator::new();
    let path = "C:\\data\\file.bin".to_string();
    let hash = "abc123".to_string();
    calc.cache_store(&path, &hash, 1000, 50);
    assert_eq!(calc.cache_lookup(&path, 1000, 50), Some("abc123".to_string()));
    // A changed modification time invalidates the entry.
    assert_eq!(calc.cache_lookup(&path, 1001, 50), None);
    // A changed size invalidates the entry.
    assert_eq!(calc.cache_lookup(&path, 1000, 51), None);
    // The entry itself is still there for the matching metadata.
    assert_eq!(calc.cache_lookup(&path, 1000, 50), Some("abc123".to_string()));
}

#[test]
fn test_cache_disabled_never_hits() {
    let mut calc = HashCalculator::with_cache(false);
    let path = "C:\\data\\file.bin".to_string();
    let hash = "abc123".to_string();
    calc.cache_store(&path, &hash, 1000, 50);
    assert_eq!(calc.cache_lookup(&path, 1000, 50), None);
    assert_eq!(calc.cache_size(), 0);
}

#[test]
fn test_cache_bounded_by_capacity() {
    let mut calc = HashCalculator::with_cache_and_size(true, 2);
    calc.cache_store(&"a".to_string(), &"h1".to_string(), 1, 1);
    calc.cache_store(&"b".to_string(), &"h2".to_string(), 2, 2);
    calc.cache_store(&"c".to_string(), &"h3".to_string(), 3, 3);
    assert!(calc.cache_size() <= 2);
    assert_eq!(calc.cache_lookup(&"c".to_string(), 3, 3), Some("h3".to_string()));
    calc.clear_cache();
    assert_eq!(calc.cache_size(), 0);
}

#[test]
fn test_file_hash_matches_content_hash() {
    let dir = TempDir::new().unwrap();
    let content: Vec<u8> = (0..1000u32).map(|i| (i * 7 % 256) as u8).collect();
    let mut file = tempfile::Builder::new()
        .prefix("data")
        .keep(true)
        .tempfile_in(dir.path())
        .unwrap();
    file.write_all(&content).unwrap();
    file.flush().unwrap();
    let path = file.path().to_string_lossy().to_string();

    let mut calc = HashCalculator::new();
    let result = calc.calculate_file_hash(&path).unwrap();
    assert!(!result.is_partial);
    assert_eq!(result.hash, hash_bytes(&content));

    // The second read is served consistently (via the cache).
    let again = calc.calculate_file_hash(&path).unwrap();
    assert_eq!(again.hash, result.hash);
    assert_eq!(calc.cache_size(), 1);
}

#[test]
fn test_missing_file_not_found() {
    let mut calc = HashCalculator::new();
    let missing = "definitely-not-a-real-path-0192837465".to_string();
    let err = calc.calculate_file_hash(&missing).unwrap_err();
    assert_eq!(err.error_code(), "E015");
}

#[test]
fn test_quick_compare_same_and_different() {
    let dir = TempDir::new().unwrap();
    let content: Vec<u8> = vec![0x77; 300];
    let mut f1 = tempfile::Builder::new().prefix("data").keep(true).tempfile_in(dir.path()).unwrap();
    f1.write_all(&content).unwrap();
    f1.flush().unwrap();
    let mut f2 = tempfile::Builder::new().prefix("data").keep(true).tempfile_in(dir.path()).unwrap();
    f2.write_all(&content).unwrap();
    f2.flush().unwrap();
    let mut f3 = tempfile::Builder::new().prefix("data").keep(true).tempfile_in(dir.path()).unwrap();
    f3.write_all(&[0x78; 300]).unwrap();
    f3.flush().unwrap();

    let p1 = f1.path().to_string_lossy().to_string();
    let p2 = f2.path().to_string_lossy().to_string();
    let p3 = f3.path().to_string_lossy().to_string();

    let mut calc = HashCalculator::new();
    assert!(calc.quick_compare(&p1, &p2).unwrap());
    assert!(!calc.quick_compare(&p1, &p3).unwrap());
}

#[test]
fn test_hashes_equal_on_results() {
    let a = full_hash_result(&vec![1u8, 2, 3]);
    let b = full_hash_result(&vec![1u8, 2, 3]);
    let c = full_hash_result(&vec![1u8, 2, 4]);
    assert!(hashes_equal(&a, &b));
    assert!(!hashes_equal(&a, &c));
}
