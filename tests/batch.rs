use merkseal::batch::{create_batch, root_of_contents, BatchError, BatchIdCounter};
use merkseal::digest::{digest_text_matches, hash_data};
use merkseal::merkle::{MerkleError, MerkleTree};

fn files(items: &[&[u8]]) -> Vec<Vec<u8>> {
    items.iter().map(|b| b.to_vec()).collect()
}

#[test]
fn counter_starts_at_one_and_increases() {
    let mut counter = BatchIdCounter::new();
    assert_eq!(counter.issue(), Some(1));
    assert_eq!(counter.issue(), Some(2));
    assert_eq!(counter.issue(), Some(3));
}

#[test]
fn counter_ids_are_unique_across_requests() {
    let counter = std::sync::Arc::new(std::sync::Mutex::new(BatchIdCounter::new()));
    let requests: Vec<_> = (0..8).map(|_| counter.clone()).collect();
    let mut all: Vec<u64> = Vec::new();
    for _ in 0..50 {
        for r in &requests {
            all.push(r.lock().unwrap().issue().unwrap());
        }
    }
    all.sort();
    let before = all.len();
    all.dedup();
    assert_eq!(all.len(), before);
    assert_eq!(all, (1..=400).collect::<Vec<u64>>());
}

#[test]
fn create_batch_builds_record() {
    let contents = files(&[b"file1", b"file2"]);
    let record = create_batch(7, &contents, "0xREG".to_string()).unwrap();
    assert_eq!(record.local_batch_id, 7);
    assert_eq!(record.root, "1e24cba78e4d8d0eca0cbd1d3b53bc21075051523160d746675f52dff171b709");
    assert_eq!(record.file_count, 2);
    assert_eq!(record.suggested_meta_uri, "ipfs://placeholder-7");
    assert_eq!(record.registry_address, "0xREG");
    assert_eq!(record.mantle_batch_id, None);
}

#[test]
fn create_batch_meta_uri_has_decimal_id() {
    let contents = files(&[b"x"]);
    let record = create_batch(1234567890, &contents, String::new()).unwrap();
    assert_eq!(record.suggested_meta_uri, "ipfs://placeholder-1234567890");
}

#[test]
fn create_batch_without_files_fails() {
    let contents: Vec<Vec<u8>> = Vec::new();
    assert!(matches!(create_batch(1, &contents, String::new()), Err(BatchError::NoFiles)));
}

#[test]
fn root_of_contents_matches_tree() {
    let contents = files(&[b"file1", b"file2", b"file3"]);
    let expected = MerkleTree::new(vec![hash_data(b"file1"), hash_data(b"file2"), hash_data(b"file3")]);
    assert_eq!(root_of_contents(&contents), Ok(expected.root()));
    assert_eq!(root_of_contents(&Vec::new()), Err(MerkleError::EmptyInput));
}

#[test]
fn created_root_round_trips_through_loaded_files() {
    let contents = files(&[b"first", b"second", b"third"]);
    let record = create_batch(3, &contents, String::new()).unwrap();
    let loaded = contents.clone();
    let recomputed = root_of_contents(&loaded).unwrap();
    assert!(digest_text_matches(&record.root, &recomputed));
}

#[test]
fn empty_file_content_is_hashed() {
    let contents = files(&[b""]);
    let record = create_batch(1, &contents, String::new()).unwrap();
    assert_eq!(record.root, "e3b0c44298fc1c149afbf4c8996fb92427ae41e4649b934ca495991b7852b855");
}

#[test]
fn create_batch_meta_uri_small_and_large_ids() {
    let contents = files(&[b"x"]);
    assert_eq!(create_batch(0, &contents, String::new()).unwrap().suggested_meta_uri, "ipfs://placeholder-0");
    assert_eq!(create_batch(10, &contents, String::new()).unwrap().suggested_meta_uri, "ipfs://placeholder-10");
    assert_eq!(
        create_batch(u64::MAX, &contents, String::new()).unwrap().suggested_meta_uri,
        "ipfs://placeholder-18446744073709551615"
    );
}
