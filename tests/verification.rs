use merkseal::batch::{create_batch, BatchError, BatchMetadata};
use merkseal::digest::hash_data;
use merkseal::merkle::MerkleTree;
use merkseal::verification::{check_anchor, check_files, resolve_external_id, VerifyError};

fn two_file_batch() -> (Vec<Vec<u8>>, BatchMetadata) {
    let contents = vec![b"file1".to_vec(), b"file2".to_vec()];
    let record = create_batch(1, &contents, "0xREG".to_string()).unwrap();
    (contents, record)
}

fn anchored_root() -> [u8; 32] {
    MerkleTree::new(vec![hash_data(b"file1"), hash_data(b"file2")]).root()
}

#[test]
fn external_id_from_request_or_record() {
    let (_, mut record) = two_file_batch();
    let loaded: Result<BatchMetadata, BatchError> = Ok(record.clone());
    assert!(matches!(resolve_external_id(1, Some(9), &loaded), Ok(9)));
    assert!(matches!(
        resolve_external_id(1, None, &loaded),
        Err(VerifyError::MissingExternalReference)
    ));
    record.mantle_batch_id = Some(4);
    let loaded: Result<BatchMetadata, BatchError> = Ok(record);
    assert!(matches!(resolve_external_id(1, None, &loaded), Ok(4)));
    assert!(matches!(resolve_external_id(1, Some(9), &loaded), Ok(9)));
}

#[test]
fn missing_batch_is_not_found() {
    let loaded: Result<BatchMetadata, BatchError> = Err(BatchError::NotFound);
    assert!(matches!(
        resolve_external_id(42, Some(1), &loaded),
        Err(VerifyError::BatchNotFound { local_batch_id: 42 })
    ));
    let corrupt: Result<BatchMetadata, BatchError> = Err(BatchError::CorruptRecord);
    assert!(matches!(
        resolve_external_id(42, Some(1), &corrupt),
        Err(VerifyError::Store(BatchError::CorruptRecord))
    ));
}

#[test]
fn verification_succeeds_end_to_end() {
    let (contents, record) = two_file_batch();
    let anchored = anchored_root();
    let confirmed = check_anchor(&record, 5, Some(anchored)).unwrap();
    let verified = check_files(&confirmed, &contents).unwrap();
    assert_eq!(verified.root, anchored);
    assert_eq!(verified.local_batch_id, 1);
    assert_eq!(verified.external_batch_id, 5);
    assert_eq!(verified.file_count, 2);
}

#[test]
fn anchor_comparison_ignores_prefix_and_case() {
    let (_, mut record) = two_file_batch();
    record.root = format!("0x{}", record.root.to_uppercase());
    assert!(check_anchor(&record, 5, Some(anchored_root())).is_ok());
}

#[test]
fn altered_file_is_local_tamper() {
    let (mut contents, record) = two_file_batch();
    let confirmed = check_anchor(&record, 5, Some(anchored_root())).unwrap();
    contents[1][0] ^= 1;
    let altered = MerkleTree::new(vec![hash_data(b"file1"), hash_data(&contents[1])]).root();
    match check_files(&confirmed, &contents) {
        Err(VerifyError::LocalTamperDetected { computed_root, local_root }) => {
            assert_ne!(computed_root, anchored_root());
            assert_eq!(computed_root, altered);
            assert_eq!(local_root, record.root);
        }
        other => panic!("unexpected outcome {:?}", other),
    }
}

#[test]
fn anchor_mismatch_stops_before_files() {
    let (_, record) = two_file_batch();
    let other = hash_data(b"another root");
    let mut files_read = 0;
    let outcome = check_anchor(&record, 5, Some(other));
    if outcome.is_ok() {
        files_read += 1;
    }
    assert_eq!(files_read, 0);
    match outcome {
        Err(VerifyError::AnchorMismatch { local_root, anchored_root }) => {
            assert_eq!(local_root, record.root);
            assert_eq!(anchored_root, other);
        }
        other => panic!("unexpected outcome {:?}", other),
    }
}

#[test]
fn anchor_lookup_failure_is_distinct() {
    let (_, record) = two_file_batch();
    assert!(matches!(
        check_anchor(&record, 8, None),
        Err(VerifyError::AnchorLookupFailed { external_batch_id: 8 })
    ));
}

#[test]
fn batch_without_files_is_empty() {
    let (_, record) = two_file_batch();
    let confirmed = check_anchor(&record, 5, Some(anchored_root())).unwrap();
    assert!(matches!(check_files(&confirmed, &Vec::new()), Err(VerifyError::EmptyBatch)));
}
