//! The verification procedure: each stage decides, from what the previous
//! stages found, whether the batch passes on to the next or fails.
//!
//! The stages run in this order: resolve the external batch identifier from
//! the loaded record, compare the stored root with the anchored root, and only
//! then compare the stored root with the root recomputed from the batch's
//! files. The order is held by the types: the file stage takes the
//! `AnchorConfirmed` that only a passed anchor stage yields. The caller
//! performs the loading, the anchor lookup and the file reads between them.
use crate::batch::{content_views, root_of_contents, BatchError, BatchMetadata};
use crate::digest::{
    digest_of_text, digest_text_matches, hex_text, lemma_hex_text_round_trip, Hash32,
};
use crate::merkle::{batch_root, MerkleError};
use vstd::prelude::*;
use vstd::string::StringSliceAdditionalSpecFns;
use vstd::utf8::encode_utf8;

verus! {

/// Why a verification run failed.
#[derive(Debug, Clone)]
pub enum VerifyError {
    /// No record exists for the local batch.
    BatchNotFound { local_batch_id: u64 },
    /// The record could not be loaded for another reason.
    Store(BatchError),
    /// No external batch identifier was supplied or stored.
    MissingExternalReference,
    /// The anchor lookup gave no answer.
    AnchorLookupFailed { external_batch_id: u64 },
    /// The stored root differs from the anchored root.
    AnchorMismatch { local_root: String, anchored_root: Hash32 },
    /// The batch holds no files.
    EmptyBatch,
    /// The root recomputed from the files differs from the stored root.
    LocalTamperDetected { computed_root: Hash32, local_root: String },
}

/// The report of a successful verification.
#[derive(Debug, Clone)]
pub struct VerifiedBatch {
    /// Local batch identifier.
    pub local_batch_id: u64,
    /// External batch identifier the batch was checked against.
    pub external_batch_id: u64,
    /// Number of files in the batch, as recorded.
    pub file_count: usize,
    /// The root that the files, the record and the anchor agree on.
    pub root: Hash32,
}

/// The digest a record's root text names, if it names one.
pub open spec fn stored_root(record: BatchMetadata) -> Option<Seq<u8>> {
    digest_of_text(encode_utf8(record.root@))
}

/// A record created from some files names, in its root text, the root that
/// those files give: reading the same files back passes the local check.
pub proof fn lemma_created_batch_round_trip(files: Seq<Seq<u8>>, record: BatchMetadata)
    requires
        batch_root(files).len() == 32,
        record.root@ == hex_text(batch_root(files)),
    ensures
        stored_root(record) == Some(batch_root(files)),
{
    lemma_hex_text_round_trip(batch_root(files));
}

/// Stages one and two: from the outcome of loading the record, the external
/// batch identifier to check against, taken from the request if it names
/// one and from the record otherwise.
pub fn resolve_external_id(
    local_batch_id: u64,
    requested: Option<u64>,
    loaded: &Result<BatchMetadata, BatchError>,
) -> (r: Result<u64, VerifyError>)
    ensures
        loaded matches Err(BatchError::NotFound) ==> (r matches Err(
            VerifyError::BatchNotFound { local_batch_id: id },
        ) && id == local_batch_id),
        loaded matches Err(e) ==> (e == BatchError::NotFound || (r matches Err(
            VerifyError::Store(e2),
        ) && e2 == e)),
        loaded matches Ok(m) ==> match requested {
            Some(id) => r == Ok::<u64, VerifyError>(id),
            None => match m.mantle_batch_id {
                Some(id) => r == Ok::<u64, VerifyError>(id),
                None => r matches Err(VerifyError::MissingExternalReference),
            },
        },
{
    match loaded {
        Err(BatchError::NotFound) => Err(VerifyError::BatchNotFound { local_batch_id }),
        Err(e) => Err(VerifyError::Store(*e)),
        Ok(m) => match requested {
            Some(id) => Ok(id),
            None => match m.mantle_batch_id {
                Some(id) => Ok(id),
                None => Err(VerifyError::MissingExternalReference),
            },
        },
    }
}

/// The outcome of a passed anchor stage: the stored root of the batch names
/// the anchored root. Only `check_anchor` makes one, and the file stage takes
/// one, so no file is checked before the anchor has matched.
#[derive(Debug)]
pub struct AnchorConfirmed {
    local_batch_id: u64,
    external_batch_id: u64,
    file_count: usize,
    local_root: String,
    anchored_root: Hash32,
}

impl AnchorConfirmed {
    /// Local batch identifier of the confirmed record.
    pub closed spec fn spec_local_batch_id(&self) -> u64 {
        self.local_batch_id
    }

    /// External batch identifier the anchor was fetched for.
    pub closed spec fn spec_external_batch_id(&self) -> u64 {
        self.external_batch_id
    }

    /// File count of the confirmed record.
    pub closed spec fn spec_file_count(&self) -> usize {
        self.file_count
    }

    /// Root text of the confirmed record.
    pub closed spec fn spec_local_root(&self) -> Seq<char> {
        self.local_root@
    }

    /// The anchored root.
    pub closed spec fn spec_anchored_root(&self) -> Seq<u8> {
        self.anchored_root@
    }

    /// The stored root text names the anchored root.
    pub closed spec fn wf(&self) -> bool {
        digest_of_text(encode_utf8(self.local_root@)) == Some(self.anchored_root@)
    }
}

/// Stages three and four: from the outcome of the anchor lookup, whether the
/// stored root is the anchored root. Only on `Ok` are the files to be read.
pub fn check_anchor(record: &BatchMetadata, external_batch_id: u64, fetched: Option<Hash32>) -> (r:
    Result<AnchorConfirmed, VerifyError>)
    ensures
        fetched is None ==> (r matches Err(VerifyError::AnchorLookupFailed { external_batch_id: id })
            && id == external_batch_id),
        fetched matches Some(a) ==> (r is Ok <==> stored_root(*record) == Some(a@)),
        fetched matches Some(a) ==> (r is Ok || (r matches Err(
            VerifyError::AnchorMismatch { local_root, anchored_root },
        ) && local_root@ == record.root@ && anchored_root == a)),
        r matches Ok(c) ==> {
            &&& c.wf()
            &&& fetched matches Some(a) && c.spec_anchored_root() == a@
            &&& c.spec_local_batch_id() == record.local_batch_id
            &&& c.spec_external_batch_id() == external_batch_id
            &&& c.spec_file_count() == record.file_count
            &&& c.spec_local_root() == record.root@
        },
{
    match fetched {
        None => Err(VerifyError::AnchorLookupFailed { external_batch_id }),
        Some(anchored) => {
            if digest_text_matches(record.root.as_str(), &anchored) {
                Ok(
                    AnchorConfirmed {
                        local_batch_id: record.local_batch_id,
                        external_batch_id,
                        file_count: record.file_count,
                        local_root: record.root.clone(),
                        anchored_root: anchored,
                    },
                )
            } else {
                Err(VerifyError::AnchorMismatch { local_root: record.root.clone(), anchored_root: anchored })
            }
        },
    }
}

/// Stages five to seven: from the contents of the batch's files, in their
/// stored order, whether they still give the root that the anchor stage
/// confirmed. On success the recomputed, stored and anchored roots agree.
pub fn check_files(confirmed: &AnchorConfirmed, contents: &Vec<Vec<u8>>) -> (r: Result<
    VerifiedBatch,
    VerifyError,
>)
    requires
        confirmed.wf(),
        contents@.len() <= usize::MAX / 2,
    ensures
        contents@.len() == 0 ==> r matches Err(VerifyError::EmptyBatch),
        contents@.len() > 0 ==> (r is Ok <==> batch_root(content_views(contents@))
            == confirmed.spec_anchored_root()),
        r matches Ok(v) ==> {
            &&& v.local_batch_id == confirmed.spec_local_batch_id()
            &&& v.external_batch_id == confirmed.spec_external_batch_id()
            &&& v.file_count == confirmed.spec_file_count()
            &&& v.root@ == batch_root(content_views(contents@))
            &&& v.root@ == confirmed.spec_anchored_root()
            &&& digest_of_text(encode_utf8(confirmed.spec_local_root())) == Some(v.root@)
        },
        contents@.len() > 0 && r is Err ==> (r matches Err(
            VerifyError::LocalTamperDetected { computed_root, local_root },
        ) && computed_root@ == batch_root(content_views(contents@)) && local_root@
            == confirmed.spec_local_root()),
{
    let recomputed = root_of_contents(contents);
    match recomputed {
        Err(e) => {
            assert(e == MerkleError::EmptyInput);
            Err(VerifyError::EmptyBatch)
        },
        Ok(computed) => {
            if digest_text_matches(confirmed.local_root.as_str(), &computed) {
                Ok(
                    VerifiedBatch {
                        local_batch_id: confirmed.local_batch_id,
                        external_batch_id: confirmed.external_batch_id,
                        file_count: confirmed.file_count,
                        root: computed,
                    },
                )
            } else {
                Err(
                    VerifyError::LocalTamperDetected {
                        computed_root: computed,
                        local_root: confirmed.local_root.clone(),
                    },
                )
            }
        },
    }
}

} // verus!
