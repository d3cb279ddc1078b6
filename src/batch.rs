//! Batch records: the binding of a local batch identifier to the root of its
//! files, and the counter that hands out those identifiers.
use crate::digest::{digest_to_hex, hash_data, hex_text, Hash32};
use crate::merkle::{batch_root, digest_views, leaf_digests, MerkleError, MerkleTree};
use vstd::prelude::*;
use vstd::string::StringExecFns;

verus! {

/// The decimal digit character of a value below 10.
pub open spec fn digit_char(d: nat) -> char {
    (d + 48) as char
}

/// The decimal text of a number, without sign or leading zeros.
pub open spec fn decimal_chars(n: nat) -> Seq<char>
    decreases n,
{
    if n < 10 {
        seq![digit_char(n)]
    } else {
        decimal_chars(n / 10).push(digit_char(n % 10))
    }
}

/// The placeholder location of a batch's off-batch metadata.
pub open spec fn meta_uri_of(batch_id: u64) -> Seq<char> {
    "ipfs://placeholder-"@ + decimal_chars(batch_id as nat)
}

/// The byte views of a sequence of file contents.
pub open spec fn content_views(s: Seq<Vec<u8>>) -> Seq<Seq<u8>> {
    s.map_values(|v: Vec<u8>| v@)
}

/// The one-character text of a decimal digit.
fn digit_text(d: u64) -> (r: &'static str)
    requires
        d < 10,
    ensures
        r@ == seq![digit_char(d as nat)],
{
    proof {
        reveal_strlit("0");
        reveal_strlit("1");
        reveal_strlit("2");
        reveal_strlit("3");
        reveal_strlit("4");
        reveal_strlit("5");
        reveal_strlit("6");
        reveal_strlit("7");
        reveal_strlit("8");
        reveal_strlit("9");
    }
    match d {
        0 => "0",
        1 => "1",
        2 => "2",
        3 => "3",
        4 => "4",
        5 => "5",
        6 => "6",
        7 => "7",
        8 => "8",
        _ => "9",
    }
}

/// Appends the decimal text of `n` to `out`.
fn append_decimal(out: &mut String, n: u64)
    ensures
        final(out)@ == old(out)@ + decimal_chars(n as nat),
    decreases n,
{
    if n >= 10 {
        append_decimal(out, n / 10);
    }
    out.append(digit_text(n % 10));
    assert(n >= 10 ==> decimal_chars(n as nat) == decimal_chars((n / 10) as nat).push(
        digit_char((n % 10) as nat),
    ));
    assert(out@ =~= old(out)@ + decimal_chars(n as nat));
}

/// The persisted record of a batch.
#[derive(Debug, Clone)]
pub struct BatchMetadata {
    /// Local batch identifier.
    pub local_batch_id: u64,
    /// Merkle root of the batch's files, as lowercase hexadecimal text.
    pub root: String,
    /// Number of files in the batch.
    pub file_count: usize,
    /// Placeholder location for off-batch metadata.
    pub suggested_meta_uri: String,
    /// Address of the anchor registry.
    pub registry_address: String,
    /// External anchor identifier, once the batch has been anchored.
    pub mantle_batch_id: Option<u64>,
}

/// The answer to an upload.
#[derive(Debug, Clone)]
pub struct UploadResponse {
    /// Whether the batch was created.
    pub success: bool,
    /// The record of the created batch.
    pub batch: BatchMetadata,
}

/// Errors of the batch store.
#[derive(Debug, Clone, Copy, PartialEq, Eq)]
pub enum BatchError {
    /// The batch holds no files.
    NoFiles,
    /// No record exists for the batch identifier.
    NotFound,
    /// The persisted record cannot be read as a batch record.
    CorruptRecord,
    /// Reading or writing the batch's storage failed.
    Io,
}

/// Hands out batch identifiers, each once, in increasing order from 1.
#[derive(Debug)]
pub struct BatchIdCounter {
    next: u64,
}

/// One step of a counter: from `before` it hands out `id` and moves to `after`.
pub open spec fn issue_step(before: u64, after: u64, id: u64) -> bool {
    id == before && after == before + 1
}

/// The identifiers handed out by a run of counter steps are pairwise distinct.
pub proof fn lemma_issued_ids_distinct(states: Seq<u64>, ids: Seq<u64>)
    requires
        states.len() == ids.len() + 1,
        forall|i: int| 0 <= i < ids.len() ==> issue_step(states[i], states[i + 1], #[trigger] ids[i]),
    ensures
        forall|i: int, j: int| 0 <= i < j < ids.len() ==> ids[i] != ids[j],
{
    assert forall|i: int| 0 <= i < ids.len() implies #[trigger] ids[i] == states[0] + i by {
        lemma_issued_id_offset(states, ids, i);
    }
}

proof fn lemma_issued_id_offset(states: Seq<u64>, ids: Seq<u64>, i: int)
    requires
        states.len() == ids.len() + 1,
        forall|k: int| 0 <= k < ids.len() ==> issue_step(states[k], states[k + 1], #[trigger] ids[k]),
        0 <= i < ids.len(),
    ensures
        ids[i] == states[0] + i,
        states[i + 1] == states[0] + i + 1,
    decreases i,
{
    assert(issue_step(states[i], states[i + 1], ids[i]));
    if i > 0 {
        lemma_issued_id_offset(states, ids, i - 1);
    }
}

impl BatchIdCounter {
    /// The identifier the counter hands out next.
    pub closed spec fn spec_next(&self) -> u64 {
        self.next
    }

    /// A counter whose first identifier is 1.
    pub fn new() -> (r: Self)
        ensures
            r.spec_next() == 1,
    {
        BatchIdCounter { next: 1 }
    }

    /// Hands out the next identifier, or `None` once every `u64` is used.
    pub fn issue(&mut self) -> (r: Option<u64>)
        ensures
            old(self).spec_next() < u64::MAX ==> r == Some(old(self).spec_next()) && issue_step(
                old(self).spec_next(),
                final(self).spec_next(),
                old(self).spec_next(),
            ),
            old(self).spec_next() == u64::MAX ==> r is None && final(self).spec_next()
                == old(self).spec_next(),
    {
        if self.next == u64::MAX {
            None
        } else {
            let id = self.next;
            self.next = self.next + 1;
            Some(id)
        }
    }
}

/// The leaf digests of an ordered sequence of file contents.
pub fn leaf_hashes_of(contents: &Vec<Vec<u8>>) -> (r: Vec<Hash32>)
    ensures
        r@.len() == contents@.len(),
        digest_views(r@) == leaf_digests(content_views(contents@)),
{
    let mut leaves: Vec<Hash32> = Vec::with_capacity(contents.len());
    for i in 0..contents.len()
        invariant
            leaves@.len() == i,
            forall|j: int| 0 <= j < i ==> (#[trigger] leaves@[j])@ == sha256_of_content(contents@[j]),
    {
        let h = hash_data(contents[i].as_slice());
        leaves.push(h);
    }
    assert(digest_views(leaves@) =~= leaf_digests(content_views(contents@)));
    leaves
}

/// The digest of one file's contents.
pub open spec fn sha256_of_content(v: Vec<u8>) -> Seq<u8> {
    crate::digest::sha256_of(v@)
}

/// The Merkle root of an ordered sequence of file contents, or an error on
/// an empty sequence.
pub fn root_of_contents(contents: &Vec<Vec<u8>>) -> (r: Result<Hash32, MerkleError>)
    requires
        contents@.len() <= usize::MAX / 2,
    ensures
        contents@.len() == 0 <==> r == Err::<Hash32, MerkleError>(MerkleError::EmptyInput),
        r matches Ok(h) ==> h@ == batch_root(content_views(contents@)),
{
    let leaves = leaf_hashes_of(contents);
    match MerkleTree::try_new(leaves) {
        Ok(tree) => Ok(tree.root()),
        Err(e) => Err(e),
    }
}

/// Creates the record of a batch from its files' contents, in the order in
/// which they are stored.
pub fn create_batch(batch_id: u64, contents: &Vec<Vec<u8>>, registry_address: String) -> (r:
    Result<BatchMetadata, BatchError>)
    requires
        contents@.len() <= usize::MAX / 2,
    ensures
        contents@.len() == 0 <==> r == Err::<BatchMetadata, BatchError>(BatchError::NoFiles),
        contents@.len() > 0 ==> r is Ok,
        r matches Ok(m) ==> {
            &&& m.local_batch_id == batch_id
            &&& batch_root(content_views(contents@)).len() == 32
            &&& m.root@ == hex_text(batch_root(content_views(contents@)))
            &&& m.file_count == contents@.len()
            &&& m.suggested_meta_uri@ == meta_uri_of(batch_id)
            &&& m.registry_address@ == registry_address@
            &&& m.mantle_batch_id is None
        },
{
    let computed = root_of_contents(contents);
    match computed {
        Err(e) => {
            assert(e == MerkleError::EmptyInput);
            Err(BatchError::NoFiles)
        },
        Ok(root) => {
            let mut uri = String::from_str("ipfs://placeholder-");
            append_decimal(&mut uri, batch_id);
            Ok(
                BatchMetadata {
                    local_batch_id: batch_id,
                    root: digest_to_hex(&root),
                    file_count: contents.len(),
                    suggested_meta_uri: uri,
                    registry_address,
                    mantle_batch_id: None,
                },
            )
        },
    }
}

} // verus!
