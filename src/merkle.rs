//! The Merkle engine: one root digest over an ordered sequence of leaf digests.
use crate::digest::{digest_to_hex, hash_pair, hex_text, sha256_of, zero_digest, Hash32};
use vstd::prelude::*;

verus! {

/// Whether `n` is a power of two.
pub open spec fn is_pow2(n: nat) -> bool
    decreases n,
{
    if n == 1 {
        true
    } else if n == 0 || n % 2 == 1 {
        false
    } else {
        is_pow2(n / 2)
    }
}

/// The least power of two that is at least `n`, found by doubling `p`.
pub open spec fn pow2_at_least(p: nat, n: nat) -> nat
    decreases (if p < n { n - p } else { 0 }),
{
    if p == 0 || p >= n {
        p
    } else {
        pow2_at_least(2 * p, n)
    }
}

/// The length a leaf set of `n` leaves is padded to.
pub open spec fn padded_len(n: nat) -> nat {
    pow2_at_least(1, n)
}

/// The leaves followed by all-zero digests up to the next power of two.
pub open spec fn padded(leaves: Seq<Seq<u8>>) -> Seq<Seq<u8>> {
    leaves + Seq::new((padded_len(leaves.len()) - leaves.len()) as nat, |_i: int| zero_digest())
}

/// The level above: the digest of each adjacent pair, left joined to right.
pub open spec fn level_up(level: Seq<Seq<u8>>) -> Seq<Seq<u8>> {
    Seq::new(level.len() / 2, |i: int| sha256_of(level[2 * i] + level[2 * i + 1]))
}

/// Hashes pairs level by level until one digest remains.
pub open spec fn fold_levels(level: Seq<Seq<u8>>) -> Seq<u8>
    decreases level.len(),
{
    if level.len() <= 1 {
        level[0]
    } else {
        fold_levels(level_up(level))
    }
}

/// The Merkle root of a non-empty ordered leaf set.
pub open spec fn merkle_root(leaves: Seq<Seq<u8>>) -> Seq<u8> {
    fold_levels(padded(leaves))
}

/// The byte views of a sequence of digests.
pub open spec fn digest_views(s: Seq<Hash32>) -> Seq<Seq<u8>> {
    s.map_values(|h: Hash32| h@)
}

/// The leaf digests of an ordered sequence of file contents.
pub open spec fn leaf_digests(files: Seq<Seq<u8>>) -> Seq<Seq<u8>> {
    files.map_values(|f: Seq<u8>| sha256_of(f))
}

/// The Merkle root of an ordered sequence of file contents.
pub open spec fn batch_root(files: Seq<Seq<u8>>) -> Seq<u8> {
    merkle_root(leaf_digests(files))
}

proof fn lemma_pow2_at_least(p: nat, n: nat)
    requires
        is_pow2(p),
    ensures
        is_pow2(pow2_at_least(p, n)),
        pow2_at_least(p, n) >= n,
        pow2_at_least(p, n) >= p,
    decreases (if p < n { n - p } else { 0 }),
{
    if p < n {
        assert(is_pow2(2 * p)) by {
            assert((2 * p) / 2 == p);
        }
        lemma_pow2_at_least(2 * p, n);
    }
}

proof fn lemma_pow2_halves(n: nat)
    requires
        is_pow2(n),
        n > 1,
    ensures
        n % 2 == 0,
        is_pow2(n / 2),
{
}

/// The root of a single leaf is that leaf's digest: at size one neither
/// padding nor pairing applies.
pub proof fn lemma_single_leaf_root(d: Seq<u8>)
    ensures
        merkle_root(seq![d]) == d,
{
    assert(padded_len(1) == 1);
    assert(padded(seq![d]) =~= seq![d]);
}

/// Building a root is deterministic: equal ordered sequences of file
/// contents give equal roots.
pub proof fn lemma_root_deterministic(a: Seq<Seq<u8>>, b: Seq<Seq<u8>>)
    requires
        a == b,
    ensures
        batch_root(a) == batch_root(b),
{
}

/// Two distinct byte strings with the same SHA-256 digest exist.
pub open spec fn sha256_collision_exists() -> bool {
    exists|x: Seq<u8>, y: Seq<u8>| x != y && sha256_of(x) == sha256_of(y)
}

/// Every SHA-256 digest is 32 bytes long.
pub open spec fn sha256_is_fixed_width() -> bool {
    forall|x: Seq<u8>| #[trigger] sha256_of(x).len() == 32
}

/// Whether every element of a level is 32 bytes long.
pub open spec fn all_32(level: Seq<Seq<u8>>) -> bool {
    forall|i: int| 0 <= i < level.len() ==> (#[trigger] level[i]).len() == 32
}

proof fn lemma_fold_collision(a: Seq<Seq<u8>>, b: Seq<Seq<u8>>)
    requires
        sha256_is_fixed_width(),
        a.len() == b.len(),
        is_pow2(a.len()),
        a != b,
        all_32(a),
        all_32(b),
        fold_levels(a) == fold_levels(b),
    ensures
        sha256_collision_exists(),
    decreases a.len(),
{
    if forall|k: int| 0 <= k < a.len() ==> a[k] == b[k] {
        assert(a =~= b);
    }
    let i = choose|i: int| 0 <= i < a.len() && a[i] != b[i];
    if a.len() == 1 {
        assert(fold_levels(a) == a[0]);
        assert(fold_levels(b) == b[0]);
    } else {
        lemma_pow2_halves(a.len());
        let ua = level_up(a);
        let ub = level_up(b);
        if ua == ub {
            let j = i / 2;
            let x = a[2 * j] + a[2 * j + 1];
            let y = b[2 * j] + b[2 * j + 1];
            assert(ua[j] == sha256_of(x));
            assert(ub[j] == sha256_of(y));
            if x == y {
                assert(x.subrange(0, 32) =~= a[2 * j]);
                assert(y.subrange(0, 32) =~= b[2 * j]);
                assert(x.subrange(32, 64) =~= a[2 * j + 1]);
                assert(y.subrange(32, 64) =~= b[2 * j + 1]);
                assert(i == 2 * j || i == 2 * j + 1);
            }
            assert(x != y && sha256_of(x) == sha256_of(y));
        } else {
            assert(all_32(ua));
            assert(all_32(ub));
            lemma_fold_collision(ua, ub);
        }
    }
}

/// Distinct batches of the same number of files have distinct roots, unless
/// SHA-256 has a collision: equal roots of two different ordered sequences
/// of file contents, equal in length, expose two distinct byte strings with
/// one digest. A change of any file's contents, or of the files' order, is
/// one such difference.
pub proof fn lemma_equal_roots_expose_collision(a: Seq<Seq<u8>>, b: Seq<Seq<u8>>)
    requires
        sha256_is_fixed_width(),
        a.len() == b.len(),
        a.len() > 0,
        a != b,
        batch_root(a) == batch_root(b),
    ensures
        sha256_collision_exists(),
{
    let la = leaf_digests(a);
    let lb = leaf_digests(b);
    if forall|k: int| 0 <= k < a.len() ==> a[k] == b[k] {
        assert(a =~= b);
    }
    let i = choose|i: int| 0 <= i < a.len() && a[i] != b[i];
    if la == lb {
        assert(la[i] == sha256_of(a[i]));
        assert(lb[i] == sha256_of(b[i]));
        assert(a[i] != b[i] && sha256_of(a[i]) == sha256_of(b[i]));
    } else {
        assert(all_32(la));
        assert(all_32(lb));
        lemma_equal_leaf_roots_expose_collision(la, lb);
    }
}

/// Distinct leaf sets of the same size have distinct roots, unless SHA-256
/// has a collision: equal roots of two different ordered sequences of
/// 32-byte leaf digests, equal in length, expose two distinct byte strings
/// with one digest. A leaf set and a different reordering of it are one such
/// pair.
pub proof fn lemma_equal_leaf_roots_expose_collision(a: Seq<Seq<u8>>, b: Seq<Seq<u8>>)
    requires
        sha256_is_fixed_width(),
        a.len() == b.len(),
        a.len() > 0,
        all_32(a),
        all_32(b),
        a != b,
        merkle_root(a) == merkle_root(b),
    ensures
        sha256_collision_exists(),
{
    let pa = padded(a);
    let pb = padded(b);
    lemma_pow2_at_least(1, a.len());
    if forall|k: int| 0 <= k < a.len() ==> a[k] == b[k] {
        assert(a =~= b);
    }
    let k = choose|k: int| 0 <= k < a.len() && a[k] != b[k];
    assert(pa[k] == a[k]);
    assert(pb[k] == b[k]);
    assert(zero_digest().len() == 32);
    assert(all_32(pa));
    assert(all_32(pb));
    lemma_fold_collision(pa, pb);
}

/// Swapping two different leaf digests changes the root, unless SHA-256 has
/// a collision.
pub proof fn lemma_leaf_swap_exposes_collision(a: Seq<Seq<u8>>, i: int, j: int)
    requires
        sha256_is_fixed_width(),
        all_32(a),
        0 <= i < a.len(),
        0 <= j < a.len(),
        a[i] != a[j],
        merkle_root(a) == merkle_root(a.update(i, a[j]).update(j, a[i])),
    ensures
        sha256_collision_exists(),
{
    let b = a.update(i, a[j]).update(j, a[i]);
    assert(b[j] == a[i]);
    assert(b != a);
    assert(all_32(b));
    lemma_equal_leaf_roots_expose_collision(a, b);
}

/// Swapping two files of different contents changes the root, unless
/// SHA-256 has a collision.
pub proof fn lemma_swap_exposes_collision(a: Seq<Seq<u8>>, i: int, j: int)
    requires
        sha256_is_fixed_width(),
        0 <= i < a.len(),
        0 <= j < a.len(),
        a[i] != a[j],
        batch_root(a) == batch_root(a.update(i, a[j]).update(j, a[i])),
    ensures
        sha256_collision_exists(),
{
    let b = a.update(i, a[j]).update(j, a[i]);
    assert(b[j] == a[i]);
    assert(b != a);
    lemma_equal_roots_expose_collision(a, b);
}

/// Errors of building a Merkle root.
#[derive(Debug, Clone, Copy, PartialEq, Eq)]
pub enum MerkleError {
    /// A root cannot be built over zero leaves.
    EmptyInput,
}

/// A Merkle tree of which only the root is kept.
#[derive(Debug, Clone)]
pub struct MerkleTree {
    root: Hash32,
    leaf_count: usize,
}

impl MerkleTree {
    /// The root digest.
    pub closed spec fn spec_root(&self) -> Seq<u8> {
        self.root@
    }

    /// The number of real leaves the tree was built from.
    pub closed spec fn spec_leaf_count(&self) -> nat {
        self.leaf_count as nat
    }

    /// Builds the tree over a non-empty leaf set: the leaves are padded at
    /// the end with all-zero digests to a power of two, then adjacent pairs
    /// are hashed level by level. The bound on the length holds of any
    /// vector of digests that fits in memory.
    pub fn new(leaf_hashes: Vec<Hash32>) -> (r: Self)
        requires
            leaf_hashes@.len() > 0,
            leaf_hashes@.len() <= usize::MAX / 2,
        ensures
            r.spec_root() == merkle_root(digest_views(leaf_hashes@)),
            r.spec_leaf_count() == leaf_hashes@.len(),
    {
        let leaf_count = leaf_hashes.len();
        let ghost target = merkle_root(digest_views(leaf_hashes@));
        let mut p: usize = 1;
        while p < leaf_count
            invariant
                1 <= p,
                leaf_count <= usize::MAX / 2,
                is_pow2(p as nat),
                pow2_at_least(p as nat, leaf_count as nat) == padded_len(leaf_count as nat),
            decreases usize::MAX - p,
        {
            p = p * 2;
        }
        proof {
            lemma_pow2_at_least(p as nat, leaf_count as nat);
        }
        let mut level = leaf_hashes;
        let ghost leaves = digest_views(level@);
        while level.len() < p
            invariant
                leaf_count <= level@.len() <= p,
                p == padded_len(leaf_count as nat),
                leaves.len() == leaf_count,
                forall|j: int| 0 <= j < leaf_count ==> (#[trigger] level@[j])@ == leaves[j],
                forall|j: int| leaf_count <= j < level@.len() ==> (#[trigger] level@[j])@ == zero_digest(),
            decreases p - level.len(),
        {
            let zero: Hash32 = [0u8; 32];
            assert(zero@ =~= zero_digest());
            level.push(zero);
        }
        assert(digest_views(level@) =~= padded(leaves));
        while level.len() > 1
            invariant
                is_pow2(level@.len() as nat),
                fold_levels(digest_views(level@)) == target,
            decreases level.len(),
        {
            proof {
                lemma_pow2_halves(level@.len() as nat);
            }
            let len = level.len();
            let half = len / 2;
            let mut next: Vec<Hash32> = Vec::with_capacity(half);
            let mut i: usize = 0;
            while i < half
                invariant
                    half == level@.len() / 2,
                    level@.len() == 2 * half,
                    level@.len() <= usize::MAX,
                    i <= half,
                    next@.len() == i,
                    forall|j: int| 0 <= j < i ==> (#[trigger] next@[j])@ == level_up(digest_views(level@))[j],
                decreases half - i,
            {
                let parent = hash_pair(&level[2 * i], &level[2 * i + 1]);
                assert(level_up(digest_views(level@))[i as int] == parent@);
                next.push(parent);
                i += 1;
            }
            assert(digest_views(next@) =~= level_up(digest_views(level@)));
            level = next;
        }
        let root = level[0];
        MerkleTree { root, leaf_count }
    }

    /// Builds the tree, or reports that the leaf set is empty.
    pub fn try_new(leaf_hashes: Vec<Hash32>) -> (r: Result<Self, MerkleError>)
        requires
            leaf_hashes@.len() <= usize::MAX / 2,
        ensures
            leaf_hashes@.len() == 0 <==> r == Err::<Self, MerkleError>(MerkleError::EmptyInput),
            r matches Ok(t) ==> t.spec_root() == merkle_root(digest_views(leaf_hashes@))
                && t.spec_leaf_count() == leaf_hashes@.len(),
    {
        if leaf_hashes.len() == 0 {
            Err(MerkleError::EmptyInput)
        } else {
            Ok(MerkleTree::new(leaf_hashes))
        }
    }

    /// The root digest.
    pub fn root(&self) -> (r: Hash32)
        ensures
            r@ == self.spec_root(),
    {
        self.root
    }

    /// The root as lowercase hexadecimal text without prefix.
    pub fn root_hex(&self) -> (r: String)
        ensures
            r@ == hex_text(self.spec_root()),
    {
        digest_to_hex(&self.root)
    }

    /// The number of real leaves, padding excluded.
    pub fn leaf_count(&self) -> (r: usize)
        ensures
            r == self.spec_leaf_count(),
    {
        self.leaf_count
    }
}

} // verus!
