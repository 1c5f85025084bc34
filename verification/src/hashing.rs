//! Structured hashing of the two fixed-shape records that signing needs.
//!
//! A record of two fields is hashed as two 32-byte leaves: a field of 32
//! bytes is its own leaf, a shorter one is followed by zero bytes. The root
//! of the two leaves comes from the `tree_hash` crate.

use vstd::prelude::*;

verus! {

/// The Merkle root that `tree_hash::merkle_root` computes of `bytes`, cut into
/// leaves of 32 bytes, with at least `minimum_leaf_count` leaves.
pub uninterp spec fn merkle_root_of(bytes: Seq<u8>, minimum_leaf_count: usize) -> Seq<u8>;

/// Calls `tree_hash::merkle_root`. The contract names the 32 bytes of the
/// root that it returns; it says nothing of their value. With at most two
/// leaves the call hashes at most once and cannot fail.
#[verifier::external_body]
fn merkle_root(bytes: &[u8], minimum_leaf_count: usize) -> (root: [u8; 32])
    requires
        bytes@.len() <= 64,
        minimum_leaf_count <= 2,
    ensures
        root@ == merkle_root_of(bytes@, minimum_leaf_count),
{
    tree_hash::merkle_root(bytes, minimum_leaf_count).0
}

/// `count` zero bytes.
pub open spec fn zeros(count: nat) -> Seq<u8> {
    Seq::new(count, |i: int| 0u8)
}

/// The two leaves of a record whose first field is `first`, of at most 32
/// bytes, and whose second is `second`, of 32 bytes.
pub open spec fn two_leaves(first: Seq<u8>, second: Seq<u8>) -> Seq<u8>
    recommends
        first.len() <= 32,
        second.len() == 32,
{
    first + zeros((32 - first.len()) as nat) + second
}

/// The root of the record of a fork version and a genesis validators root.
pub open spec fn fork_data_root(fork_version: Seq<u8>, genesis_validators_root: Seq<u8>) -> Seq<
    u8,
> {
    merkle_root_of(two_leaves(fork_version, genesis_validators_root), 2)
}

/// The root of the record of an object root and a signing domain.
pub open spec fn signing_data_root(object_root: Seq<u8>, signing_domain: Seq<u8>) -> Seq<u8> {
    merkle_root_of(two_leaves(object_root, signing_domain), 2)
}

/// Lays out the two leaves of a record of a 4-byte and a 32-byte field.
pub fn short_field_leaves(first: [u8; 4], second: [u8; 32]) -> (leaves: [u8; 64])
    ensures
        leaves@ == two_leaves(first@, second@),
{
    let mut leaves = [0u8; 64];
    let mut i: usize = 0;
    while i < 4
        invariant
            i <= 4,
            forall|k: int| 0 <= k < i ==> leaves@[k] == first@[k],
            forall|k: int| i <= k < 64 ==> leaves@[k] == 0u8,
        decreases 4 - i,
    {
        leaves[i] = first[i];
        i += 1;
    }
    let mut j: usize = 0;
    while j < 32
        invariant
            j <= 32,
            forall|k: int| 0 <= k < 4 ==> leaves@[k] == first@[k],
            forall|k: int| 4 <= k < 32 ==> leaves@[k] == 0u8,
            forall|k: int| 0 <= k < j ==> leaves@[32 + k] == second@[k],
        decreases 32 - j,
    {
        leaves[32 + j] = second[j];
        j += 1;
    }
    assert(leaves@ =~= two_leaves(first@, second@));
    leaves
}

/// Lays out the two leaves of a record of two 32-byte fields.
pub fn full_field_leaves(first: [u8; 32], second: [u8; 32]) -> (leaves: [u8; 64])
    ensures
        leaves@ == two_leaves(first@, second@),
        leaves@ == first@ + second@,
{
    let mut leaves = [0u8; 64];
    let mut i: usize = 0;
    while i < 32
        invariant
            i <= 32,
            forall|k: int| 0 <= k < i ==> leaves@[k] == first@[k],
            forall|k: int| 0 <= k < i ==> leaves@[32 + k] == second@[k],
        decreases 32 - i,
    {
        leaves[i] = first[i];
        leaves[32 + i] = second[i];
        i += 1;
    }
    assert(leaves@ =~= two_leaves(first@, second@));
    assert(leaves@ =~= first@ + second@);
    leaves
}

/// Hashes the record of a fork version and a genesis validators root.
pub fn hash_fork_data(fork_version: [u8; 4], genesis_validators_root: [u8; 32]) -> (root: [u8; 32])
    ensures
        root@ == fork_data_root(fork_version@, genesis_validators_root@),
{
    let leaves = short_field_leaves(fork_version, genesis_validators_root);
    merkle_root(leaves.as_slice(), 2)
}

/// Hashes the record of an object root and a signing domain.
pub fn hash_signing_data(object_root: [u8; 32], signing_domain: [u8; 32]) -> (root: [u8; 32])
    ensures
        root@ == signing_data_root(object_root@, signing_domain@),
{
    let leaves = full_field_leaves(object_root, signing_domain);
    merkle_root(leaves.as_slice(), 2)
}

} // verus!
