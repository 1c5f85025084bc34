//! Fixed protocol constants.

use vstd::prelude::*;

verus! {

/// Domain-type mask of messages exchanged with block builders.
pub const APPLICATION_BUILDER_DOMAIN: [u8; 4] = [0, 0, 0, 1];

/// The genesis validators root that builder domains are derived with: all zero.
pub const EMPTY_GENESIS_VALIDATORS_ROOT: [u8; 32] = [
    0, 0, 0, 0, 0, 0, 0, 0, 0, 0, 0, 0, 0, 0, 0, 0, 0, 0, 0, 0, 0, 0, 0, 0, 0, 0, 0, 0, 0, 0, 0, 0,
];

/// Hash-to-curve tag of the signature scheme:
/// `BLS_SIG_BLS12381G2_XMD:SHA-256_SSWU_RO_POP_` in ASCII. It separates
/// signatures at the level of the curve and is unrelated to the signing
/// domain of the protocol.
pub const BLS_DST_SIG: [u8; 43] = [
    66, 76, 83, 95, 83, 73, 71, 95, 66, 76, 83, 49, 50, 51, 56, 49, 71, 50, 95, 88, 77, 68, 58,
    83, 72, 65, 45, 50, 53, 54, 95, 83, 83, 87, 85, 95, 82, 79, 95, 80, 79, 80, 95,
];

} // verus!
