//! Conversions between the wire encodings of public keys and signatures and
//! the curve points that the `blst` crate works on.

use vstd::prelude::*;
use blst::min_pk::PublicKey;
use blst::min_pk::Signature;
use blst::BLST_ERROR;

verus! {

/// Length of a public key on the wire: a compressed point of the first group.
pub const PUBLIC_KEY_BYTES: usize = 48;

/// Length of a signature on the wire: a compressed point of the second group.
pub const SIGNATURE_BYTES: usize = 96;

/// A public key of `blst`: a point in affine form. Opaque here.
#[verifier::external_type_specification]
#[verifier::external_body]
pub struct ExPublicKey(PublicKey);

/// A signature of `blst`: a point in affine form. Opaque here.
#[verifier::external_type_specification]
#[verifier::external_body]
pub struct ExSignature(Signature);

/// The 48 bytes that `PublicKey::to_bytes` gives for a key: its compressed
/// encoding.
pub uninterp spec fn public_key_encoding(key: PublicKey) -> Seq<u8>;

/// The 96 bytes that `Signature::to_bytes` gives for a signature: its
/// compressed encoding.
pub uninterp spec fn signature_encoding(signature: Signature) -> Seq<u8>;

/// The status with which `PublicKey::key_validate` answers to `bytes`:
/// success where it returns a key, else the error that it returns.
pub uninterp spec fn key_validate_status(bytes: Seq<u8>) -> BLST_ERROR;

/// The status with which `Signature::from_bytes` answers to `bytes`: success
/// where it returns a signature, else the error that it returns.
pub uninterp spec fn signature_decode_status(bytes: Seq<u8>) -> BLST_ERROR;

/// Calls `PublicKey::key_validate` on 48 bytes, which decompresses the point
/// and rejects the point at infinity and points outside the group. The
/// contract names the status, and claims of a key that comes back that its
/// compressed encoding is the input: the decoder accepts one encoding per
/// point only, the one that the encoder writes.
#[verifier::external_body]
fn blst_key_validate(bytes: &[u8]) -> (decoded: Result<PublicKey, BLST_ERROR>)
    requires
        bytes@.len() == PUBLIC_KEY_BYTES,
    ensures
        match decoded {
            Ok(key) => key_validate_status(bytes@) is BLST_SUCCESS && public_key_encoding(key)
                == bytes@,
            Err(status) => status == key_validate_status(bytes@) && !(status is BLST_SUCCESS),
        },
{
    PublicKey::key_validate(bytes)
}

/// Calls `Signature::from_bytes` on 96 bytes, which decompresses the point
/// and checks that it is on the curve, not that it is in the group. The
/// contract names the status, and claims of a signature that comes back that
/// its compressed encoding is the input.
#[verifier::external_body]
fn blst_signature_from_bytes(bytes: &[u8]) -> (decoded: Result<Signature, BLST_ERROR>)
    requires
        bytes@.len() == SIGNATURE_BYTES,
    ensures
        match decoded {
            Ok(signature) => signature_decode_status(bytes@) is BLST_SUCCESS && signature_encoding(
                signature,
            ) == bytes@,
            Err(status) => status == signature_decode_status(bytes@) && !(status
                is BLST_SUCCESS),
        },
{
    Signature::from_bytes(bytes)
}

/// The status of decoding `bytes` as a public key on the wire: a bad encoding
/// where the length is not 48, else what the curve library says.
pub open spec fn public_key_status(bytes: Seq<u8>) -> BLST_ERROR {
    if bytes.len() != PUBLIC_KEY_BYTES {
        BLST_ERROR::BLST_BAD_ENCODING
    } else {
        key_validate_status(bytes)
    }
}

/// The status of decoding `bytes` as a signature on the wire: a bad encoding
/// where the length is not 96, else what the curve library says.
pub open spec fn signature_status(bytes: Seq<u8>) -> BLST_ERROR {
    if bytes.len() != SIGNATURE_BYTES {
        BLST_ERROR::BLST_BAD_ENCODING
    } else {
        signature_decode_status(bytes)
    }
}

/// Decodes and validates a public key from its wire encoding. Bytes of
/// another length than 48 are a bad encoding and never reach the curve
/// library. A key that comes back encodes to the bytes it was read from.
pub fn alloy_pubkey_to_blst(pubkey: &[u8]) -> (decoded: Result<PublicKey, BLST_ERROR>)
    ensures
        decoded is Ok <==> public_key_status(pubkey@) is BLST_SUCCESS,
        decoded matches Ok(key) ==> public_key_encoding(key) == pubkey@,
        decoded matches Err(status) ==> status == public_key_status(pubkey@),
        pubkey@.len() != PUBLIC_KEY_BYTES ==> decoded == Err::<PublicKey, BLST_ERROR>(
            BLST_ERROR::BLST_BAD_ENCODING,
        ),
{
    if pubkey.len() != PUBLIC_KEY_BYTES {
        return Err(BLST_ERROR::BLST_BAD_ENCODING);
    }
    blst_key_validate(pubkey)
}

/// Decodes a signature from its wire encoding. Bytes of another length than
/// 96 are a bad encoding and never reach the curve library. Whether the
/// point is in its group is left to the verification.
pub fn alloy_sig_to_blst(signature: &[u8]) -> (decoded: Result<Signature, BLST_ERROR>)
    ensures
        decoded is Ok <==> signature_status(signature@) is BLST_SUCCESS,
        decoded matches Ok(point) ==> signature_encoding(point) == signature@,
        decoded matches Err(status) ==> status == signature_status(signature@),
        signature@.len() != SIGNATURE_BYTES ==> decoded == Err::<Signature, BLST_ERROR>(
            BLST_ERROR::BLST_BAD_ENCODING,
        ),
{
    if signature.len() != SIGNATURE_BYTES {
        return Err(BLST_ERROR::BLST_BAD_ENCODING);
    }
    blst_signature_from_bytes(signature)
}

/// Calls `PublicKey::to_bytes`: the compressed encoding of the key, which
/// the contract names.
#[verifier::external_body]
pub fn blst_pubkey_to_alloy(pubkey: &PublicKey) -> (bytes: [u8; 48])
    ensures
        bytes@ == public_key_encoding(*pubkey),
{
    pubkey.to_bytes()
}

/// Decoding a public key and encoding it again gives the bytes back.
pub fn pubkey_round_trip(pubkey: &[u8]) -> (bytes: Option<[u8; 48]>)
    ensures
        bytes is Some <==> public_key_status(pubkey@) is BLST_SUCCESS,
        bytes matches Some(encoded) ==> encoded@ == pubkey@,
{
    match alloy_pubkey_to_blst(pubkey) {
        Ok(key) => Some(blst_pubkey_to_alloy(&key)),
        Err(_) => None,
    }
}

} // verus!
