//! Signing domains, signing roots, and signatures over them.

use vstd::prelude::*;
use blst::min_pk::PublicKey;
use blst::min_pk::SecretKey;
use blst::min_pk::Signature;
use blst::BLST_ERROR;
use crate::chain::Chain;
use crate::constants::BLS_DST_SIG;
use crate::constants::EMPTY_GENESIS_VALIDATORS_ROOT;
use crate::error::BlstErrorWrapper;
use crate::error::ErrorKind;
use crate::hashing::fork_data_root;
use crate::hashing::hash_fork_data;
use crate::hashing::hash_signing_data;
use crate::hashing::signing_data_root;
use crate::utils::alloy_pubkey_to_blst;
use crate::utils::alloy_sig_to_blst;
use crate::utils::public_key_encoding;
use crate::utils::public_key_status;
use crate::utils::signature_encoding;
use crate::utils::signature_status;
use crate::utils::PUBLIC_KEY_BYTES;
use crate::utils::SIGNATURE_BYTES;

verus! {

/// A secret key of `blst`: a scalar. Opaque here.
#[verifier::external_type_specification]
#[verifier::external_body]
pub struct ExSecretKey(SecretKey);

pub type BlsSecretKey = SecretKey;

/// The 32 bytes that `SecretKey::to_bytes` gives for a key.
pub uninterp spec fn secret_key_encoding(key: SecretKey) -> Seq<u8>;

/// The compressed encoding of the signature that `SecretKey::sign` makes
/// with the key of encoding `secret_key` of `message`, under the
/// hash-to-curve tag `dst` and the augmentation `aug`.
pub uninterp spec fn signed_bytes(
    secret_key: Seq<u8>,
    message: Seq<u8>,
    dst: Seq<u8>,
    aug: Seq<u8>,
) -> Seq<u8>;

/// The status that `Signature::verify` returns for the signature of
/// compressed encoding `signature` and the key of compressed encoding
/// `public_key`, with the two checks switched as given.
pub uninterp spec fn verify_status(
    signature: Seq<u8>,
    signature_group_check: bool,
    message: Seq<u8>,
    dst: Seq<u8>,
    aug: Seq<u8>,
    public_key: Seq<u8>,
    public_key_validate: bool,
) -> BLST_ERROR;

/// Calls `SecretKey::sign`, which hashes the message to the curve and
/// multiplies by the key: the same key, message and tags give the same
/// signature. The contract names its encoding.
#[verifier::external_body]
fn blst_sign(key: &SecretKey, message: &[u8], dst: &[u8], aug: &[u8]) -> (signature: Signature)
    ensures
        signature_encoding(signature) == signed_bytes(
            secret_key_encoding(*key),
            message@,
            dst@,
            aug@,
        ),
{
    key.sign(message, dst, aug)
}

/// Calls `Signature::to_bytes`: the compressed encoding of the signature,
/// which the contract names.
#[verifier::external_body]
fn blst_signature_to_bytes(signature: &Signature) -> (bytes: [u8; 96])
    ensures
        bytes@ == signature_encoding(*signature),
{
    signature.to_bytes()
}

/// Calls `Signature::verify` for one message and one key. The contract names
/// the status that comes back, over the encodings of the two points; it
/// says nothing of when the status is success.
#[verifier::external_body]
fn blst_verify(
    signature: &Signature,
    signature_group_check: bool,
    message: &[u8],
    dst: &[u8],
    aug: &[u8],
    public_key: &PublicKey,
    public_key_validate: bool,
) -> (status: BLST_ERROR)
    ensures
        status == verify_status(
            signature_encoding(*signature),
            signature_group_check,
            message@,
            dst@,
            aug@,
            public_key_encoding(*public_key),
            public_key_validate,
        ),
{
    signature.verify(signature_group_check, message, dst, aug, public_key, public_key_validate)
}

/// What a status of the curve library means for a verification: success is
/// `Ok`, any other status the failure it stands for.
pub open spec fn outcome_of_status(status: BLST_ERROR) -> Result<(), BlstErrorWrapper> {
    if status is BLST_SUCCESS {
        Ok(())
    } else {
        Err(BlstErrorWrapper::of_status(status))
    }
}

/// The status of the pairing check of a decoded key and signature over
/// `message`, with both group checks on, the signature tag, and no
/// augmentation.
pub open spec fn pairing_status(public_key: Seq<u8>, message: Seq<u8>, signature: Seq<u8>)
    -> BLST_ERROR {
    verify_status(signature, true, message, BLS_DST_SIG@, Seq::<u8>::empty(), public_key, true)
}

/// The result of verifying `signature` over `message` against `public_key`,
/// all three as bytes. A key that does not decode decides first, then a
/// signature that does not decode; only when both decode is the pairing
/// checked.
pub open spec fn verification_outcome(public_key: Seq<u8>, message: Seq<u8>, signature: Seq<u8>)
    -> Result<(), BlstErrorWrapper> {
    if !(public_key_status(public_key) is BLST_SUCCESS) {
        Err(BlstErrorWrapper::of_status(public_key_status(public_key)))
    } else if !(signature_status(signature) is BLST_SUCCESS) {
        Err(BlstErrorWrapper::of_status(signature_status(signature)))
    } else {
        outcome_of_status(pairing_status(public_key, message, signature))
    }
}

/// The signing domain of a network for a domain-type mask: the mask, then
/// the first 28 bytes of the root of the network's fork version and the
/// empty genesis validators root.
pub open spec fn domain_of(chain: Chain, domain_mask: Seq<u8>) -> Seq<u8> {
    domain_mask + fork_data_root(chain.fork_version(), EMPTY_GENESIS_VALIDATORS_ROOT@).subrange(
        0,
        28,
    )
}

/// The bytes of the signature of `secret_key` over `message` under the
/// signature tag.
pub open spec fn message_signature(secret_key: Seq<u8>, message: Seq<u8>) -> Seq<u8> {
    signed_bytes(secret_key, message, BLS_DST_SIG@, Seq::<u8>::empty())
}

/// Turns the status of a pairing check into a result.
pub fn verification_result(status: BLST_ERROR) -> (result: Result<(), BlstErrorWrapper>)
    ensures
        result == outcome_of_status(status),
{
    match status {
        BLST_ERROR::BLST_SUCCESS => Ok(()),
        _ => Err(BlstErrorWrapper::from_status(status)),
    }
}

/// Verifies `signature` over `msg` against `pubkey`. Key and signature are
/// decoded first: bytes that do not decode give their own failure, and the
/// pairing is not computed. The result is `Ok` only when the pairing check
/// succeeds.
pub fn verify_bls_signature(pubkey: &[u8], msg: &[u8], signature: &[u8]) -> (result: Result<
    (),
    BlstErrorWrapper,
>)
    ensures
        result == verification_outcome(pubkey@, msg@, signature@),
{
    let pubkey = match alloy_pubkey_to_blst(pubkey) {
        Ok(key) => key,
        Err(status) => {
            return Err(BlstErrorWrapper::from_status(status));
        },
    };
    let signature = match alloy_sig_to_blst(signature) {
        Ok(point) => point,
        Err(status) => {
            return Err(BlstErrorWrapper::from_status(status));
        },
    };
    let aug: [u8; 0] = [];
    let status = blst_verify(
        &signature,
        true,
        msg,
        BLS_DST_SIG.as_slice(),
        aug.as_slice(),
        &pubkey,
        true,
    );
    assert(aug@ =~= Seq::<u8>::empty());
    verification_result(status)
}

/// Signs `msg` with `secret_key` under the signature tag, and returns the
/// signature in its wire encoding.
pub fn sign_message(secret_key: &BlsSecretKey, msg: &[u8]) -> (signature: [u8; 96])
    ensures
        signature@ == message_signature(secret_key_encoding(*secret_key), msg@),
{
    let aug: [u8; 0] = [];
    assert(aug@ =~= Seq::<u8>::empty());
    let signature = blst_sign(secret_key, msg, BLS_DST_SIG.as_slice(), aug.as_slice());
    blst_signature_to_bytes(&signature)
}

/// Binds the root of an object to a signing domain: the root of the record
/// of the two.
pub fn compute_signing_root(object_root: [u8; 32], signing_domain: [u8; 32]) -> (root: [u8; 32])
    ensures
        root@ == signing_data_root(object_root@, signing_domain@),
{
    hash_signing_data(object_root, signing_domain)
}

/// Puts a domain together from a mask and the root of the fork data: the
/// mask, then the first 28 bytes of the root.
pub fn assemble_domain(domain_mask: [u8; 4], fork_data_root: [u8; 32]) -> (domain: [u8; 32])
    ensures
        domain@ == domain_mask@ + fork_data_root@.subrange(0, 28),
{
    let mut domain = [0u8; 32];
    let mut i: usize = 0;
    while i < 4
        invariant
            i <= 4,
            forall|k: int| 0 <= k < i ==> domain@[k] == domain_mask@[k],
        decreases 4 - i,
    {
        domain[i] = domain_mask[i];
        i += 1;
    }
    let mut j: usize = 0;
    while j < 28
        invariant
            j <= 28,
            forall|k: int| 0 <= k < 4 ==> domain@[k] == domain_mask@[k],
            forall|k: int| 0 <= k < j ==> domain@[4 + k] == fork_data_root@[k],
        decreases 28 - j,
    {
        domain[4 + j] = fork_data_root[j];
        j += 1;
    }
    assert(domain@ =~= domain_mask@ + fork_data_root@.subrange(0, 28));
    domain
}

/// The signing domain of `chain` for `domain_mask`. It is derived with the
/// empty genesis validators root, so it is the right domain only for
/// message types whose domain does not depend on the true root, as those
/// of builders.
pub fn compute_domain(chain: Chain, domain_mask: [u8; 4]) -> (domain: [u8; 32])
    ensures
        domain@ == domain_of(chain, domain_mask@),
        domain@.subrange(0, 4) == domain_mask@,
{
    let fork_version = chain.genesis_fork_version();
    let fork_data_root = hash_fork_data(fork_version, EMPTY_GENESIS_VALIDATORS_ROOT);
    let domain = assemble_domain(domain_mask, fork_data_root);
    assert(domain@.subrange(0, 4) =~= domain_mask@);
    domain
}

/// Verifies `signature` over a message of root `msg_root`, in the domain of
/// `chain` for `domain_mask`: the domain, then the signing root of the
/// message in it, then the verification of the signature over that root.
pub fn verify_signed_message(
    chain: Chain,
    pubkey: &[u8],
    msg_root: [u8; 32],
    signature: &[u8],
    domain_mask: [u8; 4],
) -> (result: Result<(), BlstErrorWrapper>)
    ensures
        result == verification_outcome(
            pubkey@,
            signing_data_root(msg_root@, domain_of(chain, domain_mask@)),
            signature@,
        ),
{
    let domain = compute_domain(chain, domain_mask);
    let signing_root = compute_signing_root(msg_root, domain);
    verify_bls_signature(pubkey, signing_root.as_slice(), signature)
}

/// Signs a builder message of root `msg_root` for `chain`.
pub fn sign_builder_message(chain: Chain, secret_key: &BlsSecretKey, msg_root: [u8; 32]) -> (signature:
    [u8; 96])
    ensures
        signature@ == message_signature(
            secret_key_encoding(*secret_key),
            signing_data_root(msg_root@, chain.recorded_builder_domain()),
        ),
{
    sign_builder_root(chain, secret_key, msg_root)
}

/// Signs an object root for `chain` in its recorded builder domain: the
/// signature over the signing root of the two.
pub fn sign_builder_root(chain: Chain, secret_key: &BlsSecretKey, object_root: [u8; 32]) -> (signature:
    [u8; 96])
    ensures
        signature@ == message_signature(
            secret_key_encoding(*secret_key),
            signing_data_root(object_root@, chain.recorded_builder_domain()),
        ),
{
    let domain = chain.builder_domain();
    let signing_root = compute_signing_root(object_root, domain);
    sign_message(secret_key, signing_root.as_slice())
}

/// The signing root depends on the object root and the domain alone: equal
/// inputs have equal signing roots.
pub proof fn lemma_signing_root_is_a_function(
    object_root: Seq<u8>,
    signing_domain: Seq<u8>,
    other_root: Seq<u8>,
    other_domain: Seq<u8>,
)
    requires
        object_root == other_root,
        signing_domain == other_domain,
    ensures
        signing_data_root(object_root, signing_domain) == signing_data_root(
            other_root,
            other_domain,
        ),
{
}

/// A public key of another length than 48 bytes, such as one cut short by a
/// byte, is rejected as a malformed encoding, whatever the message and the
/// signature are.
pub proof fn lemma_key_of_wrong_length_is_malformed(
    public_key: Seq<u8>,
    message: Seq<u8>,
    signature: Seq<u8>,
)
    requires
        public_key.len() != PUBLIC_KEY_BYTES,
    ensures
        verification_outcome(public_key, message, signature) == Err::<(), BlstErrorWrapper>(
            BlstErrorWrapper::BlstBadEncoding,
        ),
        BlstErrorWrapper::BlstBadEncoding.kind_spec() == ErrorKind::MalformedEncoding,
{
}

/// Under a public key that decodes, a signature of another length than 96
/// bytes is rejected as a malformed encoding.
pub proof fn lemma_signature_of_wrong_length_is_malformed(
    public_key: Seq<u8>,
    message: Seq<u8>,
    signature: Seq<u8>,
)
    requires
        public_key_status(public_key) is BLST_SUCCESS,
        signature.len() != SIGNATURE_BYTES,
    ensures
        verification_outcome(public_key, message, signature) == Err::<(), BlstErrorWrapper>(
            BlstErrorWrapper::BlstBadEncoding,
        ),
{
}

/// Once key and signature decode, the pairing check alone decides: the
/// verification succeeds exactly when its status is success, and a status
/// of failed verification is reported as a cryptographic mismatch.
pub proof fn lemma_pairing_decides_once_decoded(
    public_key: Seq<u8>,
    message: Seq<u8>,
    signature: Seq<u8>,
)
    requires
        public_key_status(public_key) is BLST_SUCCESS,
        signature_status(signature) is BLST_SUCCESS,
    ensures
        verification_outcome(public_key, message, signature) is Ok <==> pairing_status(
            public_key,
            message,
            signature,
        ) is BLST_SUCCESS,
        pairing_status(public_key, message, signature) is BLST_VERIFY_FAIL ==> (
        verification_outcome(public_key, message, signature) matches Err(error)
            && error.kind_spec() == ErrorKind::CryptographicMismatch),
{
}

/// A verification succeeds only if the key decodes, the signature decodes,
/// and the pairing check succeeds.
pub proof fn lemma_success_needs_all_three(
    public_key: Seq<u8>,
    message: Seq<u8>,
    signature: Seq<u8>,
)
    ensures
        verification_outcome(public_key, message, signature) is Ok <==> (public_key_status(
            public_key,
        ) is BLST_SUCCESS && signature_status(signature) is BLST_SUCCESS && pairing_status(
            public_key,
            message,
            signature,
        ) is BLST_SUCCESS),
{
}

} // verus!
