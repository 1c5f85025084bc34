use blst::min_pk::SecretKey;
use blst::BLST_ERROR;
use builder_signing::chain::Chain;
use tree_hash::{MerkleHasher, TreeHash};
use builder_signing::constants::{
    APPLICATION_BUILDER_DOMAIN, BLS_DST_SIG, EMPTY_GENESIS_VALIDATORS_ROOT,
};
use builder_signing::error::{BlstErrorWrapper, ErrorKind};
use builder_signing::hashing::{
    full_field_leaves, hash_fork_data, hash_signing_data, short_field_leaves,
};
use builder_signing::response::{Version, VersionedResponse};
use builder_signing::signature::{
    assemble_domain, compute_domain, compute_signing_root, sign_builder_message,
    sign_builder_root, sign_message, verification_result, verify_bls_signature,
    verify_signed_message,
};
use builder_signing::utils::{
    alloy_pubkey_to_blst, alloy_sig_to_blst, blst_pubkey_to_alloy, pubkey_round_trip,
};

const MAINNET_DOMAIN: [u8; 32] = [
    0, 0, 0, 1, 245, 165, 253, 66, 209, 106, 32, 48, 39, 152, 239, 110, 211, 9, 151, 155, 67, 0,
    61, 35, 32, 217, 240, 232, 234, 152, 49, 169,
];

fn secret_key(seed: u8) -> SecretKey {
    SecretKey::key_gen(&[seed; 32], &[]).unwrap()
}

fn public_key_bytes(key: &SecretKey) -> [u8; 48] {
    key.sk_to_pk().to_bytes()
}

#[test]
fn test_builder_domains() {
    assert_eq!(
        compute_domain(Chain::Mainnet, APPLICATION_BUILDER_DOMAIN),
        Chain::Mainnet.builder_domain()
    );
    assert_eq!(
        compute_domain(Chain::Holesky, APPLICATION_BUILDER_DOMAIN),
        Chain::Holesky.builder_domain()
    );
    assert_eq!(
        compute_domain(Chain::Sepolia, APPLICATION_BUILDER_DOMAIN),
        Chain::Sepolia.builder_domain()
    );
    assert_eq!(
        compute_domain(Chain::Helder, APPLICATION_BUILDER_DOMAIN),
        Chain::Helder.builder_domain()
    );
}

#[test]
fn mainnet_builder_domain_is_the_published_value() {
    assert_eq!(Chain::Mainnet.genesis_fork_version(), [0, 0, 0, 0]);
    assert_eq!(APPLICATION_BUILDER_DOMAIN, [0, 0, 0, 1]);
    assert_eq!(compute_domain(Chain::Mainnet, APPLICATION_BUILDER_DOMAIN), MAINNET_DOMAIN);
}

#[test]
fn fork_versions_are_the_published_values() {
    assert_eq!(Chain::Holesky.genesis_fork_version(), [0x01, 0x01, 0x70, 0x00]);
    assert_eq!(Chain::Sepolia.genesis_fork_version(), [0x90, 0x00, 0x00, 0x69]);
    assert_eq!(Chain::Helder.genesis_fork_version(), [0x10, 0x00, 0x00, 0x00]);
}

#[test]
fn domain_starts_with_the_mask() {
    let mask = [9u8, 8, 7, 6];
    let domain = compute_domain(Chain::Sepolia, mask);
    assert_eq!(&domain[..4], &mask);
    assert_eq!(&domain[4..], &Chain::Sepolia.builder_domain()[4..]);
}

#[test]
fn empty_genesis_validators_root_is_zero() {
    assert_eq!(EMPTY_GENESIS_VALIDATORS_ROOT, [0u8; 32]);
}

#[test]
fn signature_tag_is_the_standard_string() {
    assert_eq!(&BLS_DST_SIG[..], &b"BLS_SIG_BLS12381G2_XMD:SHA-256_SSWU_RO_POP_"[..]);
}

#[test]
fn leaves_are_laid_out_in_chunks() {
    let second: [u8; 32] = core::array::from_fn(|i| i as u8);
    let short = short_field_leaves([1, 2, 3, 4], second);
    assert_eq!(&short[..4], &[1, 2, 3, 4]);
    assert_eq!(&short[4..32], &[0u8; 28]);
    assert_eq!(&short[32..], &second);
    let full = full_field_leaves([5u8; 32], second);
    assert_eq!(&full[..32], &[5u8; 32]);
    assert_eq!(&full[32..], &second);
}

#[test]
fn fork_data_root_has_the_expected_value() {
    let second: [u8; 32] = core::array::from_fn(|i| i as u8);
    assert_eq!(
        hash_fork_data([1, 2, 3, 4], second),
        [
            69, 137, 67, 195, 17, 30, 42, 148, 241, 140, 106, 166, 22, 143, 159, 10, 245, 38, 32,
            196, 64, 183, 81, 6, 81, 185, 252, 34, 195, 160, 55, 206
        ]
    );
    assert_eq!(
        hash_fork_data([0; 4], [0; 32]),
        [
            245, 165, 253, 66, 209, 106, 32, 48, 39, 152, 239, 110, 211, 9, 151, 155, 67, 0, 61,
            35, 32, 217, 240, 232, 234, 152, 49, 169, 39, 89, 251, 75
        ]
    );
}

fn container_root(first: &[u8], second: &[u8]) -> [u8; 32] {
    let mut hasher = MerkleHasher::with_leaves(2);
    hasher.write(first).unwrap();
    hasher.write(second).unwrap();
    hasher.finish().unwrap().0
}

#[test]
fn roots_are_those_of_two_field_containers() {
    let version = [1u8, 2, 3, 4];
    let genesis: [u8; 32] = core::array::from_fn(|i| 200 - i as u8);
    assert_eq!(
        hash_fork_data(version, genesis),
        container_root(
            version.tree_hash_root().as_slice(),
            genesis.tree_hash_root().as_slice()
        )
    );
    let object_root = [7u8; 32];
    assert_eq!(
        compute_signing_root(object_root, genesis),
        container_root(
            object_root.tree_hash_root().as_slice(),
            genesis.tree_hash_root().as_slice()
        )
    );
}

#[test]
fn assemble_domain_takes_28_bytes_of_the_root() {
    let root: [u8; 32] = core::array::from_fn(|i| 100 + i as u8);
    let domain = assemble_domain([1, 2, 3, 4], root);
    assert_eq!(&domain[..4], &[1, 2, 3, 4]);
    assert_eq!(&domain[4..], &root[..28]);
}

#[test]
fn signing_root_has_the_expected_value() {
    let expected = [
        23, 15, 75, 246, 127, 49, 17, 252, 69, 155, 246, 150, 82, 229, 222, 171, 233, 143, 13,
        201, 56, 47, 18, 133, 18, 90, 49, 174, 29, 111, 239, 4,
    ];
    assert_eq!(compute_signing_root([7u8; 32], MAINNET_DOMAIN), expected);
    assert_eq!(hash_signing_data([7u8; 32], MAINNET_DOMAIN), expected);
}

#[test]
fn signing_root_is_deterministic_and_sensitive() {
    let object_root = [7u8; 32];
    let root = compute_signing_root(object_root, MAINNET_DOMAIN);
    assert_eq!(root, compute_signing_root(object_root, MAINNET_DOMAIN));
    for index in [0usize, 13, 31] {
        let mut changed_root = object_root;
        changed_root[index] ^= 1;
        assert_ne!(root, compute_signing_root(changed_root, MAINNET_DOMAIN));
        let mut changed_domain = MAINNET_DOMAIN;
        changed_domain[index] ^= 0x80;
        assert_ne!(root, compute_signing_root(object_root, changed_domain));
    }
    assert_ne!(root, object_root);
    assert_ne!(root, MAINNET_DOMAIN);
}

#[test]
fn public_key_round_trip() {
    for seed in [1u8, 2, 200] {
        let bytes = public_key_bytes(&secret_key(seed));
        let key = alloy_pubkey_to_blst(&bytes).unwrap();
        assert_eq!(blst_pubkey_to_alloy(&key), bytes);
        assert_eq!(pubkey_round_trip(&bytes), Some(bytes));
    }
    assert_eq!(pubkey_round_trip(&[0u8; 48]), None);
}

#[test]
fn sign_then_verify_succeeds() {
    for seed in [3u8, 77] {
        let key = secret_key(seed);
        let public = public_key_bytes(&key);
        for message in [&b""[..], &b"hello"[..], &[0xffu8; 100][..]] {
            let signature = sign_message(&key, message);
            assert_eq!(verify_bls_signature(&public, message, &signature), Ok(()));
        }
    }
}

#[test]
fn sign_message_is_the_signature_of_the_curve_library() {
    let key = secret_key(5);
    let expected = key.sign(b"message", &BLS_DST_SIG, &[]).to_bytes();
    assert_eq!(sign_message(&key, b"message"), expected);
    assert_ne!(sign_message(&key, b"other"), expected);
}

#[test]
fn wrong_message_or_key_is_a_mismatch() {
    let key = secret_key(3);
    let public = public_key_bytes(&key);
    let signature = sign_message(&key, b"one");
    let result = verify_bls_signature(&public, b"two", &signature);
    assert_eq!(result, Err(BlstErrorWrapper::BlstVerifyFail));
    assert_eq!(result.unwrap_err().kind(), ErrorKind::CryptographicMismatch);
    let other = public_key_bytes(&secret_key(4));
    assert_eq!(
        verify_bls_signature(&other, b"one", &signature),
        Err(BlstErrorWrapper::BlstVerifyFail)
    );
}

#[test]
fn swapped_signature_is_a_mismatch() {
    let key = secret_key(3);
    let public = public_key_bytes(&key);
    let valid = sign_message(&key, b"one");
    let changed = sign_message(&key, b"two");
    assert_ne!(changed, valid);
    let result = verify_bls_signature(&public, b"one", &changed);
    assert_eq!(result.map_err(|e| e.kind()), Err(ErrorKind::CryptographicMismatch));
}

#[test]
fn flipped_signature_byte_never_verifies() {
    let key = secret_key(9);
    let public = public_key_bytes(&key);
    let signature = sign_message(&key, b"payload");
    for index in 0..96 {
        let mut changed = signature;
        changed[index] ^= 1;
        assert!(verify_bls_signature(&public, b"payload", &changed).is_err());
    }
}

#[test]
fn truncated_public_key_is_malformed() {
    let key = secret_key(3);
    let public = public_key_bytes(&key);
    let signature = sign_message(&key, b"one");
    assert_eq!(alloy_pubkey_to_blst(&public[..47]).err(), Some(BLST_ERROR::BLST_BAD_ENCODING));
    let result = verify_bls_signature(&public[..47], b"one", &signature);
    assert_eq!(result, Err(BlstErrorWrapper::BlstBadEncoding));
    assert_eq!(result.unwrap_err().kind(), ErrorKind::MalformedEncoding);
    assert_eq!(alloy_pubkey_to_blst(&[]).err(), Some(BLST_ERROR::BLST_BAD_ENCODING));
}

#[test]
fn signature_of_wrong_length_is_malformed() {
    let key = secret_key(3);
    let public = public_key_bytes(&key);
    let signature = sign_message(&key, b"one");
    assert_eq!(alloy_sig_to_blst(&signature[..95]).err(), Some(BLST_ERROR::BLST_BAD_ENCODING));
    assert_eq!(alloy_sig_to_blst(&[0u8; 192]).err(), Some(BLST_ERROR::BLST_BAD_ENCODING));
    assert_eq!(
        verify_bls_signature(&public, b"one", &signature[..95]),
        Err(BlstErrorWrapper::BlstBadEncoding)
    );
    assert!(alloy_sig_to_blst(&signature).is_ok());
}

#[test]
fn uncompressed_flag_is_malformed() {
    let mut public = public_key_bytes(&secret_key(3));
    public[0] &= 0x7f;
    assert_eq!(alloy_pubkey_to_blst(&public).err(), Some(BLST_ERROR::BLST_BAD_ENCODING));
}

#[test]
fn invalid_points_are_told_apart() {
    let mut infinity = [0u8; 48];
    infinity[0] = 0xc0;
    assert_eq!(alloy_pubkey_to_blst(&infinity).err(), Some(BLST_ERROR::BLST_PK_IS_INFINITY));
    let mut off_curve = [0u8; 48];
    off_curve[0] = 0x80;
    off_curve[47] = 1;
    assert_eq!(
        alloy_pubkey_to_blst(&off_curve).err(),
        Some(BLST_ERROR::BLST_POINT_NOT_ON_CURVE)
    );
    let mut small_order = [0u8; 48];
    small_order[0] = 0x80;
    assert_eq!(
        alloy_pubkey_to_blst(&small_order).err(),
        Some(BLST_ERROR::BLST_POINT_NOT_IN_GROUP)
    );
    let key = secret_key(3);
    let signature = sign_message(&key, b"one");
    for bytes in [infinity, off_curve, small_order] {
        let result = verify_bls_signature(&bytes, b"one", &signature);
        assert_eq!(result.map_err(|e| e.kind()), Err(ErrorKind::InvalidPoint));
    }
}

#[test]
fn key_failure_is_reported_before_signature_failure() {
    let result = verify_bls_signature(&[0xc0u8; 48][..47], b"one", &[0u8; 3]);
    assert_eq!(result, Err(BlstErrorWrapper::BlstBadEncoding));
    let mut infinity = [0u8; 48];
    infinity[0] = 0xc0;
    let result = verify_bls_signature(&infinity, b"one", &[0u8; 3]);
    assert_eq!(result, Err(BlstErrorWrapper::BlstPkIsInfinity));
}

#[test]
fn status_translation_table() {
    let table = [
        (BLST_ERROR::BLST_BAD_ENCODING, BlstErrorWrapper::BlstBadEncoding),
        (BLST_ERROR::BLST_POINT_NOT_ON_CURVE, BlstErrorWrapper::BlstPointNotOnCurve),
        (BLST_ERROR::BLST_POINT_NOT_IN_GROUP, BlstErrorWrapper::BlstPointNotInGroup),
        (BLST_ERROR::BLST_AGGR_TYPE_MISMATCH, BlstErrorWrapper::BlstAggrTypeMismatch),
        (BLST_ERROR::BLST_VERIFY_FAIL, BlstErrorWrapper::BlstVerifyFail),
        (BLST_ERROR::BLST_PK_IS_INFINITY, BlstErrorWrapper::BlstPkIsInfinity),
        (BLST_ERROR::BLST_BAD_SCALAR, BlstErrorWrapper::BlstBadScalar),
    ];
    for (status, error) in table {
        assert_eq!(BlstErrorWrapper::from_status(status), error);
        assert_eq!(verification_result(status), Err(error));
    }
    assert_eq!(verification_result(BLST_ERROR::BLST_SUCCESS), Ok(()));
}

#[test]
fn error_kinds() {
    assert_eq!(BlstErrorWrapper::BlstBadEncoding.kind(), ErrorKind::MalformedEncoding);
    assert_eq!(BlstErrorWrapper::BlstAggrTypeMismatch.kind(), ErrorKind::MalformedEncoding);
    assert_eq!(BlstErrorWrapper::BlstBadScalar.kind(), ErrorKind::MalformedEncoding);
    assert_eq!(BlstErrorWrapper::BlstPointNotOnCurve.kind(), ErrorKind::InvalidPoint);
    assert_eq!(BlstErrorWrapper::BlstPointNotInGroup.kind(), ErrorKind::InvalidPoint);
    assert_eq!(BlstErrorWrapper::BlstPkIsInfinity.kind(), ErrorKind::InvalidPoint);
    assert_eq!(BlstErrorWrapper::BlstVerifyFail.kind(), ErrorKind::CryptographicMismatch);
}

#[test]
fn verify_signed_message_is_the_composition() {
    let key = secret_key(11);
    let public = public_key_bytes(&key);
    let msg_root = [0x5au8; 32];
    let mask = APPLICATION_BUILDER_DOMAIN;
    for chain in [Chain::Mainnet, Chain::Holesky, Chain::Sepolia, Chain::Helder] {
        let signature = sign_builder_root(chain, &key, msg_root);
        let domain = compute_domain(chain, mask);
        let signing_root = compute_signing_root(msg_root, domain);
        let manual = verify_bls_signature(&public, &signing_root, &signature);
        let composed = verify_signed_message(chain, &public, msg_root, &signature, mask);
        assert_eq!(composed, manual);
        assert_eq!(composed, Ok(()));
        let other_root = [0x5bu8; 32];
        let other_manual = verify_bls_signature(
            &public,
            &compute_signing_root(other_root, domain),
            &signature,
        );
        let other = verify_signed_message(chain, &public, other_root, &signature, mask);
        assert_eq!(other, other_manual);
        assert_eq!(other, Err(BlstErrorWrapper::BlstVerifyFail));
    }
}

#[test]
fn signature_is_bound_to_chain_and_mask() {
    let key = secret_key(11);
    let public = public_key_bytes(&key);
    let msg_root = [1u8; 32];
    let signature = sign_builder_message(Chain::Mainnet, &key, msg_root);
    assert_eq!(
        verify_signed_message(
            Chain::Mainnet,
            &public,
            msg_root,
            &signature,
            APPLICATION_BUILDER_DOMAIN
        ),
        Ok(())
    );
    assert_eq!(
        verify_signed_message(
            Chain::Holesky,
            &public,
            msg_root,
            &signature,
            APPLICATION_BUILDER_DOMAIN
        ),
        Err(BlstErrorWrapper::BlstVerifyFail)
    );
    assert_eq!(
        verify_signed_message(Chain::Mainnet, &public, msg_root, &signature, [0, 0, 0, 2]),
        Err(BlstErrorWrapper::BlstVerifyFail)
    );
}

#[test]
fn builder_signatures_agree() {
    let key = secret_key(12);
    let root = [3u8; 32];
    let by_message = sign_builder_message(Chain::Helder, &key, root);
    let by_root = sign_builder_root(Chain::Helder, &key, root);
    assert_eq!(by_message, by_root);
    let signing_root = compute_signing_root(root, Chain::Helder.builder_domain());
    assert_eq!(by_root, sign_message(&key, &signing_root));
}

#[test]
fn version_defaults_to_deneb() {
    assert_eq!(Version::default(), Version::Deneb);
    assert_eq!(Version::Deneb.name(), "deneb");
    let response: VersionedResponse<u64> = VersionedResponse::default();
    assert_eq!(response.version, Version::Deneb);
    assert_eq!(response.data, 0);
}

#[test]
fn flipped_signature_byte_fails_by_kind() {
    let key = secret_key(9);
    let public = public_key_bytes(&key);
    let signature = sign_message(&key, b"payload");
    let mut still_a_point = signature;
    still_a_point[95] ^= 1;
    let result = verify_bls_signature(&public, b"payload", &still_a_point);
    assert_eq!(result, Err(BlstErrorWrapper::BlstVerifyFail));
    assert_eq!(result.unwrap_err().kind(), ErrorKind::CryptographicMismatch);
    let mut no_point = signature;
    no_point[94] ^= 1;
    let result = verify_bls_signature(&public, b"payload", &no_point);
    assert_eq!(result, Err(BlstErrorWrapper::BlstPointNotOnCurve));
    assert_eq!(result.unwrap_err().kind(), ErrorKind::InvalidPoint);
}
