use crypto::aead::AeadEncryptor;
use crypto::aes::KeySize;
use crypto::aes_gcm::AesGcm;
use crypto::digest::Digest;
use crypto::sha3::Sha3;
use openssl::derive::Deriver;
use openssl::ec::{EcGroup, EcKey};
use openssl::nid::Nid;
use openssl::pkey::{PKey, Private};
use openssl::symm::Cipher;
use wyrtap::errors::WyrError;
use wyrtap::pipeline::decrypt_wyr;

const PASSPHRASE: &[u8] = b"correct horse battery staple";

/// A fresh key pair on the curve whose public-key PEM is exactly 268 bytes,
/// as the container format requires.
fn keypair() -> (PKey<Private>, Vec<u8>) {
    let group = EcGroup::from_curve_name(Nid::SECP521R1).unwrap();
    let ec = EcKey::generate(&group).unwrap();
    let pkey = PKey::from_ec_key(ec).unwrap();
    let pub_pem = pkey.public_key_to_pem().unwrap();
    assert_eq!(pub_pem.len(), 268);
    (pkey, pub_pem)
}

fn encrypted_private_pem(key: &PKey<Private>, passphrase: &[u8]) -> Vec<u8> {
    key.private_key_to_pem_pkcs8_passphrase(Cipher::aes_256_cbc(), passphrase)
        .unwrap()
}

/// SHA3-256(ECDH(local, peer)) — the symmetric key both sides derive.
fn symmetric_key(local: &PKey<Private>, peer_pub_pem: &[u8]) -> [u8; 32] {
    let peer = PKey::public_key_from_pem(peer_pub_pem).unwrap();
    let mut deriver = Deriver::new(local).unwrap();
    deriver.set_peer(&peer).unwrap();
    let secret = deriver.derive_to_vec().unwrap();
    let mut hasher = Sha3::sha3_256();
    hasher.input(&secret);
    let mut key = [0u8; 32];
    hasher.result(&mut key);
    key
}

fn gcm_seal(key: &[u8; 32], iv: &[u8], plaintext: &[u8]) -> (Vec<u8>, [u8; 16]) {
    let mut gcm = AesGcm::new(KeySize::KeySize256, key, iv, &[]);
    let mut ciphertext = vec![0u8; plaintext.len()];
    let mut tag = [0u8; 16];
    gcm.encrypt(plaintext, &mut ciphertext, &mut tag);
    (ciphertext, tag)
}

/// 600 patterned bytes standing in for PCM frames (100 frames of 6 bytes).
fn pcm_payload() -> Vec<u8> {
    (0..600usize).map(|i| (i * 7 + 13) as u8).collect()
}

fn assemble(ciphertext: &[u8], pub_pem: &[u8], iv: &[u8], tag: &[u8]) -> Vec<u8> {
    let mut blob = Vec::new();
    blob.extend_from_slice(ciphertext);
    blob.extend_from_slice(pub_pem);
    blob.extend_from_slice(iv);
    blob.extend_from_slice(tag);
    blob
}

/// The happy-path setup: PCM P compressed to an xz stream, encrypted under
/// SHA3-256(ECDH(local, peer)) with a zero nonce, assembled into a container.
/// Returns the blob, the encrypted private-key PEM and P.
fn scenario_one() -> (Vec<u8>, Vec<u8>, Vec<u8>) {
    let (local_key, _) = keypair();
    let (_peer_key, peer_pub_pem) = keypair();
    let priv_pem = encrypted_private_pem(&local_key, PASSPHRASE);
    let pcm = pcm_payload();
    let compressed = lzma::compress(&pcm, 6).unwrap();
    let key = symmetric_key(&local_key, &peer_pub_pem);
    let iv = [0u8; 12];
    let (ciphertext, tag) = gcm_seal(&key, &iv, &compressed);
    let blob = assemble(&ciphertext, &peer_pub_pem, &iv, &tag);
    (blob, priv_pem, pcm)
}

#[test]
fn happy_path_recovers_pcm() {
    let (blob, priv_pem, pcm) = scenario_one();
    let out = decrypt_wyr(&blob, &priv_pem, PASSPHRASE).unwrap();
    assert_eq!(out, pcm);
}

#[test]
fn pcm_length_is_multiple_of_six() {
    let (blob, priv_pem, _) = scenario_one();
    let out = decrypt_wyr(&blob, &priv_pem, PASSPHRASE).unwrap();
    assert_eq!(out.len() % 6, 0);
}

#[test]
fn two_runs_are_byte_identical() {
    let (blob, priv_pem, _) = scenario_one();
    let first = decrypt_wyr(&blob, &priv_pem, PASSPHRASE).unwrap();
    let second = decrypt_wyr(&blob, &priv_pem, PASSPHRASE).unwrap();
    assert_eq!(first, second);
}

#[test]
fn short_blob_is_malformed_before_any_key_work() {
    let blob = vec![7u8; 295];
    let priv_pem = vec![0u8; 10];
    assert_eq!(
        decrypt_wyr(&blob, &priv_pem, PASSPHRASE),
        Err(WyrError::MalformedContainer)
    );
}

#[test]
fn corrupted_tag_fails_auth() {
    let (mut blob, priv_pem, _) = scenario_one();
    let last = blob.len() - 1;
    blob[last] ^= 0x01;
    assert_eq!(
        decrypt_wyr(&blob, &priv_pem, PASSPHRASE),
        Err(WyrError::AuthFailed)
    );
}

#[test]
fn corrupted_ciphertext_fails_auth() {
    let (mut blob, priv_pem, _) = scenario_one();
    blob[0] ^= 0x80;
    assert_eq!(
        decrypt_wyr(&blob, &priv_pem, PASSPHRASE),
        Err(WyrError::AuthFailed)
    );
}

#[test]
fn corrupted_iv_fails_auth() {
    let (mut blob, priv_pem, _) = scenario_one();
    let iv_byte = blob.len() - 28;
    blob[iv_byte] ^= 0x04;
    assert_eq!(
        decrypt_wyr(&blob, &priv_pem, PASSPHRASE),
        Err(WyrError::AuthFailed)
    );
}

#[test]
fn wrong_private_key_fails_auth() {
    let (blob, _, _) = scenario_one();
    let (other_key, _) = keypair();
    let other_pem = encrypted_private_pem(&other_key, PASSPHRASE);
    assert_eq!(
        decrypt_wyr(&blob, &other_pem, PASSPHRASE),
        Err(WyrError::AuthFailed)
    );
}

#[test]
fn wrong_passphrase_is_bad_private_key() {
    let (blob, _, _) = scenario_one();
    let (local_key, _) = keypair();
    let priv_pem = encrypted_private_pem(&local_key, b"A");
    assert_eq!(
        decrypt_wyr(&blob, &priv_pem, b"B"),
        Err(WyrError::BadPrivateKey)
    );
}

#[test]
fn nul_in_passphrase_is_bad_private_key() {
    let (blob, priv_pem, _) = scenario_one();
    assert_eq!(
        decrypt_wyr(&blob, &priv_pem, b"pass\0word"),
        Err(WyrError::BadPrivateKey)
    );
}

#[test]
fn garbage_public_key_region_is_rejected() {
    let (local_key, _) = keypair();
    let priv_pem = encrypted_private_pem(&local_key, PASSPHRASE);
    let junk_pem = vec![0xAAu8; 268];
    let blob = assemble(&[1, 2, 3], &junk_pem, &[0u8; 12], &[0u8; 16]);
    assert_eq!(
        decrypt_wyr(&blob, &priv_pem, PASSPHRASE),
        Err(WyrError::BadPublicKey)
    );
}

#[test]
fn curve_mismatch_is_ecdh_failure() {
    let (_, peer_pub_pem) = keypair();
    let group = EcGroup::from_curve_name(Nid::X9_62_PRIME256V1).unwrap();
    let ec = EcKey::generate(&group).unwrap();
    let p256_key = PKey::from_ec_key(ec).unwrap();
    let priv_pem = encrypted_private_pem(&p256_key, PASSPHRASE);
    let blob = assemble(&[], &peer_pub_pem, &[0u8; 12], &[0u8; 16]);
    assert_eq!(
        decrypt_wyr(&blob, &priv_pem, PASSPHRASE),
        Err(WyrError::EcdhFailure)
    );
}

#[test]
fn non_lzma_plaintext_fails_decompression() {
    let (local_key, _) = keypair();
    let (_peer_key, peer_pub_pem) = keypair();
    let priv_pem = encrypted_private_pem(&local_key, PASSPHRASE);
    let not_xz = pcm_payload();
    let key = symmetric_key(&local_key, &peer_pub_pem);
    let iv = [3u8; 12];
    let (ciphertext, tag) = gcm_seal(&key, &iv, &not_xz);
    let blob = assemble(&ciphertext, &peer_pub_pem, &iv, &tag);
    assert_eq!(
        decrypt_wyr(&blob, &priv_pem, PASSPHRASE),
        Err(WyrError::DecompressionError)
    );
}

#[test]
fn empty_ciphertext_authenticates_then_fails_decompression() {
    let (local_key, _) = keypair();
    let (_peer_key, peer_pub_pem) = keypair();
    let priv_pem = encrypted_private_pem(&local_key, PASSPHRASE);
    let key = symmetric_key(&local_key, &peer_pub_pem);
    let iv = [0u8; 12];
    let (ciphertext, tag) = gcm_seal(&key, &iv, &[]);
    assert!(ciphertext.is_empty());
    let blob = assemble(&ciphertext, &peer_pub_pem, &iv, &tag);
    assert_eq!(blob.len(), 296);
    assert_eq!(
        decrypt_wyr(&blob, &priv_pem, PASSPHRASE),
        Err(WyrError::DecompressionError)
    );
}

#[test]
fn empty_pcm_round_trips() {
    let (local_key, _) = keypair();
    let (_peer_key, peer_pub_pem) = keypair();
    let priv_pem = encrypted_private_pem(&local_key, PASSPHRASE);
    let compressed = lzma::compress(&[], 6).unwrap();
    let key = symmetric_key(&local_key, &peer_pub_pem);
    let iv = [9u8; 12];
    let (ciphertext, tag) = gcm_seal(&key, &iv, &compressed);
    let blob = assemble(&ciphertext, &peer_pub_pem, &iv, &tag);
    let out = decrypt_wyr(&blob, &priv_pem, PASSPHRASE).unwrap();
    assert!(out.is_empty());
}
