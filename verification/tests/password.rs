use organizator::errors::OrganizatorError;
use organizator::models::Login;
use organizator::password::{
    compute_new_password, derive_hash, generate_key, verify_password, CREDENTIAL_LEN,
    PBKDF2_ITERATIONS,
};

fn record(salt: Vec<u8>, pbkdf2: Vec<u8>) -> Login {
    Login { id: 7, username: Some(String::from("alice")), salt, pbkdf2 }
}

fn reference_hash(password: &str, salt: &[u8]) -> Vec<u8> {
    let mut out = vec![0u8; 64];
    ring::pbkdf2::derive(
        ring::pbkdf2::PBKDF2_HMAC_SHA512,
        std::num::NonZeroU32::new(100_000).unwrap(),
        salt,
        password.as_bytes(),
        &mut out,
    );
    out
}

#[test]
fn credential_length_is_the_digest_length() {
    assert_eq!(CREDENTIAL_LEN, ring::digest::SHA512_OUTPUT_LEN);
    assert_eq!(CREDENTIAL_LEN, 64);
    assert_eq!(PBKDF2_ITERATIONS, 100_000);
}

#[test]
fn new_credential_verifies_its_password() {
    for password in ["", "secret", "pässwörd with spaces", "\u{1F511}"] {
        let mut salt: Vec<u8> = Vec::new();
        let mut hash: Vec<u8> = Vec::new();
        assert_eq!(compute_new_password(password, &mut salt, &mut hash), Ok(()));
        assert_eq!(salt.len(), 64);
        assert_eq!(hash.len(), 64);
        assert!(verify_password(password, &record(salt, hash)));
    }
}

#[test]
fn new_credential_refuses_another_password() {
    let mut salt: Vec<u8> = Vec::new();
    let mut hash: Vec<u8> = Vec::new();
    compute_new_password("secret", &mut salt, &mut hash).unwrap();
    let login = record(salt, hash);
    assert!(!verify_password("Secret", &login));
    assert!(!verify_password("secret ", &login));
    assert!(!verify_password("", &login));
}

#[test]
fn new_credential_replaces_both_buffers() {
    let mut salt: Vec<u8> = vec![1, 2, 3];
    let mut hash: Vec<u8> = vec![9; 200];
    compute_new_password("secret", &mut salt, &mut hash).unwrap();
    assert_eq!(salt.len(), 64);
    assert_eq!(hash.len(), 64);
    assert_eq!(hash, reference_hash("secret", &salt));
}

#[test]
fn salts_are_drawn_anew() {
    let mut first_salt: Vec<u8> = Vec::new();
    let mut first_hash: Vec<u8> = Vec::new();
    let mut second_salt: Vec<u8> = Vec::new();
    let mut second_hash: Vec<u8> = Vec::new();
    compute_new_password("secret", &mut first_salt, &mut first_hash).unwrap();
    compute_new_password("secret", &mut second_salt, &mut second_hash).unwrap();
    assert_ne!(first_salt, vec![0u8; 64]);
    assert_ne!(first_salt, second_salt);
    assert_ne!(first_hash, second_hash);
}

#[test]
fn derived_hash_is_pbkdf2_hmac_sha512() {
    let salt: Vec<u8> = (0u8..64).collect();
    let mut hash: Vec<u8> = Vec::new();
    assert_eq!(derive_hash("secret", &salt, &mut hash), Ok(()));
    assert_eq!(hash, reference_hash("secret", &salt));
    assert_ne!(hash, vec![0u8; 64]);
    assert!(verify_password("secret", &record(salt, hash)));
}

#[test]
fn derive_hash_refuses_a_salt_of_the_wrong_length() {
    let mut hash: Vec<u8> = vec![5, 6];
    assert_eq!(derive_hash("secret", &vec![0u8; 63], &mut hash), Err(OrganizatorError::BadRequest));
    assert_eq!(derive_hash("secret", &vec![0u8; 65], &mut hash), Err(OrganizatorError::BadRequest));
    assert_eq!(derive_hash("secret", &Vec::new(), &mut hash), Err(OrganizatorError::BadRequest));
    assert_eq!(hash, vec![5, 6]);
}

#[test]
fn verify_against_a_stored_credential() {
    let salt: Vec<u8> = vec![0xA5; 64];
    let hash = reference_hash("correct horse", &salt);
    let login = record(salt, hash);
    assert!(verify_password("correct horse", &login));
    assert!(!verify_password("correct horse battery", &login));
}

#[test]
fn corrupt_records_match_no_password() {
    let salt: Vec<u8> = vec![0xA5; 64];
    let hash = reference_hash("secret", &salt);

    let mut short_hash = hash.clone();
    short_hash.truncate(32);
    assert!(!verify_password("secret", &record(salt.clone(), short_hash)));

    let mut long_hash = hash.clone();
    long_hash.push(0);
    assert!(!verify_password("secret", &record(salt.clone(), long_hash)));

    assert!(!verify_password("secret", &record(salt.clone(), Vec::new())));
    assert!(!verify_password("secret", &record(Vec::new(), hash.clone())));

    let short_salt: Vec<u8> = vec![0xA5; 16];
    let hash_of_short_salt = reference_hash("secret", &short_salt);
    assert!(!verify_password("secret", &record(short_salt, hash_of_short_salt)));
}

#[test]
fn well_formed_records() {
    assert!(record(vec![0; 64], vec![0; 64]).is_well_formed());
    assert!(!record(vec![0; 63], vec![0; 64]).is_well_formed());
    assert!(!record(vec![0; 64], vec![0; 65]).is_well_formed());
    assert!(!record(Vec::new(), Vec::new()).is_well_formed());
}

#[test]
fn flipped_bit_is_refused() {
    let salt: Vec<u8> = vec![3; 64];
    let mut hash = reference_hash("secret", &salt);
    hash[63] ^= 1;
    assert!(!verify_password("secret", &record(salt, hash)));
}

#[test]
fn session_key_is_random() {
    let mut first = [0u8; 32];
    let mut second = [0u8; 32];
    assert_eq!(generate_key(&mut first), Ok(()));
    assert_eq!(generate_key(&mut second), Ok(()));
    assert_ne!(first, [0u8; 32]);
    assert_ne!(first, second);
}
