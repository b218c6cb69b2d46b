//! Salted password hashes: PBKDF2 with HMAC-SHA-512.

use vstd::prelude::*;
use vstd::string::StringSliceAdditionalSpecFns;

use crate::errors::OrganizatorError;
use crate::models::Login;

verus! {

/// Length in bytes of a salt and of a password hash: the output length of
/// SHA-512.
pub const CREDENTIAL_LEN: usize = 64;

/// Number of PBKDF2 rounds of every credential.
pub const PBKDF2_ITERATIONS: u32 = 100_000;

/// Longest secret, in bytes, that the key derivation takes: it hashes a
/// longer one, and eight times the length must fit in 64 bits.
pub const PBKDF2_MAX_SECRET_LEN: u64 = 0x1fff_ffff_ffff_ffff;

/// Longest salt, in bytes, that the key derivation takes: the salt is
/// hashed behind a block of 128 bytes and before a counter of 4 bytes,
/// and eight times the length of all of it must fit in 64 bits.
pub const PBKDF2_MAX_SALT_LEN: u64 = 0x1fff_ffff_ffff_ff7b;

/// Longest key, in bytes, that the key derivation gives: blocks of 64
/// bytes, counted in 32 bits from one.
pub const PBKDF2_MAX_KEY_LEN: u64 = 0x3f_ffff_ffc0;

/// Longest password, in bytes, that can be hashed: the longest secret
/// that the key derivation takes. No text that a machine holds today
/// comes near it.
pub const MAX_PASSWORD_LEN: u64 = PBKDF2_MAX_SECRET_LEN;

#[verifier::external_type_specification]
#[verifier::external_body]
pub struct ExUnspecified(ring::error::Unspecified);

#[verifier::external_type_specification]
#[verifier::external_body]
pub struct ExSystemRandom(ring::rand::SystemRandom);

/// The key of `len` bytes that PBKDF2 with HMAC-SHA-512 derives from
/// `secret` under `salt` in `iterations` rounds.
pub uninterp spec fn pbkdf2_hmac_sha512(
    iterations: u32,
    salt: Seq<u8>,
    secret: Seq<u8>,
    len: nat,
) -> Seq<u8>;

/// `ring::pbkdf2::derive` with `PBKDF2_HMAC_SHA512`: overwrites `out` with
/// the derived key of that length. The bounds are those beyond which the
/// call panics.
#[verifier::external_body]
fn pbkdf2_derive(iterations: u32, salt: &[u8], secret: &[u8], out: &mut [u8])
    requires
        iterations > 0,
        salt@.len() <= PBKDF2_MAX_SALT_LEN,
        secret@.len() <= PBKDF2_MAX_SECRET_LEN,
        old(out)@.len() <= PBKDF2_MAX_KEY_LEN,
    ensures
        final(out)@.len() == old(out)@.len(),
        final(out)@ == pbkdf2_hmac_sha512(iterations, salt@, secret@, old(out)@.len()),
{
    let rounds = std::num::NonZeroU32::new(iterations).unwrap();
    ring::pbkdf2::derive(ring::pbkdf2::PBKDF2_HMAC_SHA512, rounds, salt, secret, out)
}

/// `ring::pbkdf2::verify` with `PBKDF2_HMAC_SHA512`: succeeds exactly when
/// `previously_derived` is not empty and equals the key of its length
/// derived from the other arguments.
#[verifier::external_body]
fn pbkdf2_verify(
    iterations: u32,
    salt: &[u8],
    secret: &[u8],
    previously_derived: &[u8],
) -> (r: Result<(), ring::error::Unspecified>)
    requires
        iterations > 0,
        salt@.len() <= PBKDF2_MAX_SALT_LEN,
        secret@.len() <= PBKDF2_MAX_SECRET_LEN,
        previously_derived@.len() <= PBKDF2_MAX_KEY_LEN,
    ensures
        r.is_ok() == (previously_derived@.len() > 0 && pbkdf2_hmac_sha512(
            iterations,
            salt@,
            secret@,
            previously_derived@.len(),
        ) == previously_derived@),
{
    let rounds = std::num::NonZeroU32::new(iterations).unwrap();
    ring::pbkdf2::verify(
        ring::pbkdf2::PBKDF2_HMAC_SHA512,
        rounds,
        salt,
        secret,
        previously_derived,
    )
}

/// `ring::rand::SystemRandom::new`: a handle on the system's generator.
pub assume_specification[ ring::rand::SystemRandom::new ]() -> (rng: ring::rand::SystemRandom)
;

/// `ring::rand::SecureRandom::fill`: overwrites `dest` with random bytes,
/// or fails; the length of `dest` stays.
#[verifier::external_body]
pub(crate) fn fill_random(
    rng: &ring::rand::SystemRandom,
    dest: &mut [u8],
) -> (r: Result<(), ring::error::Unspecified>)
    ensures
        final(dest)@.len() == old(dest)@.len(),
{
    ring::rand::SecureRandom::fill(rng, dest)
}

/// The bytes of a password as they are hashed.
pub open spec fn password_bytes(password: Seq<char>) -> Seq<u8> {
    vstd::utf8::encode_utf8(password)
}

/// The hash that belongs to a password under a salt.
pub open spec fn derived_hash(password: Seq<char>, salt: Seq<u8>) -> Seq<u8> {
    pbkdf2_hmac_sha512(PBKDF2_ITERATIONS, salt, password_bytes(password), CREDENTIAL_LEN as nat)
}

/// A salt and a hash of the required length, of which the hash is the one
/// derived from the password under the salt.
pub open spec fn is_credential_of(password: Seq<char>, salt: Seq<u8>, hash: Seq<u8>) -> bool {
    &&& password_bytes(password).len() <= MAX_PASSWORD_LEN
    &&& salt.len() == CREDENTIAL_LEN
    &&& hash.len() == CREDENTIAL_LEN
    &&& hash == derived_hash(password, salt)
}

/// When a password is accepted for a stored salt and hash: both have the
/// required length, and the hash derived from the password under the
/// salt is the stored one.
pub open spec fn password_matches(password: Seq<char>, salt: Seq<u8>, hash: Seq<u8>) -> bool {
    &&& password_bytes(password).len() <= MAX_PASSWORD_LEN
    &&& salt.len() == CREDENTIAL_LEN
    &&& hash.len() == CREDENTIAL_LEN
    &&& derived_hash(password, salt) == hash
}

impl Login {
    /// Salt and hash both have the required length.
    pub open spec fn well_formed(&self) -> bool {
        self.salt@.len() == CREDENTIAL_LEN && self.pbkdf2@.len() == CREDENTIAL_LEN
    }

    /// Whether the record can hold a credential at all. One that cannot
    /// is corrupt: nothing is compared against it.
    pub fn is_well_formed(&self) -> (ok: bool)
        ensures
            ok == self.well_formed(),
    {
        self.salt.len() == CREDENTIAL_LEN && self.pbkdf2.len() == CREDENTIAL_LEN
    }
}

/// Checks a password against a stored credential. A wrong password is an
/// answer, not a failure; a record whose salt or hash has the wrong
/// length matches no password, and a password too long to be hashed
/// matches no record.
pub fn verify_password(password: &str, login: &Login) -> (ok: bool)
    ensures
        ok == password_matches(password@, login.salt@, login.pbkdf2@),
{
    let secret = password.as_bytes();
    if secret.len() as u64 > MAX_PASSWORD_LEN || !login.is_well_formed() {
        return false;
    }
    let should_succeed = pbkdf2_verify(
        PBKDF2_ITERATIONS,
        login.salt.as_slice(),
        secret,
        login.pbkdf2.as_slice(),
    );
    should_succeed.is_ok()
}

/// Fills the session signing key with random bytes.
pub fn generate_key(key: &mut [u8; 32]) -> (r: Result<(), OrganizatorError>)
    ensures
        r is Err ==> r == Err::<(), OrganizatorError>(OrganizatorError::Internal),
{
    let rng = ring::rand::SystemRandom::new();
    match fill_random(&rng, vstd::array::ref_mut_array_unsizing_coercion(key)) {
        Ok(()) => Ok(()),
        Err(unspecified) => Err(OrganizatorError::from(unspecified)),
    }
}

/// Derives the hash of `password` under `salt` into `pbkdf2_hash`, which
/// is replaced as a whole. A salt of the wrong length or a password that
/// is too long is refused, and `pbkdf2_hash` stays as it was.
pub fn derive_hash(password: &str, salt: &Vec<u8>, pbkdf2_hash: &mut Vec<u8>) -> (r: Result<
    (),
    OrganizatorError,
>)
    ensures
        r is Ok <==> salt@.len() == CREDENTIAL_LEN && password_bytes(password@).len()
            <= MAX_PASSWORD_LEN,
        r is Ok ==> is_credential_of(password@, salt@, final(pbkdf2_hash)@),
        r is Err ==> r == Err::<(), OrganizatorError>(OrganizatorError::BadRequest)
            && final(pbkdf2_hash)@ == old(pbkdf2_hash)@,
{
    let secret = password.as_bytes();
    if secret.len() as u64 > MAX_PASSWORD_LEN || salt.len() != CREDENTIAL_LEN {
        return Err(OrganizatorError::BadRequest);
    }
    pbkdf2_hash.clear();
    pbkdf2_hash.resize(CREDENTIAL_LEN, 0u8);
    pbkdf2_derive(PBKDF2_ITERATIONS, salt.as_slice(), secret, pbkdf2_hash.as_mut_slice());
    Ok(())
}

/// Makes a new credential for `password`: a fresh random salt of the
/// required length and the hash derived under it. Both buffers are
/// replaced together, or neither is touched. A password that is too long
/// is refused before anything is drawn; otherwise only the random source
/// can fail.
pub fn compute_new_password(password: &str, salt: &mut Vec<u8>, pbkdf2_hash: &mut Vec<u8>) -> (r:
    Result<(), OrganizatorError>)
    ensures
        r is Ok ==> is_credential_of(password@, final(salt)@, final(pbkdf2_hash)@),
        r is Err ==> final(salt)@ == old(salt)@ && final(pbkdf2_hash)@ == old(pbkdf2_hash)@,
        password_bytes(password@).len() > MAX_PASSWORD_LEN <==> r == Err::<(), OrganizatorError>(
            OrganizatorError::BadRequest,
        ),
        r is Err ==> r == Err::<(), OrganizatorError>(OrganizatorError::BadRequest) || r == Err::<
            (),
            OrganizatorError,
        >(OrganizatorError::Internal),
{
    if password.as_bytes().len() as u64 > MAX_PASSWORD_LEN {
        return Err(OrganizatorError::BadRequest);
    }
    let mut fresh: Vec<u8> = Vec::new();
    fresh.resize(CREDENTIAL_LEN, 0u8);
    let rng = ring::rand::SystemRandom::new();
    match fill_random(&rng, fresh.as_mut_slice()) {
        Ok(()) => {
            let derived = derive_hash(password, &fresh, pbkdf2_hash);
            *salt = fresh;
            derived
        },
        Err(unspecified) => Err(OrganizatorError::from(unspecified)),
    }
}

/// A credential made for a password accepts that password: whatever
/// salt was drawn, checking the password against the salt and the hash
/// derived under it succeeds.
pub proof fn lemma_new_credential_verifies(password: Seq<char>, salt: Seq<u8>, hash: Seq<u8>)
    requires
        is_credential_of(password, salt, hash),
    ensures
        password_matches(password, salt, hash),
{
}

/// A credential accepts no password whose derived hash differs from the
/// stored one.
pub proof fn lemma_other_hash_is_refused(
    password: Seq<char>,
    other: Seq<char>,
    salt: Seq<u8>,
    hash: Seq<u8>,
)
    requires
        is_credential_of(password, salt, hash),
        derived_hash(other, salt) != derived_hash(password, salt),
    ensures
        !password_matches(other, salt, hash),
{
}

} // verus!
