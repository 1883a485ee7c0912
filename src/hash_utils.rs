//! Salted, memory-hard password hashing (Argon2, PHC string format).
use vstd::prelude::*;
use argon2::password_hash::rand_core::{OsRng, RngCore};
use argon2::password_hash::SaltString;
use argon2::{Argon2, PasswordHash, PasswordHasher, PasswordVerifier};

verus! {

#[verifier::external_type_specification]
#[verifier::external_body]
pub struct ExPasswordHashError(argon2::password_hash::Error);

/// Whether a string parses as a PHC hash string.
pub uninterp spec fn phc_parses(s: Seq<char>) -> bool;

/// Whether Argon2 (default parameters) accepts `password` against the PHC
/// hash string `hash`.
pub uninterp spec fn argon2_accepts(hash: Seq<char>, password: Seq<char>) -> bool;

/// The unpadded B64 text of a salt.
pub uninterp spec fn salt_b64(salt: Seq<u8>) -> Seq<char>;

/// The unpadded B64 text of the Argon2id digest (default parameters) of a
/// password under a salt.
pub uninterp spec fn argon2_digest_b64(password: Seq<char>, salt: Seq<u8>) -> Seq<char>;

/// Algorithm, version and default parameters, as every hash starts.
pub open spec fn phc_prefix() -> Seq<char> {
    "$argon2id$v=19$m=19456,t=2,p=1$"@
}

/// The PHC string of `password` hashed under `salt`.
pub open spec fn phc_string(password: Seq<char>, salt: Seq<u8>) -> Seq<char> {
    phc_prefix() + salt_b64(salt) + "$"@ + argon2_digest_b64(password, salt)
}

/// Number of salt bytes drawn for each new hash.
pub const SALT_LEN: usize = 16;

/// Fewest salt bytes Argon2 takes.
pub const MIN_SALT_BYTES: usize = 8;

/// Most salt bytes whose B64 text fits a PHC salt field.
pub const MAX_SALT_BYTES: usize = 48;

/// Longest password, in bytes, Argon2 takes.
pub const MAX_PASSWORD_BYTES: usize = 0xFFFF_FFFF;

/// Relies on `OsRng::try_fill_bytes`: `len` bytes from the OS random source,
/// or `None` when that source fails.
#[verifier::external_body]
fn draw_bytes(len: usize) -> (r: Option<Vec<u8>>)
    ensures
        r is Some ==> r->Some_0@.len() == len,
{
    let mut bytes = vec![0u8; len];
    match OsRng.try_fill_bytes(&mut bytes) {
        Ok(()) => Some(bytes),
        Err(_) => None,
    }
}

/// Relies on `SaltString::encode_b64` and `Argon2::hash_password` with
/// default parameters. With such a salt and password neither can fail; the
/// PHC string written by `Display` holds the algorithm, version, parameters,
/// the salt's B64 text and the 32-byte digest's B64 text, parses again, and
/// verifying the same password against it recomputes the same digest.
#[verifier::external_body]
fn argon2_hash(password: &str, salt: &[u8]) -> (r: Result<String, argon2::password_hash::Error>)
    requires
        MIN_SALT_BYTES <= salt@.len() <= MAX_SALT_BYTES,
        password.len() <= MAX_PASSWORD_BYTES,
    ensures
        r is Ok,
        r->Ok_0@ == phc_prefix() + salt_b64(salt@) + "$"@ + argon2_digest_b64(password@, salt@),
        r->Ok_0@.len() == phc_prefix().len() + (4 * salt@.len() + 2) / 3 + 1 + 43,
        phc_parses(r->Ok_0@),
        argon2_accepts(r->Ok_0@, password@),
{
    let salt = SaltString::encode_b64(salt)?;
    let hash = Argon2::default().hash_password(password.as_bytes(), &salt)?;
    Ok(hash.to_string())
}

/// Relies on `PasswordHash::new`: whether the string parses as a PHC hash.
#[verifier::external_body]
fn phc_check(hash: &str) -> (r: bool)
    ensures
        r == phc_parses(hash@),
        hash@.len() == 0 ==> !r,
{
    PasswordHash::new(hash).is_ok()
}

/// Relies on `Argon2::verify_password` over the parsed hash: whether the
/// password's digest matches the one the hash holds.
#[verifier::external_body]
fn argon2_verify(hash: &str, password: &str) -> (r: bool)
    requires
        phc_parses(hash@),
    ensures
        r == argon2_accepts(hash@, password@),
{
    match PasswordHash::new(hash) {
        Ok(parsed) => Argon2::default().verify_password(password.as_bytes(), &parsed).is_ok(),
        Err(_) => false,
    }
}

/// Why hashing or verifying failed.
#[derive(Clone, Copy, Debug, PartialEq, Eq, Structural)]
pub enum HashError {
    /// The hasher could not produce or encode a hash.
    Hashing,
    /// The OS random source could not give a salt.
    Randomness,
    /// The salt is shorter or longer than Argon2 and the PHC format take.
    InvalidSalt,
    /// The password is longer than Argon2 takes.
    PasswordTooLong,
    /// The stored hash is not a PHC hash string.
    MalformedHash,
}

/// What hashing guarantees of a hash it returns for `password`.
pub open spec fn is_hash_of(hash: Seq<char>, password: Seq<char>) -> bool {
    phc_parses(hash) && argon2_accepts(hash, password)
}

/// Whether Argon2 takes a password of this many bytes.
pub open spec fn password_fits(password: &str) -> bool {
    password.len() <= MAX_PASSWORD_BYTES
}

/// The outcome of hashing `password` under `salt`.
pub open spec fn hash_with_salt_outcome(password: &str, salt: Seq<u8>) -> Result<Seq<char>, HashError> {
    if !(MIN_SALT_BYTES <= salt.len() <= MAX_SALT_BYTES) {
        Err(HashError::InvalidSalt)
    } else if !password_fits(password) {
        Err(HashError::PasswordTooLong)
    } else {
        Ok(phc_string(password@, salt))
    }
}

/// Hashes a password under a given salt.
pub fn hash_password_with_salt(password: &str, salt: &[u8]) -> (r: Result<String, HashError>)
    ensures
        r is Ok <==> hash_with_salt_outcome(password, salt@) is Ok,
        r is Ok ==> r->Ok_0@ == hash_with_salt_outcome(password, salt@)->Ok_0,
        r is Ok ==> is_hash_of(r->Ok_0@, password@),
        r is Ok ==> r->Ok_0@.len() == phc_prefix().len() + (4 * salt@.len() + 2) / 3 + 1 + 43,
        r is Err ==> r->Err_0 == hash_with_salt_outcome(password, salt@)->Err_0,
{
    if salt.len() < MIN_SALT_BYTES || salt.len() > MAX_SALT_BYTES {
        return Err(HashError::InvalidSalt);
    }
    if password.len() > MAX_PASSWORD_BYTES {
        return Err(HashError::PasswordTooLong);
    }
    match argon2_hash(password, salt) {
        Ok(hash) => Ok(hash),
        Err(_) => Err(HashError::Hashing),
    }
}

/// Hashes a password with a fresh random salt of `SALT_LEN` bytes. It fails
/// only for a password too long for Argon2, or when the OS random source
/// fails.
pub fn hash_password(password: &str) -> (r: Result<String, HashError>)
    ensures
        r is Ok ==> is_hash_of(r->Ok_0@, password@),
        r is Ok ==> exists|salt: Seq<u8>|
            salt.len() == SALT_LEN && #[trigger] phc_string(password@, salt) == r->Ok_0@,
        r is Ok ==> r->Ok_0@.len() == phc_prefix().len() + 22 + 1 + 43,
        !password_fits(password) ==> r == Err::<String, HashError>(HashError::PasswordTooLong),
        password_fits(password) ==> (r is Ok || r == Err::<String, HashError>(
            HashError::Randomness,
        )),
{
    if password.len() > MAX_PASSWORD_BYTES {
        return Err(HashError::PasswordTooLong);
    }
    match draw_bytes(SALT_LEN) {
        None => Err(HashError::Randomness),
        Some(salt) => {
            let r = hash_password_with_salt(password, salt.as_slice());
            proof {
                assert(phc_string(password@, salt@) == r->Ok_0@);
            }
            r
        },
    }
}

/// The outcome of verifying `password` against `hash`.
pub open spec fn verify_outcome(hash: Seq<char>, password: Seq<char>) -> Result<bool, HashError> {
    if phc_parses(hash) {
        Ok(argon2_accepts(hash, password))
    } else {
        Err(HashError::MalformedHash)
    }
}

/// Checks a password against a stored hash; a malformed hash is an error.
pub fn verify_password(hash: &str, password: &str) -> (r: Result<bool, HashError>)
    ensures
        r == verify_outcome(hash@, password@),
{
    if phc_check(hash) {
        Ok(argon2_verify(hash, password))
    } else {
        Err(HashError::MalformedHash)
    }
}

/// A hash produced for a password verifies that same password.
pub proof fn hash_then_verify(hash: Seq<char>, password: Seq<char>)
    requires
        is_hash_of(hash, password),
    ensures
        verify_outcome(hash, password) == Ok::<bool, HashError>(true),
{
}

} // verus!
