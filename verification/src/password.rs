//! Password hashing with Argon2, through the `argon2` crate: a fresh random
//! salt for each new password, PHC hash strings for storage, and checking a
//! password against a stored PHC string.

use argon2::password_hash::{PasswordHash, Salt, SaltString};
use argon2::{Argon2, PasswordHasher, PasswordVerifier};
use rand_core::OsRng;
use vstd::prelude::*;
use vstd::utf8::encode_utf8;

verus! {

/// What `Argon2::default().hash_password(password, salt)` gives for a
/// password and a B64 salt string: the PHC string of the hash, or the text of
/// the error (an unusable salt, a password too long for Argon2).
pub uninterp spec fn argon2_phc_hash(password: Seq<u8>, salt: Seq<char>) -> Result<
    Seq<char>,
    Seq<char>,
>;

/// What `PasswordHash::new(stored)` gives for a stored hash string: `None`
/// when it reads as a PHC string, otherwise the text of the error.
pub uninterp spec fn phc_parse_failure(stored: Seq<char>) -> Option<Seq<char>>;

/// Whether `Argon2::default().verify_password(password, &hash)` succeeds for
/// the hash that the PHC string `stored` holds.
pub uninterp spec fn argon2_accepts(password: Seq<u8>, stored: Seq<char>) -> bool;

/// A character of the B64 alphabet (standard Base64 without padding).
pub open spec fn is_b64_char(c: char) -> bool {
    let n = c as u32;
    ||| 0x41 <= n <= 0x5A
    ||| 0x61 <= n <= 0x7A
    ||| 0x30 <= n <= 0x39
    ||| c == '+'
    ||| c == '/'
}

/// A password short enough for Argon2: at most `0xFFFF_FFFF` bytes
/// (`argon2::MAX_PWD_LEN`).
pub open spec fn fits_argon2(password: Seq<u8>) -> bool {
    password.len() <= 0xFFFF_FFFF
}

/// Calls `SaltString::generate(&mut OsRng)`, which encodes 16 random bytes in
/// B64. The contract claims only what holds of every outcome: 22 characters of
/// the B64 alphabet, and a salt that Argon2 takes: `Salt::from_b64` accepts
/// it, it decodes to 16 bytes (at least `MIN_SALT_LEN`), so
/// `hash_password` succeeds for every password that `fits_argon2`. Which
/// characters come out is not stated: they are random.
#[verifier::external_body]
fn generate_salt() -> (salt: String)
    ensures
        salt@.len() == 22,
        forall|i: int| 0 <= i < salt@.len() ==> is_b64_char(#[trigger] salt@[i]),
        forall|p: Seq<u8>| fits_argon2(p) ==> (#[trigger] argon2_phc_hash(p, salt@)) is Ok,
{
    SaltString::generate(&mut OsRng).as_str().to_owned()
}

/// Calls `Argon2::default().hash_password(password, salt)` (the salt string
/// turned into a `Salt` by `Salt::from_b64`, the hash into its PHC string by
/// `to_string`). The contract claims that the result is the one that
/// `argon2_phc_hash` names for these arguments, and that a hash it returns
/// reads back as a PHC string against which the same password verifies: the
/// hash records the algorithm, version, parameters and salt that
/// `verify_password` recomputes it with.
#[verifier::external_body]
fn argon2_hash(password: &[u8], salt: &str) -> (res: Result<String, String>)
    ensures
        match res {
            Ok(h) => argon2_phc_hash(password@, salt@) == Ok::<Seq<char>, Seq<char>>(h@),
            Err(m) => argon2_phc_hash(password@, salt@) == Err::<Seq<char>, Seq<char>>(m@),
        },
        res matches Ok(h) ==> phc_parse_failure(h@) is None && argon2_accepts(password@, h@),
{
    match Salt::from_b64(salt) {
        Err(e) => Err(e.to_string()),
        Ok(salt) => match Argon2::default().hash_password(password, salt) {
            Ok(hash) => Ok(hash.to_string()),
            Err(e) => Err(e.to_string()),
        },
    }
}

/// Calls `PasswordHash::new(stored)` and, when the string reads as a PHC
/// string, `Argon2::default().verify_password(password, &hash)`. The contract
/// claims an error carrying the text of the parse error exactly when
/// `phc_parse_failure` names one, and otherwise whether the password verifies,
/// as `argon2_accepts` names it.
#[verifier::external_body]
fn argon2_verify(password: &[u8], stored: &str) -> (res: Result<bool, String>)
    ensures
        match res {
            Ok(ok) => phc_parse_failure(stored@) is None && ok == argon2_accepts(password@, stored@),
            Err(m) => phc_parse_failure(stored@) == Some(m@),
        },
{
    match PasswordHash::new(stored) {
        Err(e) => Err(e.to_string()),
        Ok(hash) => Ok(Argon2::default().verify_password(password, &hash).is_ok()),
    }
}

/// The outcome of hashing `password` with `salt`: the PHC string, or the
/// text of the hashing error.
pub fn hash_with_salt(password: &str, salt: &str) -> (res: Result<String, String>)
    ensures
        match res {
            Ok(h) => argon2_phc_hash(encode_utf8(password@), salt@) == Ok::<Seq<char>, Seq<char>>(h@),
            Err(m) => argon2_phc_hash(encode_utf8(password@), salt@) == Err::<Seq<char>, Seq<char>>(m@),
        },
        res matches Ok(h) ==> stored_hash_accepts(h@, password@),
{
    argon2_hash(password.as_bytes(), salt)
}

/// Hashes `password` with a fresh random salt. Whatever salt was drawn, the
/// result is what Argon2 gives for the password with some salt, a hash it
/// returns accepts the password, and it succeeds for every password short
/// enough for Argon2.
pub fn hash_new_password(password: &str) -> (res: Result<String, String>)
    ensures
        exists|salt: Seq<char>|
            match res {
                Ok(h) => #[trigger] argon2_phc_hash(encode_utf8(password@), salt) == Ok::<
                    Seq<char>,
                    Seq<char>,
                >(h@),
                Err(m) => argon2_phc_hash(encode_utf8(password@), salt) == Err::<
                    Seq<char>,
                    Seq<char>,
                >(m@),
            },
        res matches Ok(h) ==> stored_hash_accepts(h@, password@),
        fits_argon2(encode_utf8(password@)) ==> res is Ok,
{
    let salt = generate_salt();
    hash_with_salt(password, salt.as_str())
}

/// A stored PHC string reads back as one and accepts `password`.
pub open spec fn stored_hash_accepts(stored: Seq<char>, password: Seq<char>) -> bool {
    phc_parse_failure(stored) is None && argon2_accepts(encode_utf8(password), stored)
}

/// Checks `password` against the stored PHC string `stored`: an error with
/// the parse error's text when `stored` does not read as a PHC string,
/// otherwise whether Argon2 accepts the password.
pub fn verify_password(password: &str, stored: &str) -> (res: Result<bool, String>)
    ensures
        match res {
            Ok(ok) => phc_parse_failure(stored@) is None && ok == argon2_accepts(
                encode_utf8(password@),
                stored@,
            ),
            Err(m) => phc_parse_failure(stored@) == Some(m@),
        },
{
    argon2_verify(password.as_bytes(), stored)
}

} // verus!
