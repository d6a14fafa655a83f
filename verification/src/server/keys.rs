//! Hashing and checking API keys and passwords with Argon2.
use vstd::prelude::*;
use argon2::{PasswordHasher, PasswordVerifier};
use crate::text::views;

verus! {

/// Hashes `key` with `argon2::Argon2::default()` under a salt that
/// `password_hash::SaltString::generate` draws from `rand::rngs::OsRng`,
/// giving the PHC string; `None` when hashing fails. Claimed: hashing fails
/// exactly when `key` is longer than Argon2's limit on passwords (its other
/// errors, on salt and output lengths and parameters, cannot arise with a
/// generated salt and the default parameters); and of a hash it gives,
/// whatever the salt: it reads as a PHC string that starts with the
/// identifier of the default algorithm, `$argon2id$`, and Argon2 accepts `key`
/// against it (`verify_password` recomputes the hash from the algorithm,
/// version, parameters and salt that the string carries). The salt is
/// random, so nothing more is claimed.
#[verifier::external_body]
fn argon2_hash_with_fresh_salt(key: &str) -> (r: Option<String>)
    ensures
        r is Some <==> argon2_password_fits(key@),
        r matches Some(h) ==> phc_well_formed(h@) && argon2_accepts(key@, h@),
        r matches Some(h) ==> "$argon2id$"@.is_prefix_of(h@),
{
    let salt = argon2::password_hash::SaltString::generate(&mut rand::rngs::OsRng);
    match argon2::Argon2::default().hash_password(key.as_bytes(), &salt) {
        Ok(hash) => Some(hash.to_string()),
        Err(_) => None,
    }
}

/// Whether a password is within Argon2's limit: at most `0xFFFF_FFFF`
/// bytes in UTF-8.
pub open spec fn argon2_password_fits(password: Seq<char>) -> bool {
    vstd::utf8::encode_utf8(password).len() <= 0xFFFF_FFFF
}

/// Whether Argon2 (default parameters) accepts `password` against the PHC
/// string `phc`; false when `phc` is not one.
pub uninterp spec fn argon2_accepts(password: Seq<char>, phc: Seq<char>) -> bool;

/// Whether `phc` reads as a PHC string.
pub uninterp spec fn phc_well_formed(phc: Seq<char>) -> bool;

/// Reads `phc` with `password_hash::PasswordHash::new` and checks `password`
/// against it with `argon2::Argon2::default().verify_password`. Claimed: the
/// answer is `argon2_accepts(password, phc)`, a function of both alone.
#[verifier::external_body]
fn argon2_verify(password: &str, phc: &str) -> (r: bool)
    ensures
        r == argon2_accepts(password@, phc@),
{
    match argon2::password_hash::PasswordHash::new(phc) {
        Ok(parsed) => argon2::Argon2::default().verify_password(password.as_bytes(), &parsed).is_ok(),
        Err(_) => false,
    }
}

/// Reads `phc` with `password_hash::PasswordHash::new`. Claimed: the answer
/// is `phc_well_formed(phc)`, a function of `phc` alone.
#[verifier::external_body]
fn phc_parses(phc: &str) -> (r: bool)
    ensures
        r == phc_well_formed(phc@),
{
    argon2::password_hash::PasswordHash::new(phc).is_ok()
}

/// What is stored for a key: its hash, or the key itself when hashing failed.
pub fn stored_key_hash(key: &str, hashed: Option<String>) -> (r: String)
    ensures
        r@ == match hashed {
            Some(h) => h@,
            None => key@,
        },
{
    match hashed {
        Some(h) => h,
        None => key.to_owned(),
    }
}

/// The PHC string of a password under a fresh random salt; `None` when the
/// password is too long for Argon2, which refuses the registration.
pub fn hash_password(password: &str) -> (r: Option<String>)
    ensures
        r is Some <==> argon2_password_fits(password@),
        r matches Some(h) ==> phc_well_formed(h@) && argon2_accepts(password@, h@)
            && "$argon2id$"@.is_prefix_of(h@),
{
    argon2_hash_with_fresh_salt(password)
}

/// The hash stored for a key, under a fresh random salt: a PHC string that
/// accepts the key, or, when the key is too long for Argon2, the key itself.
pub fn hash_key(key: &str) -> (r: String)
    ensures
        if argon2_password_fits(key@) {
            phc_well_formed(r@) && argon2_accepts(key@, r@) && "$argon2id$"@.is_prefix_of(r@)
        } else {
            r@ == key@
        },
{
    let hashed = argon2_hash_with_fresh_salt(key);
    stored_key_hash(key, hashed)
}

/// Whether `r` is the answer to which stored hash accepts `token`: the
/// position of the first that does, or none when none does.
pub open spec fn key_match(token: Seq<char>, hashes: Seq<Seq<char>>, r: Option<int>) -> bool {
    match r {
        Some(i) => 0 <= i < hashes.len() && argon2_accepts(token, hashes[i])
            && forall|j: int| 0 <= j < i ==> !argon2_accepts(token, #[trigger] hashes[j]),
        None => forall|j: int| 0 <= j < hashes.len() ==> !argon2_accepts(token, #[trigger] hashes[j]),
    }
}

/// A position, as an integer.
pub open spec fn opt_int(r: Option<usize>) -> Option<int> {
    match r {
        Some(i) => Some(i as int),
        None => None,
    }
}

/// The position of the first stored hash that accepts `token`, if any.
pub fn matching_key(token: &str, key_hashes: &Vec<String>) -> (r: Option<usize>)
    ensures
        key_match(token@, views(key_hashes@), opt_int(r)),
{
    let ghost hashes = views(key_hashes@);
    let mut i: usize = 0;
    while i < key_hashes.len()
        invariant
            hashes == views(key_hashes@),
            0 <= i <= key_hashes@.len(),
            forall|j: int| 0 <= j < i ==> !argon2_accepts(token@, #[trigger] hashes[j]),
        decreases key_hashes@.len() - i,
    {
        assert(hashes[i as int] == key_hashes@[i as int]@);
        if argon2_verify(token, key_hashes[i].as_str()) {
            return Some(i);
        }
        i = i + 1;
    }
    None
}

/// A bearer token that the hash of some stored key accepts is let in: the
/// answer names the first such key, at that position or before it.
pub proof fn law_accepted_token_is_found(token: Seq<char>, hashes: Seq<Seq<char>>, i: int, r: Option<int>)
    requires
        0 <= i < hashes.len(),
        argon2_accepts(token, hashes[i]),
        key_match(token, hashes, r),
    ensures
        r matches Some(j) && j <= i,
{
    match r {
        Some(j) => {
            if j > i {
                assert(!argon2_accepts(token, hashes[i]));
            }
        },
        None => {
            assert(!argon2_accepts(token, hashes[i]));
        },
    }
}

/// Which stored key a token matches has one answer.
pub proof fn law_key_match_unique(token: Seq<char>, hashes: Seq<Seq<char>>, r1: Option<int>, r2: Option<int>)
    requires
        key_match(token, hashes, r1),
        key_match(token, hashes, r2),
    ensures
        r1 == r2,
{
    match (r1, r2) {
        (Some(a), Some(b)) => {
            if a < b {
                assert(!argon2_accepts(token, hashes[a]));
            } else if b < a {
                assert(!argon2_accepts(token, hashes[b]));
            }
        },
        (Some(a), None) => {
            assert(!argon2_accepts(token, hashes[a]));
        },
        (None, Some(b)) => {
            assert(!argon2_accepts(token, hashes[b]));
        },
        (None, None) => {},
    }
}

/// The outcome of checking a password at sign-in.
#[derive(Debug, Clone, Copy, PartialEq, Eq, Structural)]
pub enum PasswordCheck {
    Accepted,
    /// The stored hash is not a PHC string.
    AccountError,
    Rejected,
}

/// Checks `password` against the stored hash of an account.
pub fn check_password(password: &str, stored_hash: &str) -> (r: PasswordCheck)
    ensures
        r == if !phc_well_formed(stored_hash@) {
            PasswordCheck::AccountError
        } else if argon2_accepts(password@, stored_hash@) {
            PasswordCheck::Accepted
        } else {
            PasswordCheck::Rejected
        },
{
    if !phc_parses(stored_hash) {
        PasswordCheck::AccountError
    } else if argon2_verify(password, stored_hash) {
        PasswordCheck::Accepted
    } else {
        PasswordCheck::Rejected
    }
}

} // verus!
