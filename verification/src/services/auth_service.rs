//! The PIN that locks the app, kept as an Argon2 hash in PHC string form.
use vstd::prelude::*;
use vstd::string::*;
use argon2::password_hash::rand_core::OsRng;
use argon2::password_hash::{PasswordHash, PasswordHasher, PasswordVerifier, SaltString};
use argon2::Argon2;
use crate::error::{AppError, internal_code};
use crate::text::append_text;

verus! {

/// Whether argon2's `PasswordHash::new` accepts `hash` as a PHC string.
pub uninterp spec fn phc_parses(hash: Seq<char>) -> bool;

/// Whether `Argon2::default().verify_password` accepts `pin` against the parsed `hash`.
pub uninterp spec fn argon2_accepts(hash: Seq<char>, pin: Seq<char>) -> bool;

/// argon2: hashes `pin` with `Argon2::default()` and a fresh random salt
/// (`SaltString::generate(&mut OsRng)`), and writes the hash as a PHC string. A hash made
/// this way parses back and verifies the same password; the salt, and so the text, is
/// random, and the error text is argon2's. With the default parameters and a generated
/// salt, hashing fails only for a password longer than argon2's `MAX_PWD_LEN`
/// (0xFFFFFFFF bytes).
#[verifier::external_body]
fn hash_with_random_salt(pin: &str) -> (r: Result<String, String>)
    ensures
        r matches Ok(h) ==> phc_parses(h@) && argon2_accepts(h@, pin@),
        pin.spec_bytes().len() <= 0xFFFF_FFFF ==> r is Ok,
{
    let salt = SaltString::generate(&mut OsRng);
    match Argon2::default().hash_password(pin.as_bytes(), &salt) {
        Ok(h) => Ok(h.to_string()),
        Err(e) => Err(e.to_string()),
    }
}

/// argon2: parses `hash` with `PasswordHash::new` and checks `pin` against it with
/// `Argon2::default().verify_password`. The error text (of a hash that does not parse) is
/// argon2's.
#[verifier::external_body]
fn check_against_hash(hash: &str, pin: &str) -> (r: Result<bool, String>)
    ensures
        r is Ok <==> phc_parses(hash@),
        r matches Ok(b) ==> b == argon2_accepts(hash@, pin@),
{
    match PasswordHash::new(hash) {
        Ok(parsed) => Ok(Argon2::default().verify_password(pin.as_bytes(), &parsed).is_ok()),
        Err(e) => Err(e.to_string()),
    }
}

/// Hashes a new PIN for the store; an argon2 failure is an internal error whose message
/// starts with "Failed to hash PIN: ".
pub fn set_pin(pin: &str) -> (r: Result<String, AppError>)
    ensures
        pin.spec_bytes().len() <= 0xFFFF_FFFF ==> r is Ok,
        r matches Ok(h) ==> phc_parses(h@) && argon2_accepts(h@, pin@),
        r matches Err(e) ==> e.code@ == internal_code() && "Failed to hash PIN: "@.is_prefix_of(
            e.message@,
        ),
{
    match hash_with_random_salt(pin) {
        Ok(h) => Ok(h),
        Err(m) => {
            let mut message = "Failed to hash PIN: ".to_owned();
            append_text(&mut message, m.as_str());
            assert(message@.take("Failed to hash PIN: "@.len() as int) =~= "Failed to hash PIN: "@);
            Err(AppError::internal(message.as_str()))
        },
    }
}

/// The outcome of checking `pin` against the stored hash: `Some(accepted)`, or `None`
/// when the stored hash does not parse. No stored hash accepts nothing.
pub open spec fn pin_check(stored: Option<Seq<char>>, pin: Seq<char>) -> Option<bool> {
    match stored {
        None => Some(false),
        Some(h) => if phc_parses(h) {
            Some(argon2_accepts(h, pin))
        } else {
            None
        },
    }
}

/// Checks `pin` against the stored hash (`None` when no PIN is set, which accepts no
/// PIN). A stored hash that does not parse is an internal error whose message starts with
/// "Failed to parse stored hash: ".
pub fn verify_pin(stored: &Option<String>, pin: &str) -> (r: Result<bool, AppError>)
    ensures
        pin_check(crate::text::opt_view(*stored), pin@) matches Some(b) ==> r == Ok::<
            bool,
            AppError,
        >(b),
        pin_check(crate::text::opt_view(*stored), pin@) is None ==> (r matches Err(e)
            && e.code@ == internal_code() && "Failed to parse stored hash: "@.is_prefix_of(
            e.message@,
        )),
{
    match stored {
        None => Ok(false),
        Some(h) => match check_against_hash(h.as_str(), pin) {
            Ok(b) => Ok(b),
            Err(m) => {
                let mut message = "Failed to parse stored hash: ".to_owned();
                append_text(&mut message, m.as_str());
                assert(message@.take("Failed to parse stored hash: "@.len() as int)
                    =~= "Failed to parse stored hash: "@);
                Err(AppError::internal(message.as_str()))
            },
        },
    }
}

/// A PIN that was just set is accepted by `verify_pin` when checked against its hash.
pub proof fn law_set_pin_then_verify(hash: Seq<char>, pin: Seq<char>)
    requires
        phc_parses(hash),
        argon2_accepts(hash, pin),
    ensures
        pin_check(Some(hash), pin) == Some(true),
{
}

/// With no PIN set, no PIN is accepted.
pub proof fn law_no_pin_accepts_nothing(pin: Seq<char>)
    ensures
        pin_check(None, pin) == Some(false),
{
}

} // verus!
