use vstd::prelude::*;

use crate::error::AppError;

verus! {

/// The bcrypt work factor that new password hashes are made with.
pub const COST: u32 = 12;

/// Whether bcrypt accepts `password` against the stored `hash`; `None` when
/// the hash cannot be read.
pub uninterp spec fn bcrypt_verdict(password: Seq<char>, hash: Seq<char>) -> Option<bool>;

/// Relies on bcrypt::verify: it re-hashes the password with the cost and salt
/// that the stored hash carries, so its answer depends on the two texts alone.
#[verifier::external_body]
fn bcrypt_check(password: &str, hash: &str) -> (r: Option<bool>)
    ensures
        r == bcrypt_verdict(password@, hash@),
{
    bcrypt::verify(password, hash).ok()
}

/// The start of a bcrypt hash in the 2b version: `$2b$`, the cost in two
/// digits, and `$`.
pub open spec fn hash_prefix(cost: u32) -> Seq<char> {
    seq!['$', '2', 'b', '$', ((cost / 10) as u8 + 48u8) as char, ((cost % 10) as u8 + 48u8) as char, '$']
}

/// Relies on bcrypt::hash: it salts from the system's randomness, writes the
/// hash in the 2b version as `$2b$`, the cost in two digits, `$`, then 22
/// characters of salt and 31 of hash, and bcrypt::verify accepts the password
/// against every hash it makes.
#[verifier::external_body]
fn bcrypt_hash(password: &str, cost: u32) -> (r: Option<String>)
    requires
        4 <= cost <= 31,
    ensures
        r is Some ==> bcrypt_verdict(password@, r->Some_0@) == Some(true),
        r is Some ==> r->Some_0@.len() == 60,
        r is Some ==> hash_prefix(cost).is_prefix_of(r->Some_0@),
{
    bcrypt::hash(password, cost).ok()
}

/// Hashes a password for storage, with a fresh salt and the work factor `COST`.
pub fn hash_password(password: &str) -> (r: Result<String, AppError>)
    ensures
        r is Ok ==> bcrypt_verdict(password@, r->Ok_0@) == Some(true),
        r is Ok ==> r->Ok_0@.len() == 60,
        r is Ok ==> hash_prefix(COST).is_prefix_of(r->Ok_0@),
        r is Ok ==> r->Ok_0@.subrange(0, 7) == seq!['$', '2', 'b', '$', '1', '2', '$'],
        r is Err ==> r->Err_0 == AppError::Internal,
{
    match bcrypt_hash(password, COST) {
        Some(h) => Ok(h),
        None => Err(AppError::Internal),
    }
}

/// Whether a verdict of bcrypt lets a login through: only an explicit match.
pub open spec fn password_accepted(verdict: Option<bool>) -> bool {
    verdict == Some(true)
}

/// Turns a verdict of bcrypt into the answer of a credential check. It fails
/// closed: a mismatch and an unreadable hash give the same error.
pub fn password_outcome(verdict: Option<bool>) -> (r: Result<bool, AppError>)
    ensures
        password_accepted(verdict) ==> r == Ok::<bool, AppError>(true),
        !password_accepted(verdict) ==> r == Err::<bool, AppError>(AppError::Unauthorized),
{
    match verdict {
        Some(true) => Ok(true),
        _ => Err(AppError::Unauthorized),
    }
}

/// Checks a submitted password against the stored hash.
pub fn verify_password(password: &str, hash: &str) -> (r: Result<bool, AppError>)
    ensures
        password_accepted(bcrypt_verdict(password@, hash@)) ==> r == Ok::<bool, AppError>(true),
        !password_accepted(bcrypt_verdict(password@, hash@)) ==> r == Err::<bool, AppError>(
            AppError::Unauthorized,
        ),
{
    password_outcome(bcrypt_check(password, hash))
}

} // verus!
