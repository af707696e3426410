use vstd::prelude::*;

verus! {

/// The lowest and the highest work factor that bcrypt accepts.
pub const MIN_COST: u32 = 4;
pub const MAX_COST: u32 = 31;

#[verifier::external_type_specification]
#[verifier::external_body]
pub struct ExBcryptError(bcrypt::BcryptError);

/// Whether bcrypt accepts a password against a stored hash.
pub uninterp spec fn bcrypt_accepts(password: Seq<char>, hash: Seq<char>) -> bool;

/// Relies on bcrypt::verify, which recomputes the hash of the password with
/// the salt and cost stored in `hash`; a malformed hash is a mismatch.
#[verifier::external_body]
pub(crate) fn password_matches(password: &str, hash: &str) -> (r: bool)
    ensures
        r == bcrypt_accepts(password@, hash@),
{
    bcrypt::verify(password, hash).unwrap_or(false)
}

/// Relies on bcrypt::hash: a hash with a random salt, which bcrypt::verify
/// accepts for the same password (verification recomputes it with that salt
/// and cost).
#[verifier::external_body]
pub(crate) fn hash_password(password: &str, cost: u32) -> (r: Result<String, bcrypt::BcryptError>)
    requires
        MIN_COST <= cost <= MAX_COST,
    ensures
        r is Ok ==> bcrypt_accepts(password@, r->Ok_0@),
{
    bcrypt::hash(password, cost)
}

} // verus!
