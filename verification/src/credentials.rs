use vstd::prelude::*;

verus! {

/// The bcrypt cost factor used for newly hashed passwords (one above
/// bcrypt's default).
pub const HASH_COST: u32 = 13;

#[verifier::external_type_specification]
#[verifier::external_body]
pub struct ExBcryptError(bcrypt::BcryptError);

/// What `bcrypt::verify` returns for a password and a stored hash
/// string: `None` when verification itself fails (a malformed hash),
/// otherwise whether the password matches.  The outcome depends on the
/// two arguments alone.
pub uninterp spec fn bcrypt_verify_of(pass: Seq<char>, hashed: Seq<char>) -> Option<bool>;

/// Relies on bcrypt::hash: the returned hash string encodes the cost
/// and the (randomly drawn) salt, so bcrypt::verify matches the same
/// password against it.
#[verifier::external_body]
pub(crate) fn bcrypt_hash(pass: &str, cost: u32) -> (r: Result<String, bcrypt::BcryptError>)
    ensures
        r matches Ok(h) ==> bcrypt_verify_of(pass@, h@) == Some(true),
{
    bcrypt::hash(pass, cost)
}

/// Relies on bcrypt::verify: deterministic in the password and the
/// hash string; it fails exactly when the hash string is not a
/// well-formed bcrypt hash.
#[verifier::external_body]
pub(crate) fn bcrypt_check(pass: &str, hashed: &str) -> (r: Result<bool, bcrypt::BcryptError>)
    ensures
        r is Ok <==> bcrypt_verify_of(pass@, hashed@) is Some,
        r matches Ok(b) ==> Some(b) == bcrypt_verify_of(pass@, hashed@),
{
    bcrypt::verify(pass, hashed)
}

} // verus!
