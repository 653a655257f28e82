use vstd::prelude::*;

verus! {

#[verifier::external_type_specification]
#[verifier::external_body]
pub struct ExBcryptError(bcrypt::BcryptError);

/// What bcrypt's verification gives for a password and a stored hash:
/// `Some(true)` or `Some(false)` when the hash can be read, `None` when it
/// is malformed. It depends on its two arguments alone: the stored hash
/// carries the salt and the cost.
pub uninterp spec fn bcrypt_verdict(password: Seq<char>, stored_hash: Seq<char>) -> Option<bool>;

/// Relies on bcrypt::verify: it hashes the password with the salt and cost
/// read from the stored hash and compares, or fails on a malformed hash.
#[verifier::external_body]
fn bcrypt_verify(password: &str, stored_hash: &str) -> (r: Result<bool, bcrypt::BcryptError>)
    ensures
        match r {
            Ok(b) => bcrypt_verdict(password@, stored_hash@) == Some(b),
            Err(_) => bcrypt_verdict(password@, stored_hash@) is None,
        },
{
    bcrypt::verify(password, stored_hash)
}

/// A password is accepted when bcrypt reads the stored hash and finds that
/// it was made from this password.
pub open spec fn password_matches(password: Seq<char>, stored_hash: Seq<char>) -> bool {
    bcrypt_verdict(password, stored_hash) == Some(true)
}

/// The one account's name.
pub open spec fn admin_name() -> Seq<char> {
    "admin"@
}

/// Checks a plaintext password against a stored bcrypt hash. A malformed
/// hash counts as a failed check.
pub fn verify_password(password: &str, stored_hash: &str) -> (r: bool)
    ensures
        r == password_matches(password@, stored_hash@),
{
    match bcrypt_verify(password, stored_hash) {
        Ok(b) => b,
        Err(_) => false,
    }
}

/// Whether a user name is the administrator's: a case-sensitive,
/// exact comparison.
pub fn is_admin(username: &str) -> (r: bool)
    ensures
        r == (username@ == admin_name()),
{
    let given = String::from_str(username);
    let admin = String::from_str("admin");
    given == admin
}

} // verus!
