//! Password hashing with `bcrypt`.

use vstd::prelude::*;

verus! {

/// The work factor passed to `bcrypt::hash` (its `DEFAULT_COST`).
pub const PASSWORD_HASH_COST: u32 = 12;

/// What `bcrypt::verify` answers for a password against a stored hash, or its
/// error's message.
pub uninterp spec fn bcrypt_verdict(password: Seq<char>, hash: Seq<char>) -> Result<bool, Seq<char>>;

/// The two decimal digits of a value below 100.
pub open spec fn two_digits(n: int) -> Seq<char> {
    seq![(48 + n / 10) as char, (48 + n % 10) as char]
}

/// `h` is a bcrypt hash text of version 2b made with work factor `cost`:
/// `$2b$`, the cost in two digits, `$`, then 22 characters of salt and 31 of
/// hash, 60 in all.
pub open spec fn hashed_with_cost(h: Seq<char>, cost: int) -> bool {
    &&& h.len() == 60
    &&& h.take(7) == "$2b$"@ + two_digits(cost) + "$"@
}

/// `bcrypt::hash` with the given cost, or the error's message. The salt is
/// random, so the hash itself is not named; claimed of it: the cost is one
/// that bcrypt allows (4 to 31, else it fails), the text is a version-2b hash
/// with that cost (`format_for_version`), and the password verifies against
/// it (`verify` recomputes the hash from the salt and cost that the text
/// carries).
#[verifier::external_body]
pub fn hash_password(password: &str, cost: u32) -> (r: Result<String, String>)
    ensures
        match r {
            Ok(h) => {
                &&& 4 <= cost <= 31
                &&& hashed_with_cost(h@, cost as int)
                &&& bcrypt_verdict(password@, h@) == Ok::<bool, Seq<char>>(true)
            },
            Err(_) => true,
        },
{
    match bcrypt::hash(password, cost) {
        Ok(h) => Ok(h),
        Err(e) => Err(e.to_string()),
    }
}

/// `bcrypt::verify` of a password against a stored hash, or the error's
/// message.
#[verifier::external_body]
pub fn verify_password(password: &str, hash: &str) -> (r: Result<bool, String>)
    ensures
        match r {
            Ok(b) => bcrypt_verdict(password@, hash@) == Ok::<bool, Seq<char>>(b),
            Err(e) => bcrypt_verdict(password@, hash@) == Err::<bool, Seq<char>>(e@),
        },
{
    match bcrypt::verify(password, hash) {
        Ok(b) => Ok(b),
        Err(e) => Err(e.to_string()),
    }
}

} // verus!
