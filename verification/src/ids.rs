//! Identifiers: random version-4 UUIDs from `uuid`, and UUID text read back.

use vstd::prelude::*;
use crate::text::uuid_hyphenated;

verus! {

/// What `Uuid::parse_str` reads from a text (as `as_u128`), or its error
/// message.
pub uninterp spec fn uuid_reading(text: Seq<char>) -> Result<u128, Seq<char>>;

/// Whatever UUID `text` is the hyphenated form of is what was read from it.
pub open spec fn reads_back_hyphenated(text: Seq<char>, r: Result<u128, String>) -> bool {
    forall|x: u128| #[trigger] uuid_hyphenated(x) == text ==> r == Ok::<u128, String>(x)
}

/// A version-4 UUID of the RFC 4122 variant: version bits (76..79) hold 4
/// and the variant bits (62..63) hold 0b10.
pub open spec fn is_v4(x: u128) -> bool {
    &&& (x >> 76u128) & 0xf == 4
    &&& (x >> 62u128) & 0x3 == 2
}

/// A fresh random UUID (`Uuid::new_v4`), as its 128-bit value. Its other
/// bits come from the operating system's randomness; claimed of it: the
/// version and variant bits that `new_v4` sets (it masks the random value
/// with `0xFFFFFFFFFFFF4FFFBFFFFFFFFFFFFFFF` and sets
/// `0x40008000000000000000`).
#[verifier::external_body]
pub fn new_uuid_v4() -> (id: u128)
    ensures
        is_v4(id),
{
    uuid::Uuid::new_v4().as_u128()
}

/// `Uuid::parse_str`, as a 128-bit value, or the error's message. Claimed
/// beyond the name: the hyphenated text of a UUID reads back as that UUID.
#[verifier::external_body]
pub fn parse_uuid(s: &str) -> (r: Result<u128, String>)
    ensures
        match r {
            Ok(x) => uuid_reading(s@) == Ok::<u128, Seq<char>>(x),
            Err(e) => uuid_reading(s@) == Err::<u128, Seq<char>>(e@),
        },
        reads_back_hyphenated(s@, r),
{
    match uuid::Uuid::parse_str(s) {
        Ok(u) => Ok(u.as_u128()),
        Err(e) => Err(e.to_string()),
    }
}

} // verus!
