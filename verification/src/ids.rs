//! Fresh identifiers and timestamps.
//!
//! The service needs fresh random identifiers at three call sites (file ids
//! and identity keys) and the upload time of a record.  Both come from
//! outside crates, so the calls stand behind trusted wrappers; everything
//! that depends on the values is verified for every value they could take.

use rand::Rng;
use vstd::prelude::*;

verus! {

/// The hyphenated text form of a 128-bit identifier.  The formatting is a
/// pure function of the value, so the result gets a name and nothing more.
pub uninterp spec fn uuid_text_of(n: u128) -> Seq<char>;

/// Relies on `rand::rng` and `rand::Rng::random`: 128 random bits from the
/// thread-local generator.  The result depends on the generator's state, so
/// nothing is promised of it.
#[verifier::external_body]
fn random_u128() -> u128 {
    let mut rng = rand::rng();
    rng.random::<u128>()
}

/// Relies on `uuid::Uuid::from_u128` and the `Display` form of `uuid::Uuid`:
/// the hyphenated lowercase-hex text of the value, 36 characters, a function
/// of the 128-bit value alone.
#[verifier::external_body]
fn uuid_text(n: u128) -> (r: String)
    ensures
        r@ == uuid_text_of(n),
        r@.len() == 36,
{
    uuid::Uuid::from_u128(n).to_string()
}

/// Relies on `chrono::Utc::now` and `chrono::DateTime::timestamp`: the
/// current time as whole seconds since the Unix epoch.  The result depends on
/// the clock, so nothing is promised of it.
#[verifier::external_body]
fn now_seconds() -> i64 {
    chrono::Utc::now().timestamp()
}

/// A fresh opaque token with 128 bits of entropy, in hyphenated text form:
/// used for file identifiers and identity keys.  Collisions are treated as
/// negligible and are not re-checked here; the store operations reject a
/// colliding insert instead.
pub fn generate_token() -> (r: String)
    ensures
        r@.len() == 36,
{
    uuid_text(random_u128())
}

/// The current Unix timestamp, for a record's upload time.
pub fn current_timestamp() -> i64 {
    now_seconds()
}

} // verus!
