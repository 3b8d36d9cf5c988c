//! The few places where the library leans on code it does not verify:
//! string building from single characters, fresh identifiers, and the clock.

use vstd::prelude::*;

verus! {

/// Relies on std's `String::push`: appends exactly the given character.
#[verifier::external_body]
pub fn push_char(s: &mut String, c: char)
    ensures
        final(s)@ == old(s)@.push(c),
{
    s.push(c);
}

/// Relies on `uuid::Uuid::new_v4` and its `Display` impl: a random v4 UUID
/// rendered in the hyphenated form, which is always 36 characters long.
/// Nothing is promised about the characters themselves: the value is random.
#[verifier::external_body]
pub fn fresh_id() -> (r: String)
    ensures
        r@.len() == 36,
{
    uuid::Uuid::new_v4().to_string()
}

/// Relies on `std::time::SystemTime::now`: milliseconds since the Unix epoch,
/// or 0 if the clock reads earlier than the epoch.  The result depends on the
/// clock, so nothing is promised of it.
#[verifier::external_body]
pub fn now_millis() -> u64 {
    std::time::SystemTime::now()
        .duration_since(std::time::UNIX_EPOCH)
        .map(|d| d.as_millis() as u64)
        .unwrap_or(0)
}

} // verus!
