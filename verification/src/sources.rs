//! Random identifiers and the current time, both taken from outside crates.
//!
//! Every record id is a kind prefix followed by the simple (unhyphenated)
//! rendering of a random version-4 UUID.
use crate::types::Timestamp;
use vstd::prelude::*;

verus! {

/// A lowercase hexadecimal digit.
pub open spec fn is_lower_hex(c: char) -> bool {
    ('0' <= c && c <= '9') || ('a' <= c && c <= 'f')
}

/// The simple rendering of a UUID: 32 lowercase hexadecimal digits.
pub open spec fn is_simple_uuid(u: Seq<char>) -> bool {
    &&& u.len() == 32
    &&& forall|i: int| 0 <= i < u.len() ==> is_lower_hex(#[trigger] u[i])
}

/// The digits that mark a random (version 4, RFC 4122 variant) UUID: the
/// thirteenth digit is `4` and the seventeenth is one of `8`, `9`, `a`, `b`.
pub open spec fn is_random_uuid(u: Seq<char>) -> bool {
    &&& is_simple_uuid(u)
    &&& u[12] == '4'
    &&& (u[16] == '8' || u[16] == '9' || u[16] == 'a' || u[16] == 'b')
}

/// `id` is `prefix` followed by the simple rendering of a UUID.
pub open spec fn is_prefixed_uuid(prefix: Seq<char>, id: Seq<char>) -> bool {
    &&& prefix.len() <= id.len()
    &&& id.subrange(0, prefix.len() as int) == prefix
    &&& is_simple_uuid(id.subrange(prefix.len() as int, id.len() as int))
}

/// Calls `uuid::Uuid::new_v4` and renders the UUID with `Uuid::simple`.
///
/// The contract claims only the shape of the text: uuid's `Simple` formatter
/// writes the 16 bytes as 32 lowercase hexadecimal digits, and `new_v4` sets
/// the version digit to 4 and the variant digit to one of 8, 9, a, b. Which
/// UUID comes out is random and is not stated. `new_v4` panics when the operating system
/// yields no random bytes.
#[verifier::external_body]
pub(crate) fn random_uuid_simple() -> (u: String)
    ensures
        is_random_uuid(u@),
{
    uuid::Uuid::new_v4().simple().to_string()
}

/// Calls `chrono::Utc::now` and splits the instant into whole seconds since
/// the Unix epoch (`DateTime::timestamp`) and the nanoseconds past that second
/// (`DateTime::timestamp_subsec_nanos`).
///
/// The instant depends on the system clock and is not stated. chrono builds
/// it from the time elapsed since the epoch, so the seconds are not negative
/// and the nanoseconds stay below one second; `Utc::now` panics when the
/// system clock reads a time before the epoch.
#[verifier::external_body]
pub(crate) fn utc_now() -> (t: Timestamp)
    ensures
        0 <= t.secs,
        t.nanos < 1_000_000_000,
{
    let now = chrono::Utc::now();
    Timestamp { secs: now.timestamp(), nanos: now.timestamp_subsec_nanos() }
}

/// A prefix followed by the rendering of a UUID is a prefixed UUID.
pub proof fn lemma_prefixed_uuid(prefix: Seq<char>, u: Seq<char>)
    requires
        is_simple_uuid(u),
    ensures
        is_prefixed_uuid(prefix, prefix + u),
{
    assert((prefix + u).subrange(0, prefix.len() as int) =~= prefix);
    assert((prefix + u).subrange(prefix.len() as int, (prefix + u).len() as int) =~= u);
}

} // verus!
