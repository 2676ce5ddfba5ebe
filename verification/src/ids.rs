//! Identifiers of stored records.
use vstd::prelude::*;

verus! {

/// A lowercase hexadecimal digit.
pub open spec fn is_lower_hex_digit(c: char) -> bool {
    ('0' <= c && c <= '9') || ('a' <= c && c <= 'f')
}

/// The form of every record id the service assigns: the 32 lowercase hex
/// digits of a UUID written without hyphens.
pub open spec fn is_record_id(s: Seq<char>) -> bool {
    &&& s.len() == 32
    &&& forall|k: int| 0 <= k < s.len() ==> is_lower_hex_digit(#[trigger] s[k])
}

/// Draws 16 bytes from the system's random source with `getrandom::fill`,
/// turns them into a version 4 UUID with `uuid::Builder::from_random_bytes`,
/// and renders it with `Uuid::simple`'s `Display`, which writes the 32 hex
/// digits in lowercase with no hyphens. `getrandom::fill` reports a failure of
/// the random source as an error, which gives `None`. The UUID is random, so
/// only its form is claimed.
#[verifier::external_body]
pub(crate) fn new_record_id() -> (id: Option<String>)
    ensures
        id matches Some(s) ==> is_record_id(s@),
{
    let mut bytes = [0u8; 16];
    match getrandom::fill(&mut bytes) {
        Ok(()) => Some(uuid::Builder::from_random_bytes(bytes).into_uuid().simple().to_string()),
        Err(_) => None,
    }
}

} // verus!
