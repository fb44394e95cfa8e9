//! Fresh identifiers for rows of the store, drawn from the `uuid` crate.

use vstd::prelude::*;

verus! {

/// Relies on `uuid::Uuid::new_v4` and the `Display` impl of `Uuid`: a random
/// version-4 UUID rendered in the hyphenated form, which is always 36
/// characters long. The value is random, so nothing else is assumed of it.
#[verifier::external_body]
pub(crate) fn new_uuid() -> (r: String)
    ensures
        r@.len() == 36,
{
    uuid::Uuid::new_v4().to_string()
}

} // verus!
