//! Random identifiers from the `uuid` crate.
use vstd::prelude::*;

verus! {

/// `uuid::Uuid::new_v4().to_string()`: a random version-4 UUID in its hyphenated lowercase
/// form, which is 36 characters long (its `Display` writes the `LowerHex` form). Which
/// identifier comes out depends on chance and is not stated.
#[verifier::external_body]
pub(crate) fn new_uuid() -> (s: String)
    ensures
        s@.len() == 36,
{
    uuid::Uuid::new_v4().to_string()
}

} // verus!
