use vstd::prelude::*;

verus! {

/// Relies on uuid::Uuid::new_v4 and its Display impl: a random version-4
/// UUID rendered in the hyphenated form, which is always 36 characters.
/// The value is random, so nothing more is promised about it.
#[verifier::external_body]
pub fn new_order_id() -> (r: String)
    ensures
        r@.len() == 36,
{
    uuid::Uuid::new_v4().to_string()
}

} // verus!
