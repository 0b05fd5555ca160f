use vstd::prelude::*;

verus! {

/// Relies on uuid::Uuid::new_v4 and its hyphenated textual form: a fresh
/// version-4 identifier of exactly 36 characters. The value is random, so
/// nothing more is promised of it.
#[verifier::external_body]
pub(crate) fn fresh_uuid() -> (r: String)
    ensures
        r@.len() == 36,
{
    uuid::Uuid::new_v4().to_string()
}

} // verus!
