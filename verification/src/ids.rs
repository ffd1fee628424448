//! Identifiers drawn at random.
use vstd::prelude::*;

verus! {

/// `uuid::Uuid::new_v4` in its hyphenated form: 36 characters, drawn at random.
#[verifier::external_body]
pub(crate) fn new_uuid() -> (r: String)
    ensures
        r@.len() == 36,
{
    uuid::Uuid::new_v4().to_string()
}

} // verus!
