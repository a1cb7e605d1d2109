//! Fresh identifiers.

use vstd::prelude::*;

verus! {

/// [`uuid::Uuid::new_v4`] as text: an identifier drawn at random, of which only its length is known.
#[verifier::external_body]
pub(crate) fn new_id() -> (r: String)
    ensures
        r@.len() == 36,
{
    uuid::Uuid::new_v4().to_string()
}

} // verus!
