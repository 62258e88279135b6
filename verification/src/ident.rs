//! Generation of the unique identifier that names a workspace and its
//! container instance.

use vstd::prelude::*;

verus! {

/// Relies on `uuid::Uuid::new_v4` and the uuid crate's `Display` form: a
/// fresh random version-4 UUID, rendered hyphenated as exactly 36 characters.
/// Nothing is assumed about which identifier comes back; two calls may (with
/// negligible probability) even agree, so no contract here speaks of
/// uniqueness.
#[verifier::external_body]
pub(crate) fn fresh_id() -> (r: String)
    ensures
        r@.len() == 36,
{
    uuid::Uuid::new_v4().to_string()
}

} // verus!
