//! Identifiers of conversations, calls and toasts.

use uuid::Uuid;
use vstd::prelude::*;

verus! {

/// `uuid::Uuid`: sixteen bytes, carried through as one opaque value.
#[verifier::external_type_specification]
#[verifier::external_body]
pub struct ExUuid(Uuid);

/// `<uuid::Uuid as PartialEq>::eq`, which `uuid` derives: it compares the sixteen bytes
/// that an identifier consists of, so it tells whether the two identifiers are the same
/// value.
#[verifier::external_body]
pub(crate) fn same_id(a: &Uuid, b: &Uuid) -> (res: bool)
    ensures
        res == (*a == *b),
{
    a.eq(b)
}

} // verus!
