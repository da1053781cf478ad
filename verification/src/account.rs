use vstd::prelude::*;

verus! {

/// Opaque account identifier.
///
/// The ledger only ever compares identifiers for equality; nothing is read
/// out of their internal structure.  The host platform decides what an
/// address really is and maps it onto this value.
#[derive(Clone, Copy, PartialEq, Eq, Structural, Debug)]
pub struct AccountId(pub u128);

} // verus!
