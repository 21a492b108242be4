use vstd::prelude::*;

verus! {

/// Identifier of a remote tenant. The number carries no meaning here: two
/// identifiers name the same tenant exactly when the numbers are equal.
#[derive(Clone, Copy, Debug, PartialEq, Eq, Structural, Hash)]
pub struct TenantId(pub u64);

} // verus!
