use vstd::prelude::*;

verus! {

/// Upper bound on the combined platform and reserve trade fee (30%),
/// enforced on every configuration write.
pub const MAX_FEE_BPS: u64 = 3000;

/// Basis-point denominator: 10000 basis points are 100%.
pub const BPS_DENOMINATOR: u64 = 10000;

} // verus!
