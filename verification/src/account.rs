use vstd::prelude::*;

use crate::consts::MAX_FEE_BPS;

verus! {

/// An account identity. The surrounding ledger resolves it to a balance
/// record; the curve logic only ever compares identities for equality,
/// so an opaque token is all it keeps.
#[derive(Clone, Copy, Debug, PartialEq, Eq, Structural)]
pub struct Pubkey(pub u64);

/// The singleton configuration: fee rates, seed values for new curves,
/// and the graduation policy. Written once at initialization and again
/// only by the configured authority.
#[derive(Clone, Copy, Debug, PartialEq, Eq, Structural)]
pub struct Global {
    /// Identity permitted to update the configuration and withdraw
    /// matured curve funds.
    pub authority: Pubkey,
    /// Identity receiving the platform share of trade fees.
    pub platform_fee_recipient: Pubkey,
    /// Keyless authority controlling the shared reserve's balance records.
    pub reserve: Pubkey,
    /// Virtual token reserves a newly created curve starts with.
    pub initial_virtual_token_reserves: u64,
    /// Virtual native reserves a newly created curve starts with.
    pub initial_virtual_sol_reserves: u64,
    /// Fixed quantity minted for each asset at creation.
    pub token_total_supply: u64,
    /// Platform fee rate in basis points.
    pub platform_trade_fee_bps: u64,
    /// Reserve-buyback fee rate in basis points.
    pub reserve_trade_fee_bps: u64,
    /// Real native balance at which a curve graduates and stops trading.
    pub graduation_threshold: u64,
}

impl Global {
    /// Configuration invariant: the combined trade fee never exceeds the
    /// 30% cap. Every write path re-establishes it.
    pub open spec fn wf(self) -> bool {
        self.platform_trade_fee_bps + self.reserve_trade_fee_bps <= MAX_FEE_BPS
    }

    /// Combined fee rate, as a mathematical integer.
    pub open spec fn total_fee_bps(self) -> int {
        self.platform_trade_fee_bps + self.reserve_trade_fee_bps
    }
}

/// Per-asset curve state: synthetic pricing reserves, custodied balances,
/// and the one-way completion flag. Mutated by every trade, never deleted.
#[derive(Clone, Copy, Debug, PartialEq, Eq, Structural)]
pub struct BondingCurve {
    /// The asset this curve prices.
    pub mint: Pubkey,
    /// Identity recorded as the asset's creator.
    pub creator: Pubkey,
    /// Synthetic token-side liquidity, used only for pricing.
    pub virtual_token_reserves: u64,
    /// Synthetic native-side liquidity, used only for pricing.
    pub virtual_sol_reserves: u64,
    /// Actual custodied token balance backing trades.
    pub real_token_reserves: u64,
    /// Actual custodied native balance backing trades.
    pub real_sol_reserves: u64,
    /// Copied from the configuration at creation; immutable thereafter.
    pub token_total_supply: u64,
    /// False until graduation; set to true at most once, never reset.
    pub complete: bool,
}

} // verus!
