use vstd::prelude::*;

use crate::account::Pubkey;

verus! {

/// Direction of a trade, as carried on the trade notification.
#[derive(Clone, Copy, Debug, PartialEq, Eq, Structural)]
pub enum TradeSide {
    Buy,
    Sell,
}

/// Emitted once when an asset and its curve are created.
#[derive(Clone, Copy, Debug, PartialEq, Eq, Structural)]
pub struct TokenCreated {
    pub mint: Pubkey,
    pub creator: Pubkey,
}

/// Emitted after every settled trade, for off-system indexers.
#[derive(Clone, Copy, Debug, PartialEq, Eq, Structural)]
pub struct Trade {
    pub mint: Pubkey,
    pub trader: Pubkey,
    pub side: TradeSide,
    /// Native units: the amount paid in on a buy, the net proceeds on a sell.
    pub sol_amount: u64,
    /// Token units the trader received or sold.
    pub token_amount: u64,
}

/// Emitted once, when a buy pushes the curve across its graduation
/// threshold.
#[derive(Clone, Copy, Debug, PartialEq, Eq, Structural)]
pub struct CurveComplete {
    pub mint: Pubkey,
    pub bonding_curve: Pubkey,
}

} // verus!
