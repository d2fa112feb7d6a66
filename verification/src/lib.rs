//! A bonding-curve automated market maker for a single asset, with a
//! fee-funded buyback reserve and a one-way graduation transition.
//!
//! The crate verifies the trade arithmetic: the constant-product pricing of
//! buys and sells, the basis-point fee split between platform and reserve,
//! the reserve buyback that runs before a buy and after a sell, the real and
//! virtual reserve accounting, and the graduation state machine. Balance
//! storage and the transfer primitive live outside the crate; the settlement
//! module describes the exact balance movements a trade requires as data.

pub mod account;
pub mod admin;
pub mod consts;
pub mod error;
pub mod events;
pub mod laws;
pub mod pricing;
pub mod settlement;
pub mod trade;
