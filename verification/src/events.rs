//! Payloads of the fire-and-forget notifications the engine signals.
//!
//! The engine itself performs no emission: the host shell reads these
//! payloads off successful operations and hands them to the ledger
//! runtime's event channel.

use vstd::prelude::*;
use crate::types::AccountId;

verus! {

/// A subscription was accepted.
#[derive(Clone, Copy, PartialEq, Eq, Debug, Structural)]
pub struct Subscribed {
    pub subscriber: AccountId,
    pub periods: u32,
    pub new_expiry: u32,
    pub amount: u128,
    pub tier: u8,
}

/// A subscription was paid for by one account on behalf of another.
#[derive(Clone, Copy, PartialEq, Eq, Debug, Structural)]
pub struct GiftSubscription {
    pub gifter: AccountId,
    pub recipient: AccountId,
    pub periods: u32,
    pub new_expiry: u32,
    pub amount: u128,
    pub tier: u8,
}

/// An account toggled its advisory auto-renewal flag.
#[derive(Clone, Copy, PartialEq, Eq, Debug, Structural)]
pub struct AutoRenewalToggled {
    pub subscriber: AccountId,
    pub enabled: bool,
}

/// A first-time subscriber was issued its access-pass token.
#[derive(Clone, Copy, PartialEq, Eq, Debug, Structural)]
pub struct NFTMinted {
    pub owner: AccountId,
    pub token_id: u64,
}

/// The held balance was paid out to the creator.
#[derive(Clone, Copy, PartialEq, Eq, Debug, Structural)]
pub struct Withdrawn {
    pub to: AccountId,
    pub amount: u128,
}

/// The creator changed the base price or the period length.
#[derive(Clone, Copy, PartialEq, Eq, Debug, Structural)]
pub struct ParamsUpdated {
    pub price_per_period: u128,
    pub period_in_blocks: u32,
}

/// The creator overwrote one tier's price slot.
#[derive(Clone, Copy, PartialEq, Eq, Debug, Structural)]
pub struct TierPriceUpdated {
    pub tier: u8,
    pub price: u128,
}

} // verus!
