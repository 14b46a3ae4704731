//! Identities, tiers and the error taxonomy of the subscription ledger.

use vstd::prelude::*;

verus! {

/// A 256-bit ledger account identity, held as two plain halves.
///
/// The engine only ever compares identities for equality; the host shell
/// converts the runtime's 32-byte account ids to and from this form.
#[derive(Clone, Copy, PartialEq, Eq, Hash, Debug, Structural)]
pub struct AccountId {
    pub hi: u128,
    pub lo: u128,
}

/// The three subscription tiers, in ascending price order.
///
/// Tier arguments travel as raw `u8` indices (0, 1, 2) exactly as the
/// callable surface does; this enum names them.
#[derive(Clone, Copy, PartialEq, Eq, Debug, Structural)]
pub enum SubscriptionTier {
    Bronze,
    Silver,
    Gold,
}

impl SubscriptionTier {
    /// The tier's index in the pricing table.
    pub fn index(self) -> (r: u8)
        ensures
            self == SubscriptionTier::Bronze ==> r == 0,
            self == SubscriptionTier::Silver ==> r == 1,
            self == SubscriptionTier::Gold ==> r == 2,
    {
        match self {
            SubscriptionTier::Bronze => 0,
            SubscriptionTier::Silver => 1,
            SubscriptionTier::Gold => 2,
        }
    }
}

/// Every way an operation can fail, surfaced as an explicit value.
#[derive(Clone, Copy, PartialEq, Eq, Debug, Structural)]
pub enum Error {
    /// The tier index lies outside {0, 1, 2}.
    InvalidTier,
    /// The tier's price slot is zero, so it accepts no subscriptions.
    TierNotConfigured,
    /// The attached amount is below the tier's per-period price.
    InsufficientFunds,
    /// A privileged operation was called by somebody other than the creator.
    Unauthorized,
    /// The ledger's value-transfer primitive rejected a withdrawal.
    TransferFailed,
}

} // verus!
