//! A creator-subscription ledger: time-boxed access in exchange for payment.
//!
//! The library is the verified core of an on-ledger subscription escrow:
//! tier-price resolution, whole-period computation from a payment amount,
//! expiry-extension arithmetic, first-time access-pass and token issuance,
//! and analytics bookkeeping.  The surrounding ledger runtime (caller
//! identity, current height, attached value, balance, value transfer and
//! event emission) is an external collaborator: every operation takes those
//! inputs as plain values and returns what the host shell must act on.

pub mod arith;
pub mod types;
pub mod events;
pub mod record;
pub mod contract;
