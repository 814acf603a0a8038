//! Custody-and-signaling core of a one-way asset bridge.
//!
//! Users deposit native value into an escrow vault; the bridge keeps a
//! cumulative lock counter and a strictly increasing operation nonce, and
//! derives a deterministic 32-byte identifier for every lock so that an
//! off-chain relayer can mint a matching representation on the destination
//! ledger exactly once. A single immutable admin identity may drain the
//! escrow in an emergency.

pub mod bridge;
pub mod error;
pub mod identity;
pub mod laws;
pub mod lock_id;
pub mod state;
