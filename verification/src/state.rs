//! Persistent state of the bridge and the events it emits.

use crate::identity::Identity;
use vstd::prelude::*;

verus! {

/// The singleton persistent record of a deployment.
///
/// `total_locked` is a lifetime counter: it sums every amount ever locked
/// and is never decremented, not even by an emergency withdrawal. `nonce`
/// increases by exactly one per successful lock and is never reused.
#[derive(Clone, Copy, Debug)]
pub struct BridgeState {
    /// The sole identity permitted to drain the escrow. Set once; immutable.
    pub admin: Identity,
    /// Cumulative sum of every amount ever locked.
    pub total_locked: u64,
    /// Strictly increasing lock sequence number.
    pub nonce: u64,
}

/// A value-holding account of the host ledger; its only observable
/// property is its balance.
#[derive(Clone, Copy, Debug)]
pub struct ValueAccount {
    pub balance: u64,
}

/// Emitted once, by the deployment's single successful initialization.
#[derive(Clone, Copy, Debug)]
pub struct BridgeInitialized {
    pub admin: Identity,
    pub timestamp: i64,
}

/// The sole on-the-record artifact of one successful lock. The relayer
/// treats `lock_id` as an idempotency key and `nonce` as a gap-detection
/// sequence.
#[derive(Clone, Debug)]
pub struct TokenLocked {
    /// 32-byte digest over depositor bytes, nonce and timestamp.
    pub lock_id: [u8; 32],
    /// The depositor.
    pub user: Identity,
    pub amount: u64,
    /// Recipient identity on the destination ledger, at most 64 bytes.
    pub unicity_recipient: Vec<u8>,
    /// The ledger's nonce after this lock.
    pub nonce: u64,
    pub timestamp: i64,
}

/// Emitted by each successful emergency withdrawal.
#[derive(Clone, Copy, Debug)]
pub struct EmergencyWithdrawal {
    pub admin: Identity,
    /// The escrow balance that was drained, possibly zero.
    pub amount: u64,
    pub timestamp: i64,
}

} // verus!
