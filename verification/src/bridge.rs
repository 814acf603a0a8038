//! The three state transitions of the bridge: initialize, lock, and
//! emergency withdrawal.
//!
//! Every operation either performs its whole effect or leaves every piece
//! of state untouched; no partial mutation is ever visible.

use crate::error::{BridgeError, LockError};
use crate::identity::Identity;
use crate::lock_id::{derive_lock_id, lock_message, sha256_of};
use crate::state::{
    BridgeInitialized, BridgeState, EmergencyWithdrawal, TokenLocked, ValueAccount,
};
use vstd::prelude::*;

verus! {

/// Whether `caller` may drain the escrow of a ledger in state `s`: the
/// single authorization rule of the bridge, identity equality with the
/// stored admin.
pub open spec fn is_authorized(caller: Seq<u8>, s: BridgeState) -> bool {
    caller == s.admin@
}

/// Whether a lock with these inputs succeeds: a positive amount, a
/// destination of at most 64 bytes, a transfer the host can perform, and
/// two counter increments that fit in 64 bits.
pub open spec fn lock_accepted(
    s: BridgeState,
    depositor_balance: u64,
    escrow_balance: u64,
    amount: u64,
    recipient: Seq<u8>,
) -> bool {
    &&& amount > 0
    &&& recipient.len() <= 64
    &&& depositor_balance >= amount
    &&& escrow_balance + amount <= u64::MAX
    &&& s.total_locked + amount <= u64::MAX
    &&& s.nonce + 1 <= u64::MAX
}

/// The error a rejected lock fails with; the first failed check wins, in
/// the order the operation performs them: amount, destination length,
/// transfer, counter overflow.
pub open spec fn lock_rejection(
    s: BridgeState,
    depositor_balance: u64,
    escrow_balance: u64,
    amount: u64,
    recipient: Seq<u8>,
) -> LockError {
    if amount == 0 {
        LockError::Bridge(BridgeError::InvalidAmount)
    } else if recipient.len() > 64 {
        LockError::Bridge(BridgeError::InvalidRecipient)
    } else if depositor_balance < amount || escrow_balance + amount > u64::MAX {
        LockError::TransferFailed
    } else {
        LockError::Bridge(BridgeError::Overflow)
    }
}

/// The ledger after one accepted lock of `amount`: the admin unchanged,
/// both counters advanced.
pub open spec fn lock_step(s: BridgeState, amount: u64) -> BridgeState {
    BridgeState {
        admin: s.admin,
        total_locked: (s.total_locked + amount) as u64,
        nonce: (s.nonce + 1) as u64,
    }
}

/// Creates the deployment's ledger: the given admin, both counters zero,
/// and the one `BridgeInitialized` event. That a deployment is initialized
/// at most once is the host allocator's guarantee, not application logic.
pub fn initialize(admin: Identity, timestamp: i64) -> (r: (BridgeState, BridgeInitialized))
    ensures
        r.0.admin@ == admin@,
        r.0.total_locked == 0,
        r.0.nonce == 0,
        r.1.admin@ == admin@,
        r.1.timestamp == timestamp,
{
    let state = BridgeState { admin, total_locked: 0, nonce: 0 };
    let event = BridgeInitialized { admin, timestamp };
    (state, event)
}

/// The host ledger's atomic value transfer: moves `amount` from `from` to
/// `to` when `from` holds enough and `to` can take it, and otherwise
/// leaves both balances untouched.
pub fn transfer(from: &mut ValueAccount, to: &mut ValueAccount, amount: u64) -> (r: bool)
    ensures
        r == (old(from).balance >= amount && old(to).balance + amount <= u64::MAX),
        r ==> final(from).balance == old(from).balance - amount && final(to).balance == old(
            to,
        ).balance + amount,
        !r ==> *final(from) == *old(from) && *final(to) == *old(to),
{
    if from.balance >= amount && to.balance <= u64::MAX - amount {
        from.balance = from.balance - amount;
        to.balance = to.balance + amount;
        true
    } else {
        false
    }
}

/// Locks `amount` of the depositor's value in the escrow and emits the
/// `TokenLocked` event the relayer mints from.
///
/// When the inputs are accepted, the depositor's balance moves to the
/// escrow, both counters advance as `lock_step` says, and the event
/// carries the new nonce and the identifier digest; on any failure the
/// error is exactly `lock_rejection`'s and nothing changes.
pub fn lock_sol(
    state: &mut BridgeState,
    depositor: &mut ValueAccount,
    escrow: &mut ValueAccount,
    user: &Identity,
    amount: u64,
    unicity_recipient: Vec<u8>,
    timestamp: i64,
) -> (r: Result<TokenLocked, LockError>)
    ensures
        lock_accepted(
            *old(state),
            old(depositor).balance,
            old(escrow).balance,
            amount,
            unicity_recipient@,
        ) ==> {
            &&& *final(state) == lock_step(*old(state), amount)
            &&& final(depositor).balance == old(depositor).balance - amount
            &&& final(escrow).balance == old(escrow).balance + amount
            &&& r matches Ok(ev) && {
                &&& ev.lock_id@ == sha256_of(
                    lock_message(user@, ((old(state).nonce + 1) as u64), timestamp),
                )
                &&& ev.user@ == user@
                &&& ev.amount == amount
                &&& ev.unicity_recipient@ == unicity_recipient@
                &&& ev.nonce == old(state).nonce + 1
                &&& ev.timestamp == timestamp
            }
        },
        !lock_accepted(
            *old(state),
            old(depositor).balance,
            old(escrow).balance,
            amount,
            unicity_recipient@,
        ) ==> {
            &&& r == Err::<TokenLocked, LockError>(
                lock_rejection(
                    *old(state),
                    old(depositor).balance,
                    old(escrow).balance,
                    amount,
                    unicity_recipient@,
                ),
            )
            &&& *final(state) == *old(state)
            &&& *final(depositor) == *old(depositor)
            &&& *final(escrow) == *old(escrow)
        },
{
    if amount == 0 {
        return Err(LockError::Bridge(BridgeError::InvalidAmount));
    }
    if unicity_recipient.len() > 64 {
        return Err(LockError::Bridge(BridgeError::InvalidRecipient));
    }
    if depositor.balance < amount || escrow.balance > u64::MAX - amount {
        return Err(LockError::TransferFailed);
    }
    let new_total = match state.total_locked.checked_add(amount) {
        Some(v) => v,
        None => {
            return Err(LockError::Bridge(BridgeError::Overflow));
        },
    };
    let new_nonce = match state.nonce.checked_add(1) {
        Some(v) => v,
        None => {
            return Err(LockError::Bridge(BridgeError::Overflow));
        },
    };
    let moved = transfer(depositor, escrow, amount);
    assert(moved);
    state.total_locked = new_total;
    state.nonce = new_nonce;
    let lock_id = derive_lock_id(user, new_nonce, timestamp);
    Ok(
        TokenLocked {
            lock_id,
            user: *user,
            amount,
            unicity_recipient,
            nonce: new_nonce,
            timestamp,
        },
    )
}

/// Drains the escrow to the admin's account, gated only by identity
/// equality with the stored admin; the ledger's counters are historical
/// and stay untouched (the state is not even borrowed mutably).
///
/// The host ledger conserves value, so the admin's balance and the escrow
/// balance always fit in 64 bits together; that is the one precondition.
pub fn emergency_withdraw(
    state: &BridgeState,
    caller: &Identity,
    escrow: &mut ValueAccount,
    admin_account: &mut ValueAccount,
    timestamp: i64,
) -> (r: Result<EmergencyWithdrawal, BridgeError>)
    requires
        is_authorized(caller@, *state) ==> old(admin_account).balance + old(escrow).balance
            <= u64::MAX,
    ensures
        is_authorized(caller@, *state) ==> {
            &&& final(escrow).balance == 0
            &&& final(admin_account).balance == old(admin_account).balance + old(escrow).balance
            &&& r matches Ok(ev) && {
                &&& ev.admin@ == state.admin@
                &&& ev.amount == old(escrow).balance
                &&& ev.timestamp == timestamp
            }
        },
        !is_authorized(caller@, *state) ==> {
            &&& r == Err::<EmergencyWithdrawal, BridgeError>(BridgeError::Unauthorized)
            &&& *final(escrow) == *old(escrow)
            &&& *final(admin_account) == *old(admin_account)
        },
{
    if !caller.matches(&state.admin) {
        return Err(BridgeError::Unauthorized);
    }
    let drained = escrow.balance;
    escrow.balance = 0;
    admin_account.balance = admin_account.balance + drained;
    Ok(EmergencyWithdrawal { admin: state.admin, amount: drained, timestamp })
}

} // verus!
