use unicity_bridge::bridge::{emergency_withdraw, initialize, lock_sol, transfer};
use unicity_bridge::error::{BridgeError, LockError};
use unicity_bridge::identity::Identity;
use unicity_bridge::state::ValueAccount;

#[test]
fn initialize_zeroes_counters() {
    let admin = Identity::new([7u8; 32]);
    let (state, event) = initialize(admin, 1700000000);
    assert_eq!(state.admin.bytes, [7u8; 32]);
    assert_eq!(state.total_locked, 0);
    assert_eq!(state.nonce, 0);
    assert_eq!(event.admin.bytes, [7u8; 32]);
    assert_eq!(event.timestamp, 1700000000);
}

#[test]
fn lock_zero_amount_fails_invalid_amount() {
    let admin = Identity::new([1u8; 32]);
    let (mut state, _) = initialize(admin, 0);
    let mut depositor = ValueAccount { balance: 1_000 };
    let mut escrow = ValueAccount { balance: 0 };
    let user = Identity::new([2u8; 32]);
    let r = lock_sol(&mut state, &mut depositor, &mut escrow, &user, 0, b"addr".to_vec(), 5);
    assert_eq!(r.unwrap_err(), LockError::Bridge(BridgeError::InvalidAmount));
    assert_eq!(state.nonce, 0);
    assert_eq!(state.total_locked, 0);
    assert_eq!(depositor.balance, 1_000);
    assert_eq!(escrow.balance, 0);
}

#[test]
fn lock_recipient_length_boundary() {
    let admin = Identity::new([1u8; 32]);
    let (mut state, _) = initialize(admin, 0);
    let mut depositor = ValueAccount { balance: 1_000 };
    let mut escrow = ValueAccount { balance: 0 };
    let user = Identity::new([2u8; 32]);

    let too_long = vec![b'a'; 65];
    let r = lock_sol(&mut state, &mut depositor, &mut escrow, &user, 10, too_long, 5);
    assert_eq!(r.unwrap_err(), LockError::Bridge(BridgeError::InvalidRecipient));
    assert_eq!(state.nonce, 0);
    assert_eq!(depositor.balance, 1_000);

    let at_cap = vec![b'a'; 64];
    let r = lock_sol(&mut state, &mut depositor, &mut escrow, &user, 10, at_cap, 5);
    let event = r.unwrap();
    assert_eq!(event.nonce, 1);
    assert_eq!(event.unicity_recipient.len(), 64);
    assert_eq!(state.nonce, 1);
    assert_eq!(state.total_locked, 10);
    assert_eq!(depositor.balance, 990);
    assert_eq!(escrow.balance, 10);
}

#[test]
fn lock_empty_recipient_whole_balance() {
    let admin = Identity::new([1u8; 32]);
    let (mut state, _) = initialize(admin, 0);
    let mut depositor = ValueAccount { balance: 42 };
    let mut escrow = ValueAccount { balance: 0 };
    let user = Identity::new([2u8; 32]);
    let r = lock_sol(&mut state, &mut depositor, &mut escrow, &user, 42, Vec::new(), 5);
    let event = r.unwrap();
    assert_eq!(event.amount, 42);
    assert_eq!(event.unicity_recipient, Vec::<u8>::new());
    assert_eq!(depositor.balance, 0);
    assert_eq!(escrow.balance, 42);
    assert_eq!(state.total_locked, 42);
}

#[test]
fn lock_insufficient_balance_fails_transfer() {
    let admin = Identity::new([1u8; 32]);
    let (mut state, _) = initialize(admin, 0);
    let mut depositor = ValueAccount { balance: 5 };
    let mut escrow = ValueAccount { balance: 0 };
    let user = Identity::new([2u8; 32]);
    let r = lock_sol(&mut state, &mut depositor, &mut escrow, &user, 10, b"addr".to_vec(), 5);
    assert_eq!(r.unwrap_err(), LockError::TransferFailed);
    assert_eq!(state.nonce, 0);
    assert_eq!(state.total_locked, 0);
    assert_eq!(depositor.balance, 5);
    assert_eq!(escrow.balance, 0);
}

#[test]
fn lock_total_locked_overflow_leaves_state_unchanged() {
    let admin = Identity::new([1u8; 32]);
    let mut state = initialize(admin, 0).0;
    state.total_locked = u64::MAX - 10;
    state.nonce = 3;
    let mut depositor = ValueAccount { balance: 100 };
    let mut escrow = ValueAccount { balance: 0 };
    let user = Identity::new([2u8; 32]);
    let r = lock_sol(&mut state, &mut depositor, &mut escrow, &user, 11, b"addr".to_vec(), 5);
    assert_eq!(r.unwrap_err(), LockError::Bridge(BridgeError::Overflow));
    assert_eq!(state.total_locked, u64::MAX - 10);
    assert_eq!(state.nonce, 3);
    assert_eq!(depositor.balance, 100);
    assert_eq!(escrow.balance, 0);
}

#[test]
fn lock_nonce_overflow_fails() {
    let admin = Identity::new([1u8; 32]);
    let mut state = initialize(admin, 0).0;
    state.nonce = u64::MAX;
    let mut depositor = ValueAccount { balance: 100 };
    let mut escrow = ValueAccount { balance: 0 };
    let user = Identity::new([2u8; 32]);
    let r = lock_sol(&mut state, &mut depositor, &mut escrow, &user, 10, b"addr".to_vec(), 5);
    assert_eq!(r.unwrap_err(), LockError::Bridge(BridgeError::Overflow));
    assert_eq!(state.nonce, u64::MAX);
    assert_eq!(state.total_locked, 0);
    assert_eq!(depositor.balance, 100);
}

#[test]
fn withdraw_by_non_admin_fails_unauthorized() {
    let admin = Identity::new([1u8; 32]);
    let (state, _) = initialize(admin, 0);
    let mut escrow = ValueAccount { balance: 777 };
    let mut admin_account = ValueAccount { balance: 10 };
    let intruder = Identity::new([9u8; 32]);
    let r = emergency_withdraw(&state, &intruder, &mut escrow, &mut admin_account, 5);
    assert_eq!(r.unwrap_err(), BridgeError::Unauthorized);
    assert_eq!(escrow.balance, 777);
    assert_eq!(admin_account.balance, 10);
}

#[test]
fn withdraw_by_admin_drains_escrow() {
    let admin = Identity::new([1u8; 32]);
    let (mut state, _) = initialize(admin, 0);
    state.total_locked = 777;
    state.nonce = 2;
    let mut escrow = ValueAccount { balance: 777 };
    let mut admin_account = ValueAccount { balance: 10 };
    let caller = Identity::new([1u8; 32]);
    let r = emergency_withdraw(&state, &caller, &mut escrow, &mut admin_account, 5);
    let event = r.unwrap();
    assert_eq!(event.amount, 777);
    assert_eq!(event.admin.bytes, [1u8; 32]);
    assert_eq!(event.timestamp, 5);
    assert_eq!(escrow.balance, 0);
    assert_eq!(admin_account.balance, 787);
    assert_eq!(state.total_locked, 777);
    assert_eq!(state.nonce, 2);
}

#[test]
fn withdraw_of_empty_escrow_succeeds() {
    let admin = Identity::new([1u8; 32]);
    let (state, _) = initialize(admin, 0);
    let mut escrow = ValueAccount { balance: 0 };
    let mut admin_account = ValueAccount { balance: 10 };
    let r = emergency_withdraw(&state, &admin, &mut escrow, &mut admin_account, 5);
    assert_eq!(r.unwrap().amount, 0);
    assert_eq!(escrow.balance, 0);
    assert_eq!(admin_account.balance, 10);
}

#[test]
fn transfer_moves_value_or_nothing() {
    let mut a = ValueAccount { balance: 100 };
    let mut b = ValueAccount { balance: 1 };
    assert!(transfer(&mut a, &mut b, 40));
    assert_eq!(a.balance, 60);
    assert_eq!(b.balance, 41);
    assert!(!transfer(&mut a, &mut b, 61));
    assert_eq!(a.balance, 60);
    assert_eq!(b.balance, 41);
    let mut c = ValueAccount { balance: u64::MAX };
    assert!(!transfer(&mut a, &mut c, 1));
    assert_eq!(a.balance, 60);
    assert_eq!(c.balance, u64::MAX);
}

#[test]
fn scenario_two_locks_then_emergency_withdraw() {
    let admin = Identity::new([0xAAu8; 32]);
    let (mut state, _) = initialize(admin, 100);

    let mut user_u = ValueAccount { balance: 5_000 };
    let mut user_v = ValueAccount { balance: 5_000 };
    let mut escrow = ValueAccount { balance: 0 };
    let u = Identity::new([0x01u8; 32]);
    let v = Identity::new([0x02u8; 32]);

    let r1 = lock_sol(
        &mut state,
        &mut user_u,
        &mut escrow,
        &u,
        1000,
        b"unicity-addr-1".to_vec(),
        101,
    );
    let e1 = r1.unwrap();
    assert_eq!(e1.nonce, 1);
    assert_eq!(e1.amount, 1000);
    assert_eq!(e1.unicity_recipient, b"unicity-addr-1".to_vec());
    assert_eq!(state.nonce, 1);
    assert_eq!(state.total_locked, 1000);

    let r2 = lock_sol(
        &mut state,
        &mut user_v,
        &mut escrow,
        &v,
        500,
        b"unicity-addr-2".to_vec(),
        102,
    );
    let e2 = r2.unwrap();
    assert_eq!(e2.nonce, 2);
    assert_eq!(state.nonce, 2);
    assert_eq!(state.total_locked, 1500);
    assert_eq!(escrow.balance, 1500);

    let mut admin_account = ValueAccount { balance: 0 };
    let r3 = emergency_withdraw(&state, &admin, &mut escrow, &mut admin_account, 103);
    assert_eq!(r3.unwrap().amount, 1500);
    assert_eq!(escrow.balance, 0);
    assert_eq!(admin_account.balance, 1500);
    assert_eq!(state.total_locked, 1500);
    assert_eq!(state.nonce, 2);
}
