//! The bridge's general guarantees, stated and proved once over all
//! inputs: how counters evolve over any run of locks, and when two lock
//! identifier derivations agree.

use crate::bridge::lock_step;
use crate::lock_id::{i64_le_bytes, le_byte, lock_message, sha256_of, u64_le_bytes};
use crate::state::BridgeState;
use vstd::prelude::*;

verus! {

/// The sum of a sequence of lock amounts.
pub open spec fn sum(amounts: Seq<u64>) -> int
    decreases amounts.len(),
{
    if amounts.len() == 0 {
        0
    } else {
        amounts[0] + sum(amounts.drop_first())
    }
}

/// The ledger after a whole run of accepted locks, one per amount, in
/// order.
pub open spec fn apply_locks(s: BridgeState, amounts: Seq<u64>) -> BridgeState
    decreases amounts.len(),
{
    if amounts.len() == 0 {
        s
    } else {
        apply_locks(lock_step(s, amounts[0]), amounts.drop_first())
    }
}

/// A sum of unsigned amounts is never negative.
pub proof fn lemma_sum_nonneg(amounts: Seq<u64>)
    ensures
        sum(amounts) >= 0,
    decreases amounts.len(),
{
    if amounts.len() > 0 {
        lemma_sum_nonneg(amounts.drop_first());
    }
}

/// Over any run of successful locks that fits in the counters, the nonce
/// grows by exactly one per lock, the cumulative total grows by exactly
/// the sum of the amounts, and the admin never changes. Neither counter
/// ever decreases; an emergency withdrawal cannot touch them at all, since
/// it only reads the ledger.
pub proof fn lemma_lock_run(s: BridgeState, amounts: Seq<u64>)
    requires
        s.total_locked + sum(amounts) <= u64::MAX,
        s.nonce + amounts.len() <= u64::MAX,
    ensures
        apply_locks(s, amounts).admin == s.admin,
        apply_locks(s, amounts).nonce == s.nonce + amounts.len(),
        apply_locks(s, amounts).total_locked == s.total_locked + sum(amounts),
    decreases amounts.len(),
{
    if amounts.len() > 0 {
        lemma_sum_nonneg(amounts.drop_first());
        lemma_lock_run(lock_step(s, amounts[0]), amounts.drop_first());
    }
}

/// Little-endian encoding loses nothing: equal encodings mean equal
/// numbers.
pub proof fn lemma_u64_le_bytes_injective(x: u64, y: u64)
    requires
        u64_le_bytes(x) == u64_le_bytes(y),
    ensures
        x == y,
{
    assert(le_byte(x, 0) == le_byte(y, 0)) by {
        assert(u64_le_bytes(x)[0] == u64_le_bytes(y)[0]);
    }
    assert(le_byte(x, 1) == le_byte(y, 1)) by {
        assert(u64_le_bytes(x)[1] == u64_le_bytes(y)[1]);
    }
    assert(le_byte(x, 2) == le_byte(y, 2)) by {
        assert(u64_le_bytes(x)[2] == u64_le_bytes(y)[2]);
    }
    assert(le_byte(x, 3) == le_byte(y, 3)) by {
        assert(u64_le_bytes(x)[3] == u64_le_bytes(y)[3]);
    }
    assert(le_byte(x, 4) == le_byte(y, 4)) by {
        assert(u64_le_bytes(x)[4] == u64_le_bytes(y)[4]);
    }
    assert(le_byte(x, 5) == le_byte(y, 5)) by {
        assert(u64_le_bytes(x)[5] == u64_le_bytes(y)[5]);
    }
    assert(le_byte(x, 6) == le_byte(y, 6)) by {
        assert(u64_le_bytes(x)[6] == u64_le_bytes(y)[6]);
    }
    assert(le_byte(x, 7) == le_byte(y, 7)) by {
        assert(u64_le_bytes(x)[7] == u64_le_bytes(y)[7]);
    }
    assert(x == y) by (bit_vector)
        requires
            le_byte(x, 0) == le_byte(y, 0),
            le_byte(x, 1) == le_byte(y, 1),
            le_byte(x, 2) == le_byte(y, 2),
            le_byte(x, 3) == le_byte(y, 3),
            le_byte(x, 4) == le_byte(y, 4),
            le_byte(x, 5) == le_byte(y, 5),
            le_byte(x, 6) == le_byte(y, 6),
            le_byte(x, 7) == le_byte(y, 7),
    ;
}

/// The signed encoding loses nothing either.
pub proof fn lemma_i64_le_bytes_injective(x: i64, y: i64)
    requires
        i64_le_bytes(x) == i64_le_bytes(y),
    ensures
        x == y,
{
    lemma_u64_le_bytes_injective(x as u64, y as u64);
    assert(x == y) by (bit_vector)
        requires
            x as u64 == y as u64,
    ;
}

/// Two lock derivations hash the very same bytes exactly when depositor,
/// nonce and timestamp all agree: replaying a `(depositor, nonce,
/// timestamp)` triple reproduces the identifier, and any change to the
/// triple changes the hashed message.
pub proof fn lemma_lock_message_injective(
    d1: Seq<u8>,
    n1: u64,
    t1: i64,
    d2: Seq<u8>,
    n2: u64,
    t2: i64,
)
    requires
        d1.len() == 32,
        d2.len() == 32,
        lock_message(d1, n1, t1) == lock_message(d2, n2, t2),
    ensures
        d1 == d2,
        n1 == n2,
        t1 == t2,
{
    let m1 = lock_message(d1, n1, t1);
    let m2 = lock_message(d2, n2, t2);
    assert(d1 =~= d2) by {
        assert forall|i: int| 0 <= i < 32 implies d1[i] == d2[i] by {
            assert(m1[i] == d1[i]);
            assert(m2[i] == d2[i]);
        }
    }
    assert(u64_le_bytes(n1) =~= u64_le_bytes(n2)) by {
        assert forall|i: int| 0 <= i < 8 implies u64_le_bytes(n1)[i] == u64_le_bytes(n2)[i] by {
            assert(m1[32 + i] == u64_le_bytes(n1)[i]);
            assert(m2[32 + i] == u64_le_bytes(n2)[i]);
        }
    }
    lemma_u64_le_bytes_injective(n1, n2);
    assert(i64_le_bytes(t1) =~= i64_le_bytes(t2)) by {
        assert forall|i: int| 0 <= i < 8 implies i64_le_bytes(t1)[i] == i64_le_bytes(t2)[i] by {
            assert(m1[40 + i] == i64_le_bytes(t1)[i]);
            assert(m2[40 + i] == i64_le_bytes(t2)[i]);
        }
    }
    lemma_i64_le_bytes_injective(t1, t2);
}

/// A lock's identifier is determined by the triple alone: replaying it
/// anywhere yields the same 32 bytes.
pub proof fn lemma_lock_id_deterministic(
    d1: Seq<u8>,
    n1: u64,
    t1: i64,
    d2: Seq<u8>,
    n2: u64,
    t2: i64,
)
    requires
        d1 == d2,
        n1 == n2,
        t1 == t2,
    ensures
        sha256_of(lock_message(d1, n1, t1)) == sha256_of(lock_message(d2, n2, t2)),
{
}

} // verus!
