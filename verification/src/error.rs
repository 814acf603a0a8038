//! Error taxonomy of the bridge core.

use vstd::prelude::*;

verus! {

/// The four terminal failures of the bridge's own logic.
#[derive(Clone, Copy, Debug, PartialEq, Eq, Structural)]
pub enum BridgeError {
    /// A lock amount of zero.
    InvalidAmount,
    /// A destination address longer than 64 bytes.
    InvalidRecipient,
    /// A withdrawal attempted by an identity other than the stored admin.
    Unauthorized,
    /// A counter would exceed its representable range.
    Overflow,
}

/// Everything a lock operation can fail with: one of the bridge's own
/// errors, or a failure of the host's value-transfer capability
/// (insufficient depositor balance, or an escrow balance that cannot take
/// the deposit), which propagates unchanged.
#[derive(Clone, Copy, Debug, PartialEq, Eq, Structural)]
pub enum LockError {
    /// A failure of the bridge's own validation or accounting.
    Bridge(BridgeError),
    /// The host's transfer of value from the depositor to the escrow failed.
    TransferFailed,
}

} // verus!
