use vstd::prelude::*;

verus! {

/// Errors the pool's instructions report.
#[derive(Debug, Clone, Copy, PartialEq, Eq, Structural)]
pub enum AmmError {
    /// The pool is already locked.
    AlreadyLocked,
    /// The pool has no authority, so it can never be locked.
    NoAuthoritySet,
    /// The signer is not the pool's authority.
    InvalidAuthority,
    /// The pool is locked: deposit, withdraw and swap are disabled.
    PoolLocked,
    /// A zero amount was requested.
    InvalidAmount,
    /// The curve refused the swap (most often: the output fell below the minimum).
    SlippageExceeded,
    /// An amount would fall below zero.
    Underflow,
    /// The treasury account does not match the one stored on the config.
    InvalidTreasury,
}

} // verus!
