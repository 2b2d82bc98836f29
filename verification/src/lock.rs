use vstd::prelude::*;

use crate::error::AmmError;
use crate::state::{Config, Pubkey};

verus! {

/// What locking `config` on behalf of `signer` yields: the locked
/// configuration, or the reason it is refused.
pub open spec fn lock_outcome(config: Config, signer: Pubkey) -> Result<Config, AmmError> {
    if config.locked {
        Err(AmmError::AlreadyLocked)
    } else if config.authority is None {
        Err(AmmError::NoAuthoritySet)
    } else if config.authority->0 != signer {
        Err(AmmError::InvalidAuthority)
    } else {
        Ok(Config { locked: true, ..config })
    }
}

/// The accounts of the `lock` instruction: the signer and the pool's config.
pub struct Lock {
    /// The key of the account that signed the instruction.
    pub authority: Pubkey,
    /// The pool's configuration.
    pub config: Config,
}

impl Lock {
    /// Locks the pool for good: afterwards deposit, withdraw and swap are
    /// refused. Only the pool's authority may lock it, and only once.
    pub fn lock(&mut self) -> (r: Result<(), AmmError>)
        ensures
            final(self).authority == old(self).authority,
            match lock_outcome(old(self).config, old(self).authority) {
                Ok(locked) => r is Ok && final(self).config == locked,
                Err(e) => r == Err::<(), AmmError>(e) && final(self).config == old(self).config,
            },
    {
        if self.config.locked {
            return Err(AmmError::AlreadyLocked);
        }
        if self.config.authority.is_none() {
            return Err(AmmError::NoAuthoritySet);
        }
        let authority = self.config.authority.unwrap();
        if authority != self.authority {
            return Err(AmmError::InvalidAuthority);
        }
        self.config.locked = true;
        Ok(())
    }
}

} // verus!
