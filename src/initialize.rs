use vstd::prelude::*;

use crate::error::AppError;
use crate::state::{DaoConfig, Pubkey};

verus! {

/// The caller and the configuration slot, empty until initialization.
pub struct Initialize {
    pub addr: Pubkey,
    pub dao_config: Option<DaoConfig>,
}

impl Initialize {
    /// Creates the configuration with the caller as admin, `reward_mint` as
    /// the reward token and no questions; fails if it exists already.
    pub fn initialize(&mut self, reward_mint: Pubkey) -> (r: Result<(), AppError>)
        ensures
            final(self).addr == old(self).addr,
            old(self).dao_config is Some ==> r == Err::<(), AppError>(AppError::AlreadyInitialized)
                && final(self).dao_config == old(self).dao_config,
            old(self).dao_config is None ==> r is Ok && final(self).dao_config == Some(
                DaoConfig { admin: old(self).addr, total_questions: 0, reward_mint },
            ),
    {
        if self.dao_config.is_some() {
            return Err(AppError::AlreadyInitialized);
        }
        self.dao_config = Some(DaoConfig { admin: self.addr, total_questions: 0, reward_mint });
        Ok(())
    }
}

} // verus!
