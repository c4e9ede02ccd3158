use vstd::prelude::*;

use crate::error::AppError;
use crate::state::{DaoConfig, Pubkey, Question, QuestionView};

verus! {

/// The records that closing a question touches.
pub struct EndQuest {
    pub admin: Pubkey,
    pub dao_config: DaoConfig,
    pub question: Question,
}

/// Why `caller` may not close `q` under `cfg`, checked in this order; `None`
/// when it may.
pub open spec fn end_quest_error(cfg: DaoConfig, caller: Pubkey, q: QuestionView) -> Option<AppError> {
    if caller != cfg.admin {
        Some(AppError::Unauthorized)
    } else if !q.is_active {
        Some(AppError::QuestionAlreadyEnded)
    } else {
        None
    }
}

impl EndQuest {
    /// Closes the question for good, or rejects the request and changes
    /// nothing.
    pub fn process(&mut self) -> (r: Result<(), AppError>)
        ensures
            final(self).admin == old(self).admin,
            final(self).dao_config == old(self).dao_config,
            old(self).question.wf() ==> final(self).question.wf(),
            match end_quest_error(old(self).dao_config, old(self).admin, old(self).question@) {
                Some(e) => r == Err::<(), AppError>(e) && final(self).question == old(self).question,
                None => r is Ok && final(self).question@ == old(self).question@.closed(),
            },
    {
        if self.dao_config.admin != self.admin {
            return Err(AppError::Unauthorized);
        }
        if !self.question.is_active {
            return Err(AppError::QuestionAlreadyEnded);
        }
        self.question.is_active = false;
        Ok(())
    }
}

} // verus!
