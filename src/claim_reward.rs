use vstd::prelude::*;

use crate::error::AppError;
use crate::state::{DaoConfig, Pubkey, Question, VoteRecord};

verus! {

/// The records that a reward claim reads and settles.
pub struct ClaimReward {
    pub user: Pubkey,
    pub dao_config: DaoConfig,
    pub question: Question,
    pub vote_record: VoteRecord,
}

/// A request to the token issuer: mint `amount` units of `mint` to `to`,
/// signed by `authority`.
#[derive(Clone, Copy, Debug, PartialEq, Eq)]
pub struct MintRequest {
    pub mint: Pubkey,
    pub to: Pubkey,
    pub authority: Pubkey,
    pub amount: u64,
}

/// Why a claim by the holder of `record` on a question with `deadline`, made
/// at time `now`, is rejected, checked in this order; `None` when it is owed.
pub open spec fn claim_error(record: VoteRecord, deadline: i64, now: i64) -> Option<AppError> {
    if !record.has_voted {
        Some(AppError::NotVote)
    } else if record.claimed {
        Some(AppError::AlreadyClaimed)
    } else if now <= deadline {
        Some(AppError::NotAfterDeadline)
    } else {
        None
    }
}

/// The voter's record once its reward has been paid.
pub open spec fn after_claim(record: VoteRecord) -> VoteRecord {
    VoteRecord { claimed: true, ..record }
}

impl ClaimReward {
    /// The payout of an accepted claim: the question's reward in the
    /// configured token, to the user, under the admin's authority.
    pub open spec fn payout(&self) -> MintRequest {
        MintRequest {
            mint: self.dao_config.reward_mint,
            to: self.user,
            authority: self.dao_config.admin,
            amount: self.question.reward_per_vote,
        }
    }

    /// Decides a claim made at unix time `now`. On success it returns the
    /// mint to request; the claim is settled by `record_claim` once the
    /// issuer has minted, so a failed mint leaves the claim open.
    pub fn process(&self, now: i64) -> (r: Result<MintRequest, AppError>)
        ensures
            match claim_error(self.vote_record, self.question.deadline, now) {
                Some(e) => r == Err::<MintRequest, AppError>(e),
                None => r == Ok::<MintRequest, AppError>(self.payout()),
            },
    {
        if !self.vote_record.has_voted {
            return Err(AppError::NotVote);
        }
        if self.vote_record.claimed {
            return Err(AppError::AlreadyClaimed);
        }
        if now <= self.question.deadline {
            return Err(AppError::NotAfterDeadline);
        }
        Ok(MintRequest {
            mint: self.dao_config.reward_mint,
            to: self.user,
            authority: self.dao_config.admin,
            amount: self.question.reward_per_vote,
        })
    }

    /// Marks the reward as paid, after the issuer has minted it.
    pub fn record_claim(&mut self)
        ensures
            final(self).vote_record == after_claim(old(self).vote_record),
            final(self).user == old(self).user,
            final(self).dao_config == old(self).dao_config,
            final(self).question == old(self).question,
    {
        self.vote_record.claimed = true;
    }
}

} // verus!
