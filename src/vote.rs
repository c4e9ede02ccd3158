use vstd::prelude::*;

use crate::error::AppError;
use crate::state::{lemma_sum_votes_bounds, lemma_sum_votes_bump, Pubkey, Question, QuestionView, VoteRecord};

verus! {

/// The records that a vote touches: the voter, the question, and the voter's
/// record for that question (created fresh on a first vote).
pub struct Vote {
    pub user: Pubkey,
    pub question: Question,
    pub vote_record: VoteRecord,
}

/// Why a vote for `choice` on `q` by the holder of `record` is rejected,
/// checked in this order; `None` when it is accepted.
pub open spec fn vote_error(q: QuestionView, record: VoteRecord, choice: u8) -> Option<AppError> {
    if !q.is_active {
        Some(AppError::QuestionInActive)
    } else if record.has_voted {
        Some(AppError::QuestionAlreadyVoted)
    } else if choice >= q.choices.len() {
        Some(AppError::InvalidChoices)
    } else if q.choices[choice as int].total_votes == u8::MAX {
        Some(AppError::Overflow)
    } else {
        None
    }
}

/// The voter's record once a vote for `choice` has been accepted.
pub open spec fn after_vote(record: VoteRecord, choice: u8) -> VoteRecord {
    VoteRecord { choice, has_voted: true, ..record }
}

impl Vote {
    /// Casts the user's one vote for `choice`: the record is marked and the
    /// choice's tally and the question's total each go up by one, all
    /// together, or nothing changes.
    pub fn process(&mut self, choice: u8) -> (r: Result<(), AppError>)
        requires
            old(self).question.wf(),
        ensures
            final(self).question.wf(),
            final(self).user == old(self).user,
            match vote_error(old(self).question@, old(self).vote_record, choice) {
                Some(e) => r == Err::<(), AppError>(e) && *final(self) == *old(self),
                None => {
                    &&& r is Ok
                    &&& final(self).question@ == old(self).question@.with_vote(choice as int)
                    &&& final(self).vote_record == after_vote(old(self).vote_record, choice)
                },
            },
    {
        if !self.question.is_active {
            return Err(AppError::QuestionInActive);
        }
        if self.vote_record.has_voted {
            return Err(AppError::QuestionAlreadyVoted);
        }
        let c = choice as usize;
        if c >= self.question.choices.len() {
            return Err(AppError::InvalidChoices);
        }
        let tally = self.question.choices[c].total_votes;
        if tally == u8::MAX {
            return Err(AppError::Overflow);
        }
        let ghost before = self.question@;
        proof {
            lemma_sum_votes_bounds(before.choices);
        }
        self.vote_record.choice = choice;
        self.vote_record.has_voted = true;
        self.question.choices[c].total_votes = tally + 1;
        self.question.total_votes = self.question.total_votes + 1;
        proof {
            let after = before.with_vote(c as int);
            assert(self.question@.choices =~= after.choices);
            lemma_sum_votes_bump(before.choices, c as int, after.choices[c as int]);
        }
        Ok(())
    }
}

} // verus!
