use vstd::prelude::*;

pub mod admin;
pub mod claim_reward;
pub mod constant;
pub mod create_quest;
pub mod end_quest;
pub mod error;
pub mod initialize;
pub mod lifecycle;
pub mod state;
pub mod vote;

pub use admin::{get_total_votes, view_choices, GetTotalVotes, GetTotalVotesOutput, ViewChoices, ViewChoicesOutput};
pub use claim_reward::{ClaimReward, MintRequest};
pub use constant::{MAX_CHOICES, MIN_CHOICES};
pub use create_quest::CreateQuest;
pub use end_quest::EndQuest;
pub use error::AppError;
pub use initialize::Initialize;
pub use state::{Choice, ChoiceView, DaoConfig, Pubkey, Question, QuestionView, VoteRecord};
pub use vote::Vote;

use crate::claim_reward::claim_error;
use crate::create_quest::{after_create, create_quest_error, new_question, strings_view};
use crate::end_quest::end_quest_error;
use crate::vote::{after_vote, vote_error};

verus! {

/// Sets up the DAO: the caller becomes admin and `reward_mint` the reward
/// token; fails with `AlreadyInitialized` if that was done before.
pub fn initialize(ctx: &mut Initialize, reward_mint: Pubkey) -> (r: Result<(), AppError>)
    ensures
        final(ctx).addr == old(ctx).addr,
        old(ctx).dao_config is Some ==> r == Err::<(), AppError>(AppError::AlreadyInitialized)
            && final(ctx).dao_config == old(ctx).dao_config,
        old(ctx).dao_config is None ==> r is Ok && final(ctx).dao_config == Some(
            DaoConfig { admin: old(ctx).addr, total_questions: 0, reward_mint },
        ),
{
    ctx.initialize(reward_mint)
}

/// Publishes question `id`, which must be the next in sequence, and returns
/// it; see `CreateQuest::process`.
pub fn create_quest(
    ctx: &mut CreateQuest,
    id: u64,
    title: String,
    image_uri: String,
    choices: Vec<String>,
    deadline: i64,
    reward_per_vote: u64,
) -> (r: Result<Question, AppError>)
    ensures
        match create_quest_error(old(ctx).dao_config, old(ctx).admin, id, choices@.len()) {
            Some(e) => r == Err::<Question, AppError>(e) && *final(ctx) == *old(ctx),
            None => {
                &&& r is Ok
                &&& r->Ok_0@ == new_question(id, title@, image_uri@, strings_view(choices@), deadline, reward_per_vote)
                &&& r->Ok_0.wf()
                &&& final(ctx).admin == old(ctx).admin
                &&& final(ctx).dao_config == after_create(old(ctx).dao_config)
            },
        },
{
    ctx.process(id, title, image_uri, choices, deadline, reward_per_vote)
}

/// Casts the user's one vote on the question; see `Vote::process`.
pub fn vote(ctx: &mut Vote, choice: u8) -> (r: Result<(), AppError>)
    requires
        old(ctx).question.wf(),
    ensures
        final(ctx).question.wf(),
        final(ctx).user == old(ctx).user,
        match vote_error(old(ctx).question@, old(ctx).vote_record, choice) {
            Some(e) => r == Err::<(), AppError>(e) && *final(ctx) == *old(ctx),
            None => {
                &&& r is Ok
                &&& final(ctx).question@ == old(ctx).question@.with_vote(choice as int)
                &&& final(ctx).vote_record == after_vote(old(ctx).vote_record, choice)
            },
        },
{
    ctx.process(choice)
}

/// Decides a reward claim made at unix time `now` and returns the mint to
/// request; see `ClaimReward::process`.
pub fn claim_reward(ctx: &ClaimReward, now: i64) -> (r: Result<MintRequest, AppError>)
    ensures
        match claim_error(ctx.vote_record, ctx.question.deadline, now) {
            Some(e) => r == Err::<MintRequest, AppError>(e),
            None => r == Ok::<MintRequest, AppError>(ctx.payout()),
        },
{
    ctx.process(now)
}

/// Closes the question; see `EndQuest::process`.
pub fn end_quest(ctx: &mut EndQuest) -> (r: Result<(), AppError>)
    ensures
        final(ctx).admin == old(ctx).admin,
        final(ctx).dao_config == old(ctx).dao_config,
        old(ctx).question.wf() ==> final(ctx).question.wf(),
        match end_quest_error(old(ctx).dao_config, old(ctx).admin, old(ctx).question@) {
            Some(e) => r == Err::<(), AppError>(e) && final(ctx).question == old(ctx).question,
            None => r is Ok && final(ctx).question@ == old(ctx).question@.closed(),
        },
{
    ctx.process()
}

} // verus!
