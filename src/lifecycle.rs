use vstd::prelude::*;

use crate::claim_reward::{after_claim, claim_error};
use crate::create_quest::{after_create, create_quest_error};
use crate::end_quest::end_quest_error;
use crate::error::AppError;
use crate::state::{DaoConfig, Pubkey, QuestionView, VoteRecord};
use crate::vote::{after_vote, vote_error};

verus! {

/// One request to create a question: who asks, for which id, with how many
/// choices.
pub struct CreateCall {
    pub caller: Pubkey,
    pub id: u64,
    pub n_choices: nat,
}

/// The configuration after `calls` have been made in order, starting from
/// `cfg`, and the ids of the questions that were created, in order.
pub open spec fn run_creates(cfg: DaoConfig, calls: Seq<CreateCall>) -> (DaoConfig, Seq<u64>)
    decreases calls.len(),
{
    if calls.len() == 0 {
        (cfg, Seq::empty())
    } else {
        let (before, ids) = run_creates(cfg, calls.drop_last());
        let call = calls.last();
        if create_quest_error(before, call.caller, call.id, call.n_choices) is None {
            (after_create(before), ids.push(call.id))
        } else {
            (before, ids)
        }
    }
}

proof fn lemma_run_creates_from(cfg: DaoConfig, calls: Seq<CreateCall>)
    ensures
        run_creates(cfg, calls).0.total_questions >= cfg.total_questions,
        run_creates(cfg, calls).0.admin == cfg.admin,
        run_creates(cfg, calls).0.reward_mint == cfg.reward_mint,
        run_creates(cfg, calls).1 == Seq::new(
            (run_creates(cfg, calls).0.total_questions - cfg.total_questions) as nat,
            |i: int| (cfg.total_questions + i) as u64,
        ),
    decreases calls.len(),
{
    if calls.len() > 0 {
        lemma_run_creates_from(cfg, calls.drop_last());
        let (before, ids) = run_creates(cfg, calls.drop_last());
        let call = calls.last();
        if create_quest_error(before, call.caller, call.id, call.n_choices) is None {
            assert(ids.push(call.id) =~= Seq::new(
                (after_create(before).total_questions - cfg.total_questions) as nat,
                |i: int| (cfg.total_questions + i) as u64,
            ));
        }
    }
}

/// Question ids are handed out without gaps or repeats: starting from a fresh
/// configuration, whatever requests come in, the questions created carry
/// exactly the ids `0, 1, ..., total_questions - 1`, in that order.
pub proof fn lemma_question_ids_contiguous(cfg: DaoConfig, calls: Seq<CreateCall>)
    requires
        cfg.total_questions == 0,
    ensures
        run_creates(cfg, calls).1 == Seq::new(
            run_creates(cfg, calls).0.total_questions as nat,
            |i: int| i as u64,
        ),
{
    lemma_run_creates_from(cfg, calls);
    assert(run_creates(cfg, calls).1 =~= Seq::new(
        run_creates(cfg, calls).0.total_questions as nat,
        |i: int| i as u64,
    ));
}

/// One operation on a (user, question) record: a vote for `choice` on the
/// question as it then stands, or a reward claim at time `now` against the
/// question's deadline, where `minted` tells whether the token issuer paid.
pub enum RecordEvent {
    Vote { question: QuestionView, choice: u8 },
    Claim { deadline: i64, now: i64, minted: bool },
}

/// The record after `events` in order, starting from `record`, with the
/// number of votes and of claims that were accepted. A claim is settled only
/// when it passes its checks and the issuer paid; otherwise the record stays
/// as it was and the claim may be made again.
pub open spec fn replay(record: VoteRecord, events: Seq<RecordEvent>) -> (VoteRecord, nat, nat)
    decreases events.len(),
{
    if events.len() == 0 {
        (record, 0, 0)
    } else {
        let (r, votes, claims) = replay(record, events.drop_last());
        match events.last() {
            RecordEvent::Vote { question, choice } => {
                if vote_error(question, r, choice) is None {
                    (after_vote(r, choice), votes + 1, claims)
                } else {
                    (r, votes, claims)
                }
            },
            RecordEvent::Claim { deadline, now, minted } => {
                if claim_error(r, deadline, now) is None && minted {
                    (after_claim(r), votes, claims + 1)
                } else {
                    (r, votes, claims)
                }
            },
        }
    }
}

proof fn lemma_replay_latches(events: Seq<RecordEvent>)
    ensures
        replay(VoteRecord::fresh(), events).1 <= 1,
        replay(VoteRecord::fresh(), events).2 <= replay(VoteRecord::fresh(), events).1,
        replay(VoteRecord::fresh(), events).0.has_voted == (replay(VoteRecord::fresh(), events).1 == 1),
        replay(VoteRecord::fresh(), events).0.claimed == (replay(VoteRecord::fresh(), events).2 == 1),
    decreases events.len(),
{
    if events.len() > 0 {
        lemma_replay_latches(events.drop_last());
    }
}

/// Each user votes at most once and is paid at most once per question, and
/// never paid without having voted: over any history of votes and claims on
/// one record, at most one vote and at most one claim are accepted, and no
/// more claims than votes.
pub proof fn lemma_one_vote_one_claim(events: Seq<RecordEvent>)
    ensures
        replay(VoteRecord::fresh(), events).1 <= 1,
        replay(VoteRecord::fresh(), events).2 <= 1,
        replay(VoteRecord::fresh(), events).2 <= replay(VoteRecord::fresh(), events).1,
{
    lemma_replay_latches(events);
}

/// Once a vote of a user has been accepted, every later vote of that user on
/// that question fails, whatever happened in between: with
/// `QuestionAlreadyVoted` while the question is open, with
/// `QuestionInActive` once it is closed.
pub proof fn lemma_second_vote_rejected(
    question: QuestionView,
    record: VoteRecord,
    choice: u8,
    events: Seq<RecordEvent>,
    later: QuestionView,
    later_choice: u8,
)
    requires
        vote_error(question, record, choice) is None,
    ensures
        vote_error(later, replay(after_vote(record, choice), events).0, later_choice) == Some(
            if later.is_active { AppError::QuestionAlreadyVoted } else { AppError::QuestionInActive },
        ),
{
    lemma_voted_stays_voted(after_vote(record, choice), events);
}

proof fn lemma_voted_stays_voted(record: VoteRecord, events: Seq<RecordEvent>)
    requires
        record.has_voted,
    ensures
        replay(record, events).0.has_voted,
    decreases events.len(),
{
    if events.len() > 0 {
        lemma_voted_stays_voted(record, events.drop_last());
    }
}

/// Once a claim of a user has been paid, every later claim of that user on
/// that question fails with `AlreadyClaimed`, at any time and whatever
/// happened in between.
pub proof fn lemma_second_claim_rejected(
    record: VoteRecord,
    deadline: i64,
    now: i64,
    events: Seq<RecordEvent>,
    later_deadline: i64,
    later_now: i64,
)
    requires
        claim_error(record, deadline, now) is None,
    ensures
        claim_error(replay(after_claim(record), events).0, later_deadline, later_now) == Some(
            AppError::AlreadyClaimed,
        ),
{
    lemma_claimed_stays_claimed(after_claim(record), events);
}

proof fn lemma_claimed_stays_claimed(record: VoteRecord, events: Seq<RecordEvent>)
    requires
        record.has_voted,
        record.claimed,
    ensures
        replay(record, events).0.has_voted,
        replay(record, events).0.claimed,
    decreases events.len(),
{
    if events.len() > 0 {
        lemma_claimed_stays_claimed(record, events.drop_last());
    }
}

/// A closed question takes no more votes and cannot be closed again: after an
/// accepted close, any vote fails with `QuestionInActive`, a second close by
/// the admin fails with `QuestionAlreadyEnded`, and one by anyone else fails.
pub proof fn lemma_closed_question(
    cfg: DaoConfig,
    caller: Pubkey,
    question: QuestionView,
    record: VoteRecord,
    choice: u8,
    other: Pubkey,
)
    requires
        end_quest_error(cfg, caller, question) is None,
    ensures
        vote_error(question.closed(), record, choice) == Some(AppError::QuestionInActive),
        end_quest_error(cfg, cfg.admin, question.closed()) == Some(AppError::QuestionAlreadyEnded),
        end_quest_error(cfg, other, question.closed()) is Some,
{
}

} // verus!
