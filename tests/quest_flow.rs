use news_quest::{
    claim_reward, create_quest, end_quest, get_total_votes, initialize, view_choices, vote,
    AppError, ClaimReward, CreateQuest, DaoConfig, EndQuest, GetTotalVotes, Initialize,
    MintRequest, Pubkey, Question, ViewChoices, Vote, VoteRecord, MAX_CHOICES, MIN_CHOICES,
};

fn key(b: u8) -> Pubkey {
    Pubkey::new([b; 32])
}

fn admin() -> Pubkey {
    key(1)
}

fn mint() -> Pubkey {
    key(7)
}

fn strings(items: &[&str]) -> Vec<String> {
    items.iter().map(|s| s.to_string()).collect()
}

fn fresh_config() -> DaoConfig {
    let mut init = Initialize { addr: admin(), dao_config: None };
    initialize(&mut init, mint()).unwrap();
    init.dao_config.unwrap()
}

fn new_question(cfg: DaoConfig, choices: &[&str], deadline: i64, reward: u64) -> (DaoConfig, Question) {
    let mut ctx = CreateQuest { admin: admin(), dao_config: cfg };
    let id = cfg.total_questions;
    let q = create_quest(
        &mut ctx,
        id,
        "Title".to_string(),
        "ipfs://image".to_string(),
        strings(choices),
        deadline,
        reward,
    )
    .unwrap();
    (ctx.dao_config, q)
}

#[test]
fn initialize_sets_admin_mint_and_zero_counter() {
    let cfg = fresh_config();
    assert_eq!(cfg.admin, admin());
    assert_eq!(cfg.reward_mint, mint());
    assert_eq!(cfg.total_questions, 0);
}

#[test]
fn initialize_twice_fails() {
    let mut init = Initialize { addr: admin(), dao_config: None };
    assert_eq!(initialize(&mut init, mint()), Ok(()));
    let before = init.dao_config;
    let mut again = Initialize { addr: key(9), dao_config: before };
    assert_eq!(initialize(&mut again, key(8)), Err(AppError::AlreadyInitialized));
    assert_eq!(again.dao_config, before);
}

#[test]
fn full_round_vote_then_claim_after_deadline() {
    let deadline: i64 = 1_000;
    let user = key(42);
    let cfg = fresh_config();
    let (cfg, q) = new_question(cfg, &["A", "B"], deadline, 100);
    assert_eq!(q.id, 0);
    assert_eq!(cfg.total_questions, 1);

    let mut v = Vote { user, question: q, vote_record: VoteRecord::new() };
    assert_eq!(vote(&mut v, 1), Ok(()));
    assert_eq!(v.question.choices[1].total_votes, 1);
    assert_eq!(v.question.choices[0].total_votes, 0);
    assert_eq!(v.question.total_votes, 1);
    assert!(v.vote_record.has_voted);
    assert_eq!(v.vote_record.choice, 1);

    let mut c = ClaimReward { user, dao_config: cfg, question: v.question.clone(), vote_record: v.vote_record };
    assert_eq!(claim_reward(&c, deadline - 1), Err(AppError::NotAfterDeadline));
    assert_eq!(claim_reward(&c, deadline), Err(AppError::NotAfterDeadline));
    let req = claim_reward(&c, deadline + 1).unwrap();
    assert_eq!(req, MintRequest { mint: mint(), to: user, authority: admin(), amount: 100 });
    c.record_claim();
    assert!(c.vote_record.claimed);
    assert_eq!(claim_reward(&c, deadline + 1), Err(AppError::AlreadyClaimed));
}

#[test]
fn create_quest_skipping_ahead_fails() {
    let cfg = fresh_config();
    let mut ctx = CreateQuest { admin: admin(), dao_config: cfg };
    let r = create_quest(&mut ctx, 5, "t".to_string(), "u".to_string(), strings(&["A", "B"]), 0, 1);
    assert_eq!(r, Err(AppError::InvalidQuestionId));
    assert_eq!(ctx.dao_config.total_questions, 0);
}

#[test]
fn create_quest_replaying_old_id_fails() {
    let cfg = fresh_config();
    let (cfg, _) = new_question(cfg, &["A", "B"], 0, 1);
    let mut ctx = CreateQuest { admin: admin(), dao_config: cfg };
    let r = create_quest(&mut ctx, 0, "t".to_string(), "u".to_string(), strings(&["A", "B"]), 0, 1);
    assert_eq!(r, Err(AppError::InvalidQuestionId));
    assert_eq!(ctx.dao_config.total_questions, 1);
}

#[test]
fn create_quest_with_one_or_eleven_choices_fails() {
    let cfg = fresh_config();
    let mut ctx = CreateQuest { admin: admin(), dao_config: cfg };
    let one = create_quest(&mut ctx, 0, "t".to_string(), "u".to_string(), strings(&["A"]), 0, 1);
    assert_eq!(one, Err(AppError::InvalidChoices));
    let eleven: Vec<String> = (0..11).map(|i| format!("c{}", i)).collect();
    let r = create_quest(&mut ctx, 0, "t".to_string(), "u".to_string(), eleven, 0, 1);
    assert_eq!(r, Err(AppError::InvalidChoices));
    assert_eq!(ctx.dao_config.total_questions, 0);
}

#[test]
fn create_quest_choice_bounds_accepted() {
    assert_eq!(MIN_CHOICES, 2);
    assert_eq!(MAX_CHOICES, 10);
    let cfg = fresh_config();
    let ten: Vec<String> = (0..10).map(|i| format!("c{}", i)).collect();
    let mut ctx = CreateQuest { admin: admin(), dao_config: cfg };
    let q = create_quest(&mut ctx, 0, "t".to_string(), "u".to_string(), ten, 5, 9).unwrap();
    assert_eq!(q.choices.len(), 10);
    assert_eq!(q.choices[9].description, "c9");
    assert!(q.choices.iter().all(|c| c.total_votes == 0));
    assert!(q.is_active);
    assert_eq!(q.deadline, 5);
    assert_eq!(q.reward_per_vote, 9);
    assert_eq!(q.total_votes, 0);
    assert_eq!(q.title, "t");
    assert_eq!(q.image_uri, "u");
}

#[test]
fn create_quest_by_non_admin_fails() {
    let cfg = fresh_config();
    let mut ctx = CreateQuest { admin: key(3), dao_config: cfg };
    let r = create_quest(&mut ctx, 0, "t".to_string(), "u".to_string(), strings(&["A", "B"]), 0, 1);
    assert_eq!(r, Err(AppError::Unauthorized));
}

#[test]
fn create_quest_counter_overflow_fails() {
    let mut cfg = fresh_config();
    cfg.total_questions = u64::MAX;
    let mut ctx = CreateQuest { admin: admin(), dao_config: cfg };
    let r = create_quest(&mut ctx, u64::MAX, "t".to_string(), "u".to_string(), strings(&["A", "B"]), 0, 1);
    assert_eq!(r, Err(AppError::Overflow));
    assert_eq!(ctx.dao_config.total_questions, u64::MAX);
}

#[test]
fn created_ids_are_sequential() {
    let mut cfg = fresh_config();
    for expected in 0..5u64 {
        let (next, q) = new_question(cfg, &["A", "B", "C"], 0, 1);
        assert_eq!(q.id, expected);
        assert_eq!(next.total_questions, expected + 1);
        cfg = next;
    }
}

#[test]
fn second_vote_fails_already_voted() {
    let (_, q) = new_question(fresh_config(), &["A", "B", "C"], 0, 1);
    let mut v = Vote { user: key(5), question: q, vote_record: VoteRecord::new() };
    assert_eq!(vote(&mut v, 2), Ok(()));
    assert_eq!(vote(&mut v, 0), Err(AppError::QuestionAlreadyVoted));
    assert_eq!(vote(&mut v, 2), Err(AppError::QuestionAlreadyVoted));
    assert_eq!(v.question.total_votes, 1);
    assert_eq!(v.vote_record.choice, 2);
}

#[test]
fn tallies_sum_to_total() {
    let (_, mut q) = new_question(fresh_config(), &["A", "B", "C"], 0, 1);
    let picks = [0u8, 2, 2, 1, 2, 0];
    for (n, pick) in picks.iter().enumerate() {
        let mut v = Vote { user: key(100 + n as u8), question: q, vote_record: VoteRecord::new() };
        assert_eq!(vote(&mut v, *pick), Ok(()));
        q = v.question;
        let sum: u64 = q.choices.iter().map(|c| c.total_votes as u64).sum();
        assert_eq!(sum, q.total_votes);
    }
    assert_eq!(q.choices[0].total_votes, 2);
    assert_eq!(q.choices[1].total_votes, 1);
    assert_eq!(q.choices[2].total_votes, 3);
    assert_eq!(get_total_votes(&GetTotalVotes { question: q }).total_votes, 6);
}

#[test]
fn vote_out_of_range_fails() {
    let (_, q) = new_question(fresh_config(), &["A", "B"], 0, 1);
    let mut v = Vote { user: key(5), question: q, vote_record: VoteRecord::new() };
    assert_eq!(vote(&mut v, 2), Err(AppError::InvalidChoices));
    assert!(!v.vote_record.has_voted);
    assert_eq!(v.question.total_votes, 0);
}

#[test]
fn vote_on_full_tally_overflows() {
    let (_, mut q) = new_question(fresh_config(), &["A", "B"], 0, 1);
    q.choices[0].total_votes = u8::MAX;
    q.total_votes = u8::MAX as u64;
    let mut v = Vote { user: key(5), question: q, vote_record: VoteRecord::new() };
    assert_eq!(vote(&mut v, 0), Err(AppError::Overflow));
    assert_eq!(v.question.total_votes, 255);
    assert_eq!(vote(&mut v, 1), Ok(()));
    assert_eq!(v.question.total_votes, 256);
}

#[test]
fn end_quest_then_vote_fails_inactive() {
    let cfg = fresh_config();
    let (cfg, q) = new_question(cfg, &["A", "B"], 0, 1);
    let mut e = EndQuest { admin: admin(), dao_config: cfg, question: q };
    assert_eq!(end_quest(&mut e), Ok(()));
    assert!(!e.question.is_active);
    assert_eq!(end_quest(&mut e), Err(AppError::QuestionAlreadyEnded));
    let mut v = Vote { user: key(5), question: e.question.clone(), vote_record: VoteRecord::new() };
    assert_eq!(vote(&mut v, 0), Err(AppError::QuestionInActive));
    assert_eq!(v.question.total_votes, 0);
}

#[test]
fn end_quest_by_non_admin_fails() {
    let cfg = fresh_config();
    let (cfg, q) = new_question(cfg, &["A", "B"], 0, 1);
    let mut e = EndQuest { admin: key(2), dao_config: cfg, question: q };
    assert_eq!(end_quest(&mut e), Err(AppError::Unauthorized));
    assert!(e.question.is_active);
}

#[test]
fn claim_without_vote_fails() {
    let cfg = fresh_config();
    let (cfg, q) = new_question(cfg, &["A", "B"], 10, 1);
    let c = ClaimReward { user: key(4), dao_config: cfg, question: q, vote_record: VoteRecord::new() };
    assert_eq!(claim_reward(&c, 100), Err(AppError::NotVote));
}

#[test]
fn claim_after_question_closed_still_paid() {
    let cfg = fresh_config();
    let user = key(4);
    let (cfg, q) = new_question(cfg, &["A", "B"], 10, 55);
    let mut v = Vote { user, question: q, vote_record: VoteRecord::new() };
    assert_eq!(vote(&mut v, 0), Ok(()));
    let mut e = EndQuest { admin: admin(), dao_config: cfg, question: v.question.clone() };
    assert_eq!(end_quest(&mut e), Ok(()));
    let c = ClaimReward { user, dao_config: cfg, question: e.question.clone(), vote_record: v.vote_record };
    assert_eq!(claim_reward(&c, 11).map(|m| m.amount), Ok(55));
}

#[test]
fn view_choices_copies_tallies() {
    let (_, q) = new_question(fresh_config(), &["yes", "no"], 0, 1);
    let mut v = Vote { user: key(5), question: q, vote_record: VoteRecord::new() };
    assert_eq!(vote(&mut v, 1), Ok(()));
    let out = view_choices(&ViewChoices { question: v.question.clone() });
    assert_eq!(out.choices, v.question.choices);
    assert_eq!(out.choices[0].description, "yes");
    assert_eq!(out.choices[1].total_votes, 1);
}

#[test]
fn pubkey_equality_compares_every_byte() {
    let mut b = [3u8; 32];
    assert_eq!(Pubkey::new(b), Pubkey::new([3u8; 32]));
    b[31] = 4;
    assert_ne!(Pubkey::new(b), Pubkey::new([3u8; 32]));
    let mut ctx = CreateQuest {
        admin: Pubkey::new(b),
        dao_config: DaoConfig { admin: Pubkey::new([3u8; 32]), total_questions: 0, reward_mint: mint() },
    };
    let r = create_quest(&mut ctx, 0, "t".to_string(), "u".to_string(), strings(&["A", "B"]), 0, 1);
    assert_eq!(r, Err(AppError::Unauthorized));
}

#[test]
fn claim_stays_open_until_mint_is_recorded() {
    let cfg = fresh_config();
    let user = key(4);
    let (cfg, q) = new_question(cfg, &["A", "B"], 10, 7);
    let mut v = Vote { user, question: q, vote_record: VoteRecord::new() };
    assert_eq!(vote(&mut v, 1), Ok(()));
    let mut c = ClaimReward { user, dao_config: cfg, question: v.question.clone(), vote_record: v.vote_record };
    // The issuer failed: nothing is recorded and the claim can be retried.
    assert!(claim_reward(&c, 11).is_ok());
    assert!(!c.vote_record.claimed);
    let retry = claim_reward(&c, 12).unwrap();
    assert_eq!(retry.amount, 7);
    assert_eq!(retry.to, user);
    c.record_claim();
    assert_eq!(claim_reward(&c, 13), Err(AppError::AlreadyClaimed));
    assert!(c.vote_record.has_voted);
    assert_eq!(c.vote_record.choice, 1);
}
