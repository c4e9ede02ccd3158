use vstd::prelude::*;

use crate::constant::{MAX_CHOICES, MIN_CHOICES};

verus! {

/// A 32-byte account identity (a caller, the admin, a token mint).
#[derive(Clone, Copy, Debug, Eq)]
pub struct Pubkey {
    pub bytes: [u8; 32],
}

impl PartialEq for Pubkey {
    fn eq(&self, other: &Pubkey) -> (r: bool) {
        let mut i: usize = 0;
        while i < 32
            invariant
                i <= 32,
                forall|j: int| 0 <= j < i ==> self.bytes[j] == other.bytes[j],
            decreases 32 - i,
        {
            if self.bytes[i] != other.bytes[i] {
                return false;
            }
            i = i + 1;
        }
        assert(self.bytes =~= other.bytes);
        true
    }
}

impl vstd::std_specs::cmp::PartialEqSpecImpl for Pubkey {
    open spec fn obeys_eq_spec() -> bool {
        true
    }

    open spec fn eq_spec(&self, other: &Pubkey) -> bool {
        self.bytes == other.bytes
    }
}

impl Pubkey {
    /// The identity with these bytes.
    pub fn new(bytes: [u8; 32]) -> (r: Pubkey)
        ensures
            r.bytes == bytes,
    {
        Pubkey { bytes }
    }
}

/// The singleton configuration: who administers the DAO, which token pays
/// rewards, and how many questions exist (which is also the next id).
#[derive(Clone, Copy, Debug, PartialEq, Eq)]
pub struct DaoConfig {
    pub admin: Pubkey,
    pub total_questions: u64,
    pub reward_mint: Pubkey,
}

/// One user's participation in one question.
#[derive(Clone, Copy, Debug, PartialEq, Eq, Structural)]
pub struct VoteRecord {
    pub choice: u8,
    pub has_voted: bool,
    pub claimed: bool,
}

impl VoteRecord {
    /// The record as it is created on a user's first vote on a question.
    pub fn new() -> (r: VoteRecord)
        ensures
            r == VoteRecord::fresh(),
    {
        VoteRecord { choice: 0, has_voted: false, claimed: false }
    }

    /// A record on which nothing has happened yet.
    pub open spec fn fresh() -> VoteRecord {
        VoteRecord { choice: 0, has_voted: false, claimed: false }
    }
}

/// One option of a question and its tally.
#[derive(Clone, Debug, PartialEq, Eq)]
pub struct Choice {
    pub description: String,
    pub total_votes: u8,
}

/// What a choice holds: its text and its tally.
pub struct ChoiceView {
    pub description: Seq<char>,
    pub total_votes: u8,
}

impl View for Choice {
    type V = ChoiceView;

    open spec fn view(&self) -> ChoiceView {
        ChoiceView { description: self.description@, total_votes: self.total_votes }
    }
}

impl Choice {
    /// A copy of this choice.
    pub fn copy(&self) -> (r: Choice)
        ensures
            r@ == self@,
    {
        Choice { description: self.description.clone(), total_votes: self.total_votes }
    }
}

/// A poll with its ballot options, tallies, deadline and reward rate.
#[derive(Clone, Debug, PartialEq, Eq)]
pub struct Question {
    pub id: u64,
    pub title: String,
    pub image_uri: String,
    pub choices: Vec<Choice>,
    pub is_active: bool,
    /// Unix timestamp after which rewards may be claimed.
    pub deadline: i64,
    pub reward_per_vote: u64,
    pub total_votes: u64,
}

/// What a question holds, with its texts as character sequences.
pub struct QuestionView {
    pub id: u64,
    pub title: Seq<char>,
    pub image_uri: Seq<char>,
    pub choices: Seq<ChoiceView>,
    pub is_active: bool,
    pub deadline: i64,
    pub reward_per_vote: u64,
    pub total_votes: u64,
}

/// The views of a list of choices.
pub open spec fn choices_view(cs: Seq<Choice>) -> Seq<ChoiceView> {
    cs.map_values(|c: Choice| c@)
}

impl View for Question {
    type V = QuestionView;

    open spec fn view(&self) -> QuestionView {
        QuestionView {
            id: self.id,
            title: self.title@,
            image_uri: self.image_uri@,
            choices: choices_view(self.choices@),
            is_active: self.is_active,
            deadline: self.deadline,
            reward_per_vote: self.reward_per_vote,
            total_votes: self.total_votes,
        }
    }
}

/// The sum of the tallies of a list of choices.
pub open spec fn sum_votes(cs: Seq<ChoiceView>) -> int
    decreases cs.len(),
{
    if cs.len() == 0 {
        0
    } else {
        sum_votes(cs.drop_last()) + cs.last().total_votes
    }
}

/// Each tally is at most 255, so the sum is at most 255 per choice.
pub proof fn lemma_sum_votes_bounds(cs: Seq<ChoiceView>)
    ensures
        0 <= sum_votes(cs) <= 255 * cs.len(),
    decreases cs.len(),
{
    if cs.len() > 0 {
        lemma_sum_votes_bounds(cs.drop_last());
    }
}

/// Raising one tally by one raises the sum by one.
pub proof fn lemma_sum_votes_bump(cs: Seq<ChoiceView>, i: int, c: ChoiceView)
    requires
        0 <= i < cs.len(),
        c.total_votes == cs[i].total_votes + 1,
    ensures
        sum_votes(cs.update(i, c)) == sum_votes(cs) + 1,
    decreases cs.len(),
{
    let u = cs.update(i, c);
    if i == cs.len() - 1 {
        assert(u.drop_last() =~= cs.drop_last());
    } else {
        lemma_sum_votes_bump(cs.drop_last(), i, c);
        assert(u.drop_last() =~= cs.drop_last().update(i, c));
    }
}

/// A list of fresh choices, each with a zero tally, has a zero sum.
pub proof fn lemma_sum_votes_zero(cs: Seq<ChoiceView>)
    requires
        forall|i: int| 0 <= i < cs.len() ==> #[trigger] cs[i].total_votes == 0,
    ensures
        sum_votes(cs) == 0,
    decreases cs.len(),
{
    if cs.len() > 0 {
        lemma_sum_votes_zero(cs.drop_last());
    }
}

impl QuestionView {
    /// A question's own invariant: its choice count is in range and its
    /// total equals the sum of the per-choice tallies.
    pub open spec fn wf(self) -> bool {
        &&& MIN_CHOICES <= self.choices.len() <= MAX_CHOICES
        &&& self.total_votes == sum_votes(self.choices)
    }

    /// The question after one more vote for choice `c`.
    pub open spec fn with_vote(self, c: int) -> QuestionView {
        QuestionView {
            choices: self.choices.update(
                c,
                ChoiceView {
                    description: self.choices[c].description,
                    total_votes: (self.choices[c].total_votes + 1) as u8,
                },
            ),
            total_votes: (self.total_votes + 1) as u64,
            ..self
        }
    }

    /// The question after it is closed.
    pub open spec fn closed(self) -> QuestionView {
        QuestionView { is_active: false, ..self }
    }
}

impl Question {
    /// See `QuestionView::wf`.
    pub open spec fn wf(&self) -> bool {
        self@.wf()
    }

    /// Whether the question keeps its invariant; a question loaded from
    /// storage is checked with this before it is voted on.
    pub fn is_well_formed(&self) -> (r: bool)
        ensures
            r == self.wf(),
    {
        let n = self.choices.len();
        if n < MIN_CHOICES || n > MAX_CHOICES {
            return false;
        }
        let mut sum: u64 = 0;
        let mut i: usize = 0;
        while i < n
            invariant
                n == self.choices@.len(),
                n <= MAX_CHOICES,
                i <= n,
                sum == sum_votes(choices_view(self.choices@).take(i as int)),
                sum <= 255 * i,
            decreases n - i,
        {
            proof {
                let cs = choices_view(self.choices@);
                assert(cs.take(i + 1).drop_last() =~= cs.take(i as int));
            }
            sum = sum + self.choices[i].total_votes as u64;
            i = i + 1;
        }
        proof {
            let cs = choices_view(self.choices@);
            assert(cs.take(n as int) =~= cs);
        }
        sum == self.total_votes
    }
}

} // verus!
