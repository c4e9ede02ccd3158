use vstd::prelude::*;

use crate::state::{choices_view, Choice, Question};

verus! {

/// The question whose choices are read.
pub struct ViewChoices {
    pub question: Question,
}

/// A copy of a question's choices with their tallies.
#[derive(Clone, Debug, PartialEq, Eq)]
pub struct ViewChoicesOutput {
    pub choices: Vec<Choice>,
}

/// The question whose total is read.
pub struct GetTotalVotes {
    pub question: Question,
}

/// A question's vote count.
#[derive(Clone, Copy, Debug, PartialEq, Eq)]
pub struct GetTotalVotesOutput {
    pub total_votes: u64,
}

/// The question's choices, in ballot order, with their tallies.
pub fn view_choices(ctx: &ViewChoices) -> (r: ViewChoicesOutput)
    ensures
        choices_view(r.choices@) == choices_view(ctx.question.choices@),
{
    let src = &ctx.question.choices;
    let mut choices: Vec<Choice> = Vec::new();
    let mut i: usize = 0;
    while i < src.len()
        invariant
            i <= src@.len(),
            choices@.len() == i,
            forall|j: int| 0 <= j < i ==> #[trigger] choices@[j]@ == src@[j]@,
        decreases src@.len() - i,
    {
        choices.push(src[i].copy());
        i = i + 1;
    }
    assert(choices_view(choices@) =~= choices_view(src@));
    ViewChoicesOutput { choices }
}

/// The number of votes cast on the question.
pub fn get_total_votes(ctx: &GetTotalVotes) -> (r: GetTotalVotesOutput)
    ensures
        r.total_votes == ctx.question.total_votes,
{
    GetTotalVotesOutput { total_votes: ctx.question.total_votes }
}

} // verus!
