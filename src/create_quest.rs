use vstd::prelude::*;

use crate::constant::{MAX_CHOICES, MIN_CHOICES};
use crate::error::AppError;
use crate::state::{
    lemma_sum_votes_zero, Choice, ChoiceView, DaoConfig, Pubkey, Question,
    QuestionView,
};

verus! {

/// The records that creating a question touches: the calling admin and the
/// configuration whose counter hands out ids.
pub struct CreateQuest {
    pub admin: Pubkey,
    pub dao_config: DaoConfig,
}

/// Why `caller` may not create question `id` with `n_choices` choices under
/// `cfg`, checked in this order; `None` when it may.
pub open spec fn create_quest_error(cfg: DaoConfig, caller: Pubkey, id: u64, n_choices: nat) -> Option<AppError> {
    if caller != cfg.admin {
        Some(AppError::Unauthorized)
    } else if n_choices < MIN_CHOICES || n_choices > MAX_CHOICES {
        Some(AppError::InvalidChoices)
    } else if id != cfg.total_questions {
        Some(AppError::InvalidQuestionId)
    } else if cfg.total_questions == u64::MAX {
        Some(AppError::Overflow)
    } else {
        None
    }
}

/// The configuration after a question has been created under it.
pub open spec fn after_create(cfg: DaoConfig) -> DaoConfig {
    DaoConfig { total_questions: (cfg.total_questions + 1) as u64, ..cfg }
}

/// A newly created question: active, every tally zero.
pub open spec fn new_question(
    id: u64,
    title: Seq<char>,
    image_uri: Seq<char>,
    descriptions: Seq<Seq<char>>,
    deadline: i64,
    reward_per_vote: u64,
) -> QuestionView {
    QuestionView {
        id,
        title,
        image_uri,
        choices: descriptions.map_values(|d: Seq<char>| ChoiceView { description: d, total_votes: 0 }),
        is_active: true,
        deadline,
        reward_per_vote,
        total_votes: 0,
    }
}

/// The views of a list of strings.
pub open spec fn strings_view(v: Seq<String>) -> Seq<Seq<char>> {
    v.map_values(|s: String| s@)
}

impl CreateQuest {
    /// Creates question `id` and advances the id counter, or rejects the
    /// request and leaves everything as it was.
    pub fn process(
        &mut self,
        id: u64,
        title: String,
        image_uri: String,
        choices: Vec<String>,
        deadline: i64,
        reward_per_vote: u64,
    ) -> (r: Result<Question, AppError>)
        ensures
            match create_quest_error(old(self).dao_config, old(self).admin, id, choices@.len()) {
                Some(e) => r == Err::<Question, AppError>(e) && *final(self) == *old(self),
                None => {
                    &&& r is Ok
                    &&& r->Ok_0@ == new_question(id, title@, image_uri@, strings_view(choices@), deadline, reward_per_vote)
                    &&& r->Ok_0.wf()
                    &&& final(self).admin == old(self).admin
                    &&& final(self).dao_config == after_create(old(self).dao_config)
                },
            },
    {
        if self.admin != self.dao_config.admin {
            return Err(AppError::Unauthorized);
        }
        if choices.len() < MIN_CHOICES || choices.len() > MAX_CHOICES {
            return Err(AppError::InvalidChoices);
        }
        if id != self.dao_config.total_questions {
            return Err(AppError::InvalidQuestionId);
        }
        let next = match self.dao_config.total_questions.checked_add(1) {
            Some(n) => n,
            None => {
                return Err(AppError::Overflow);
            },
        };
        let ghost expected = new_question(id, title@, image_uri@, strings_view(choices@), deadline, reward_per_vote);
        assert(forall|j: int| 0 <= j < choices@.len() ==> #[trigger] expected.choices[j] == (ChoiceView { description: choices@[j]@, total_votes: 0 }));
        let mut choice_list: Vec<Choice> = Vec::new();
        let mut i: usize = 0;
        while i < choices.len()
            invariant
                i <= choices@.len(),
                choice_list@.len() == i,
                expected.choices.len() == choices@.len(),
                forall|j: int| 0 <= j < choices@.len() ==> #[trigger] expected.choices[j] == (ChoiceView { description: choices@[j]@, total_votes: 0 }),
                forall|j: int| 0 <= j < i ==> #[trigger] choice_list@[j]@ == expected.choices[j],
            decreases choices@.len() - i,
        {
            choice_list.push(Choice { description: choices[i].clone(), total_votes: 0 });
            i = i + 1;
        }
        let question = Question {
            id,
            title,
            image_uri,
            choices: choice_list,
            is_active: true,
            deadline,
            reward_per_vote,
            total_votes: 0,
        };
        assert(question@.choices =~= expected.choices);
        proof {
            lemma_sum_votes_zero(question@.choices);
        }
        self.dao_config.total_questions = next;
        Ok(question)
    }
}

} // verus!
