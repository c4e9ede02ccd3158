use vstd::prelude::*;

verus! {

/// Why an operation was rejected. A rejected operation changes nothing.
#[derive(Clone, Copy, Debug, PartialEq, Eq, Structural)]
pub enum AppError {
    /// The configuration record exists already.
    AlreadyInitialized,
    /// The caller is not the configured admin.
    Unauthorized,
    /// Choice count outside `MIN_CHOICES..=MAX_CHOICES`, or a ballot index out of range.
    InvalidChoices,
    /// The id is not the next one in sequence.
    InvalidQuestionId,
    /// A counter or tally would wrap.
    Overflow,
    /// The question has been closed.
    QuestionInActive,
    /// This voter has voted on this question already.
    QuestionAlreadyVoted,
    /// The question has been closed already.
    QuestionAlreadyEnded,
    /// This user has not voted on this question.
    NotVote,
    /// The reward for this vote has been claimed already.
    AlreadyClaimed,
    /// The question's deadline has not passed yet.
    NotAfterDeadline,
}

} // verus!
