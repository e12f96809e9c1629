use vstd::prelude::*;

verus! {

/// A question as a client submits it.
#[derive(Debug, Clone, PartialEq, Eq)]
pub struct Question {
    pub title: String,
    pub description: String,
}

/// A stored question, with the identifier and timestamp the store assigned.
#[derive(Debug, Clone, PartialEq, Eq)]
pub struct QuestionDetail {
    pub question_uuid: String,
    pub title: String,
    pub description: String,
    pub created_at: String,
}

/// The identifier of a question, as a client supplies it.
#[derive(Debug, Clone, PartialEq, Eq)]
pub struct QuestionId {
    pub question_uuid: String,
}

/// An answer as a client submits it; `question_uuid` names the question.
#[derive(Debug, Clone, PartialEq, Eq)]
pub struct Answer {
    pub question_uuid: String,
    pub content: String,
}

/// A stored answer, with the identifier and timestamp the store assigned.
#[derive(Debug, Clone, PartialEq, Eq)]
pub struct AnswerDetail {
    pub answer_uuid: String,
    pub question_uuid: String,
    pub content: String,
    pub created_at: String,
}

/// The identifier of an answer, as a client supplies it.
#[derive(Debug, Clone, PartialEq, Eq)]
pub struct AnswerId {
    pub answer_uuid: String,
}

} // verus!
