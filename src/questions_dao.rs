use crate::backend::{
    deleted_for, fetched, finish_delete, finish_fetch, DbFailure, UNKNOWN_QUESTION_UUID,
};
use crate::error::{result_view, DBError, DBErrorView};
use crate::identifier::{
    identifier_value, is_well_formed_identifier, malformed_identifier, parse_identifier,
};
use crate::models::{Question, QuestionDetail};
use vstd::prelude::*;

verus! {

/// The start of the message for a malformed question identifier.
pub const MALFORMED_QUESTION_UUID: &'static str = "Could not parse question UUID: ";

/// The data-access operations on questions that every store provides.
///
/// Each store may say, through the relations below, which results each of
/// its operations may give; one that says nothing admits any result.
/// Callers learn of a result only that it is one the store admits.
pub trait QuestionsDao {
    /// `r` is a result this store may give for creating `question`.
    open spec fn created_as(&self, question: Question, r: Result<QuestionDetail, DBError>) -> bool {
        true
    }

    /// `r` is a result this store may give for deleting the question
    /// `question_uuid`.
    open spec fn deleted_as(&self, question_uuid: Seq<char>, r: Result<(), DBError>) -> bool {
        true
    }

    /// `r` is a result this store may give for listing the questions.
    open spec fn listed_as(&self, r: Result<Vec<QuestionDetail>, DBError>) -> bool {
        true
    }

    /// Stores a new question and returns it with the identifier and
    /// timestamp the store assigned.
    fn create_question(&self, question: Question) -> (r: Result<QuestionDetail, DBError>)
        ensures
            self.created_as(question, r),
    ;

    /// Removes the question with the given identifier; removing one that
    /// does not exist is no error.
    fn delete_question(&self, question_uuid: String) -> (r: Result<(), DBError>)
        ensures
            self.deleted_as(question_uuid@, r),
    ;

    /// Returns every stored question, in the order the store gives.
    fn get_questions(&self) -> (r: Result<Vec<QuestionDetail>, DBError>)
        ensures
            self.listed_as(r),
    ;
}

/// Parses the identifier of a question to delete, before the store is
/// touched.
pub fn delete_question_key(question_uuid: &String) -> (r: Result<u128, DBError>)
    ensures
        r is Ok <==> is_well_formed_identifier(question_uuid@),
        r matches Ok(v) ==> v == identifier_value(question_uuid@),
        r matches Err(e) ==> e@ == malformed_identifier(MALFORMED_QUESTION_UUID@, question_uuid@),
{
    parse_identifier(question_uuid, MALFORMED_QUESTION_UUID)
}

/// Creates a question: runs the insert statement and turns its outcome into
/// the store's result.
pub fn create_question_with<F>(question: Question, insert: F) -> (r: Result<QuestionDetail, DBError>)
    where
        F: FnOnce(Question) -> Result<QuestionDetail, DbFailure>,
    requires
        insert.requires((question,)),
    ensures
        exists|o: Result<QuestionDetail, DbFailure>|
            #[trigger] insert.ensures((question,), o) && result_view(r) == fetched(o),
{
    let outcome = insert(question);
    finish_fetch(outcome)
}

/// Deletes a question: validates its identifier, and only for a well-formed
/// one runs the delete statement and turns its outcome into the store's
/// result. A malformed identifier fails whatever the statement would do.
pub fn delete_question_with<F>(question_uuid: &String, delete: F) -> (r: Result<(), DBError>)
    where
        F: FnOnce(u128) -> Result<u64, DbFailure>,
    requires
        is_well_formed_identifier(question_uuid@) ==> delete.requires(
            (identifier_value(question_uuid@),),
        ),
    ensures
        !is_well_formed_identifier(question_uuid@) ==> result_view(r) == Err::<(), DBErrorView>(
            malformed_identifier(MALFORMED_QUESTION_UUID@, question_uuid@),
        ),
        is_well_formed_identifier(question_uuid@) ==> exists|o: Result<u64, DbFailure>|
            #[trigger] delete.ensures((identifier_value(question_uuid@),), o) && result_view(r) == deleted_for(
                UNKNOWN_QUESTION_UUID@,
                question_uuid@,
                o,
            ),
{
    match delete_question_key(question_uuid) {
        Err(e) => Err(e),
        Ok(u) => {
            let outcome = delete(u);
            finish_delete(question_uuid, UNKNOWN_QUESTION_UUID, outcome)
        },
    }
}

/// Lists the questions: runs the select statement and turns its outcome
/// into the store's result.
pub fn get_questions_with<F>(select: F) -> (r: Result<Vec<QuestionDetail>, DBError>)
    where
        F: FnOnce() -> Result<Vec<QuestionDetail>, DbFailure>,
    requires
        select.requires(()),
    ensures
        exists|o: Result<Vec<QuestionDetail>, DbFailure>|
            #[trigger] select.ensures((), o) && result_view(r) == fetched(o),
{
    let outcome = select();
    finish_fetch(outcome)
}

} // verus!
