use crate::backend::{deleted_for, fetched_for, finish_delete, finish_fetch_for, DbFailure, UNKNOWN_QUESTION_UUID};
use crate::error::{result_view, DBError, DBErrorView};
use crate::identifier::{
    identifier_value, is_well_formed_identifier, malformed_identifier, parse_identifier,
};
use crate::models::{Answer, AnswerDetail};
use vstd::prelude::*;

verus! {

/// The start of the message for a malformed identifier in an answer to
/// create or delete.
pub const MALFORMED_ANSWER_UUID: &'static str = "Could not parse answer UUID: ";

/// The start of the message for a malformed question identifier when
/// listing answers.
pub const MALFORMED_LISTED_QUESTION_UUID: &'static str = "Could not parse question with UUID: ";

/// The start of the message for an answer identifier that the backend
/// rejected as referring to no usable record.
pub const UNKNOWN_ANSWER_UUID: &'static str = "Invalid answer UUID: ";

/// The data-access operations on answers that every store provides.
///
/// Each store may say, through the relations below, which results each of
/// its operations may give; one that says nothing admits any result.
/// Callers learn of a result only that it is one the store admits.
pub trait AnswersDao {
    /// `r` is a result this store may give for creating `answer`.
    open spec fn created_as(&self, answer: Answer, r: Result<AnswerDetail, DBError>) -> bool {
        true
    }

    /// `r` is a result this store may give for deleting the answer
    /// `answer_uuid`.
    open spec fn deleted_as(&self, answer_uuid: Seq<char>, r: Result<(), DBError>) -> bool {
        true
    }

    /// `r` is a result this store may give for listing the answers to the
    /// question `question_uuid`.
    open spec fn listed_as(&self, question_uuid: Seq<char>, r: Result<Vec<AnswerDetail>, DBError>) -> bool {
        true
    }

    /// Stores a new answer to the question it names and returns it with the
    /// identifier and timestamp the store assigned.
    fn create_answer(&self, answer: Answer) -> (r: Result<AnswerDetail, DBError>)
        ensures
            self.created_as(answer, r),
    ;

    /// Removes the answer with the given identifier; removing one that does
    /// not exist is no error.
    fn delete_answer(&self, answer_uuid: String) -> (r: Result<(), DBError>)
        ensures
            self.deleted_as(answer_uuid@, r),
    ;

    /// Returns the answers to the question with the given identifier, in the
    /// order the store gives.
    fn get_answers(&self, question_uuid: String) -> (r: Result<Vec<AnswerDetail>, DBError>)
        ensures
            self.listed_as(question_uuid@, r),
    ;
}

/// Parses the question identifier of an answer to create, before the store
/// is touched.
pub fn create_answer_key(answer: &Answer) -> (r: Result<u128, DBError>)
    ensures
        r is Ok <==> is_well_formed_identifier(answer.question_uuid@),
        r matches Ok(v) ==> v == identifier_value(answer.question_uuid@),
        r matches Err(e) ==> e@ == malformed_identifier(
            MALFORMED_ANSWER_UUID@,
            answer.question_uuid@,
        ),
{
    parse_identifier(&answer.question_uuid, MALFORMED_ANSWER_UUID)
}

/// Parses the identifier of an answer to delete, before the store is
/// touched.
pub fn delete_answer_key(answer_uuid: &String) -> (r: Result<u128, DBError>)
    ensures
        r is Ok <==> is_well_formed_identifier(answer_uuid@),
        r matches Ok(v) ==> v == identifier_value(answer_uuid@),
        r matches Err(e) ==> e@ == malformed_identifier(MALFORMED_ANSWER_UUID@, answer_uuid@),
{
    parse_identifier(answer_uuid, MALFORMED_ANSWER_UUID)
}

/// Parses the identifier of the question whose answers are listed, before
/// the store is touched.
pub fn get_answers_key(question_uuid: &String) -> (r: Result<u128, DBError>)
    ensures
        r is Ok <==> is_well_formed_identifier(question_uuid@),
        r matches Ok(v) ==> v == identifier_value(question_uuid@),
        r matches Err(e) ==> e@ == malformed_identifier(
            MALFORMED_LISTED_QUESTION_UUID@,
            question_uuid@,
        ),
{
    parse_identifier(question_uuid, MALFORMED_LISTED_QUESTION_UUID)
}

/// Creates an answer: validates the identifier of its question, and only for
/// a well-formed one runs the insert statement with the answer's content and
/// turns its outcome into the store's result. A question the backend does
/// not hold gives `InvalidUUID` naming the identifier.
pub fn create_answer_with<F>(answer: Answer, insert: F) -> (r: Result<AnswerDetail, DBError>)
    where
        F: FnOnce(u128, String) -> Result<AnswerDetail, DbFailure>,
    requires
        is_well_formed_identifier(answer.question_uuid@) ==> insert.requires(
            (identifier_value(answer.question_uuid@), answer.content),
        ),
    ensures
        !is_well_formed_identifier(answer.question_uuid@) ==> result_view(r) == Err::<
            AnswerDetail,
            DBErrorView,
        >(malformed_identifier(MALFORMED_ANSWER_UUID@, answer.question_uuid@)),
        is_well_formed_identifier(answer.question_uuid@) ==> exists|
            o: Result<AnswerDetail, DbFailure>,
        |
            #[trigger] insert.ensures(
                (identifier_value(answer.question_uuid@), answer.content),
                o,
            ) && result_view(r) == fetched_for(
                UNKNOWN_QUESTION_UUID@,
                answer.question_uuid@,
                o,
            ),
{
    match create_answer_key(&answer) {
        Err(e) => Err(e),
        Ok(u) => {
            let Answer { question_uuid, content } = answer;
            let outcome = insert(u, content);
            finish_fetch_for(&question_uuid, UNKNOWN_QUESTION_UUID, outcome)
        },
    }
}

/// Deletes an answer: validates its identifier, and only for a well-formed
/// one runs the delete statement and turns its outcome into the store's
/// result.
pub fn delete_answer_with<F>(answer_uuid: &String, delete: F) -> (r: Result<(), DBError>)
    where
        F: FnOnce(u128) -> Result<u64, DbFailure>,
    requires
        is_well_formed_identifier(answer_uuid@) ==> delete.requires(
            (identifier_value(answer_uuid@),),
        ),
    ensures
        !is_well_formed_identifier(answer_uuid@) ==> result_view(r) == Err::<(), DBErrorView>(
            malformed_identifier(MALFORMED_ANSWER_UUID@, answer_uuid@),
        ),
        is_well_formed_identifier(answer_uuid@) ==> exists|o: Result<u64, DbFailure>|
            #[trigger] delete.ensures((identifier_value(answer_uuid@),), o) && result_view(r) == deleted_for(
                UNKNOWN_ANSWER_UUID@,
                answer_uuid@,
                o,
            ),
{
    match delete_answer_key(answer_uuid) {
        Err(e) => Err(e),
        Ok(u) => {
            let outcome = delete(u);
            finish_delete(answer_uuid, UNKNOWN_ANSWER_UUID, outcome)
        },
    }
}

/// Lists the answers to a question: validates its identifier, and only for
/// a well-formed one runs the select statement and turns its outcome into
/// the store's result.
pub fn get_answers_with<F>(question_uuid: &String, select: F) -> (r: Result<
    Vec<AnswerDetail>,
    DBError,
>)
    where
        F: FnOnce(u128) -> Result<Vec<AnswerDetail>, DbFailure>,
    requires
        is_well_formed_identifier(question_uuid@) ==> select.requires(
            (identifier_value(question_uuid@),),
        ),
    ensures
        !is_well_formed_identifier(question_uuid@) ==> result_view(r) == Err::<
            Vec<AnswerDetail>,
            DBErrorView,
        >(malformed_identifier(MALFORMED_LISTED_QUESTION_UUID@, question_uuid@)),
        is_well_formed_identifier(question_uuid@) ==> exists|
            o: Result<Vec<AnswerDetail>, DbFailure>,
        |
            #[trigger] select.ensures((identifier_value(question_uuid@),), o) && result_view(r) == fetched_for(
                UNKNOWN_QUESTION_UUID@,
                question_uuid@,
                o,
            ),
{
    match get_answers_key(question_uuid) {
        Err(e) => Err(e),
        Ok(u) => {
            let outcome = select(u);
            finish_fetch_for(question_uuid, UNKNOWN_QUESTION_UUID, outcome)
        },
    }
}

} // verus!
