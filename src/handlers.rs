use crate::answers_dao::AnswersDao;
use crate::backend::{deleted_for, fetched, fetched_for, is_foreign_key_violation, DbFailure, UNKNOWN_QUESTION_UUID};
use crate::error::{generic_internal_error, result_view, DBError, DBErrorView, HandlerError, HandlerErrorView};
use crate::identifier::malformed_identifier;
use crate::models::{Answer, AnswerDetail, AnswerId, Question, QuestionDetail, QuestionId};
use crate::questions_dao::QuestionsDao;
use vstd::prelude::*;

verus! {

/// What a handler other than answer creation makes of a store result: the
/// value unchanged, or the generic internal error for any store error.
pub open spec fn handled<T>(r: Result<T, DBErrorView>) -> Result<T, HandlerErrorView> {
    match r {
        Ok(v) => Ok(v),
        Err(_) => Err(generic_internal_error()),
    }
}

/// What the answer-creation handler makes of a store result: the answer
/// unchanged; a bad request with the store's message for an identifier that
/// is malformed or names no question; the generic internal error otherwise.
pub open spec fn answer_creation_handled(r: Result<AnswerDetail, DBErrorView>) -> Result<
    AnswerDetail,
    HandlerErrorView,
> {
    match r {
        Ok(v) => Ok(v),
        Err(DBErrorView::InvalidUUID(m)) => Err(HandlerErrorView::BadRequest(m)),
        Err(DBErrorView::Other(_)) => Err(generic_internal_error()),
    }
}

/// Maps a store result for every handler but answer creation.
pub fn handle_store_result<T>(r: Result<T, DBError>) -> (out: Result<T, HandlerError>)
    ensures
        result_view(out) == handled(result_view(r)),
{
    match r {
        Ok(v) => Ok(v),
        Err(_) => Err(HandlerError::default_internal_error()),
    }
}

/// Maps a store result for answer creation.
pub fn handle_answer_creation(r: Result<AnswerDetail, DBError>) -> (out: Result<
    AnswerDetail,
    HandlerError,
>)
    ensures
        result_view(out) == answer_creation_handled(result_view(r)),
{
    match r {
        Ok(v) => Ok(v),
        Err(DBError::InvalidUUID(m)) => Err(HandlerError::BadRequest(m)),
        Err(DBError::Other(_)) => Err(HandlerError::default_internal_error()),
    }
}

/// Creates a question through the store. Any store error becomes the
/// generic internal error.
pub fn create_question<D: QuestionsDao>(question: Question, questions_dao: &D) -> (r: Result<
    QuestionDetail,
    HandlerError,
>)
    ensures
        exists|s: Result<QuestionDetail, DBError>|
            #[trigger] questions_dao.created_as(question, s) && result_view(r) == handled(
                result_view(s),
            ),
        r matches Err(e) ==> e@ == generic_internal_error(),
{
    handle_store_result(questions_dao.create_question(question))
}

/// Lists every question through the store. Any store error becomes the
/// generic internal error.
pub fn read_questions<D: QuestionsDao>(questions_dao: &D) -> (r: Result<
    Vec<QuestionDetail>,
    HandlerError,
>)
    ensures
        exists|s: Result<Vec<QuestionDetail>, DBError>|
            #[trigger] questions_dao.listed_as(s) && result_view(r) == handled(result_view(s)),
        r matches Err(e) ==> e@ == generic_internal_error(),
{
    handle_store_result(questions_dao.get_questions())
}

/// Deletes a question through the store. Any store error becomes the generic
/// internal error.
pub fn delete_question<D: QuestionsDao>(question_id: QuestionId, questions_dao: &D) -> (r: Result<
    (),
    HandlerError,
>)
    ensures
        exists|s: Result<(), DBError>|
            #[trigger] questions_dao.deleted_as(question_id.question_uuid@, s) && result_view(r)
                == handled(result_view(s)),
        r matches Err(e) ==> e@ == generic_internal_error(),
{
    handle_store_result(questions_dao.delete_question(question_id.question_uuid))
}

/// Creates an answer through the store. An identifier the store rejects
/// becomes a bad request carrying the store's message; any other store error
/// becomes the generic internal error.
pub fn create_answer<D: AnswersDao>(answer: Answer, answers_dao: &D) -> (r: Result<
    AnswerDetail,
    HandlerError,
>)
    ensures
        exists|s: Result<AnswerDetail, DBError>|
            #[trigger] answers_dao.created_as(answer, s) && result_view(r)
                == answer_creation_handled(result_view(s)),
        r matches Err(e) ==> (e is BadRequest || e@ == generic_internal_error()),
{
    handle_answer_creation(answers_dao.create_answer(answer))
}

/// Lists the answers to a question through the store. Any store error,
/// a malformed identifier included, becomes the generic internal error.
pub fn read_answers<D: AnswersDao>(question_id: QuestionId, answers_dao: &D) -> (r: Result<
    Vec<AnswerDetail>,
    HandlerError,
>)
    ensures
        exists|s: Result<Vec<AnswerDetail>, DBError>|
            #[trigger] answers_dao.listed_as(question_id.question_uuid@, s) && result_view(r)
                == handled(result_view(s)),
        r matches Err(e) ==> e@ == generic_internal_error(),
{
    handle_store_result(answers_dao.get_answers(question_id.question_uuid))
}

/// Deletes an answer through the store. Any store error becomes the generic
/// internal error.
pub fn delete_answer<D: AnswersDao>(answer_id: AnswerId, answers_dao: &D) -> (r: Result<
    (),
    HandlerError,
>)
    ensures
        exists|s: Result<(), DBError>|
            #[trigger] answers_dao.deleted_as(answer_id.answer_uuid@, s) && result_view(r)
                == handled(result_view(s)),
        r matches Err(e) ==> e@ == generic_internal_error(),
{
    handle_store_result(answers_dao.delete_answer(answer_id.answer_uuid))
}

/// An answer to a question the store does not hold is refused as a bad
/// request whose message ends with the identifier the client gave, whether
/// the identifier is malformed or well formed but unknown to the store.
pub proof fn answer_to_missing_question_is_bad_request(
    question_uuid: Seq<char>,
    prefix: Seq<char>,
    f: DbFailure,
)
    requires
        is_foreign_key_violation(f),
    ensures
        answer_creation_handled(fetched_for(UNKNOWN_QUESTION_UUID@, question_uuid, Err::<AnswerDetail, DbFailure>(f)))
            == Err::<AnswerDetail, HandlerErrorView>(
            HandlerErrorView::BadRequest(UNKNOWN_QUESTION_UUID@ + question_uuid),
        ),
        answer_creation_handled(Err(malformed_identifier(prefix, question_uuid)))
            == Err::<AnswerDetail, HandlerErrorView>(
            HandlerErrorView::BadRequest(prefix + question_uuid),
        ),
        (UNKNOWN_QUESTION_UUID@ + question_uuid).skip(UNKNOWN_QUESTION_UUID@.len() as int)
            == question_uuid,
        (prefix + question_uuid).skip(prefix.len() as int) == question_uuid,
{
    assert((UNKNOWN_QUESTION_UUID@ + question_uuid).skip(UNKNOWN_QUESTION_UUID@.len() as int)
        =~= question_uuid);
    assert((prefix + question_uuid).skip(prefix.len() as int) =~= question_uuid);
}

/// A question insert that fails in the backend reaches the client as the
/// generic internal error, and nothing of the backend's report leaks.
pub proof fn failed_question_insert_is_opaque(f: DbFailure)
    ensures
        handled(fetched::<QuestionDetail>(Err(f))) == Err::<QuestionDetail, HandlerErrorView>(
            generic_internal_error(),
        ),
{
}

/// Every store error other than for answer creation, an `Other` as much as
/// an `InvalidUUID`, reaches the client as the generic internal error.
pub proof fn store_errors_are_opaque<T>(e: DBErrorView)
    ensures
        handled(Err::<T, DBErrorView>(e)) == Err::<T, HandlerErrorView>(generic_internal_error()),
{
}

/// The record the backend returned for a new question reaches the client
/// unchanged.
pub proof fn created_question_reaches_client_unchanged(d: QuestionDetail)
    ensures
        handled(fetched::<QuestionDetail>(Ok(d))) == Ok::<QuestionDetail, HandlerErrorView>(d),
{
}

/// Deleting a question or an answer that does not exist reaches the client
/// as success with no value.
pub proof fn delete_of_missing_record_reaches_client_as_success(prefix: Seq<char>, id: Seq<char>)
    ensures
        handled(deleted_for(prefix, id, Ok(0u64))) == Ok::<(), HandlerErrorView>(()),
{
}

} // verus!
