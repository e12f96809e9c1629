use crate::answers_dao::{
    create_answer_with, delete_answer_with, get_answers_with, AnswersDao, MALFORMED_ANSWER_UUID,
    MALFORMED_LISTED_QUESTION_UUID, UNKNOWN_ANSWER_UUID,
};
use crate::backend::{
    deleted_for, fetched, fetched_for, is_foreign_key_violation, DbFailure, UNKNOWN_QUESTION_UUID,
};
use crate::error::{result_view, DBError, DBErrorView, HandlerErrorView};
use crate::handlers::answer_creation_handled;
use crate::identifier::{identifier_value, is_well_formed_identifier, malformed_identifier};
use crate::models::{Answer, AnswerDetail, Question, QuestionDetail};
use crate::questions_dao::{
    create_question_with, delete_question_with, get_questions_with, QuestionsDao,
    MALFORMED_QUESTION_UUID,
};
use vstd::prelude::*;

verus! {

/// The statements a relational backend runs on questions. Each may say,
/// through its relation, which outcomes it may give; one that says nothing
/// admits any outcome.
pub trait QuestionStatements {
    /// `o` is an outcome the insert of `question` may give.
    open spec fn inserted_as(&self, question: Question, o: Result<QuestionDetail, DbFailure>) -> bool {
        true
    }

    /// `o` is an outcome the delete of the question `question` may give.
    open spec fn deleted_rows_as(&self, question: u128, o: Result<u64, DbFailure>) -> bool {
        true
    }

    /// `o` is an outcome the select of every question may give.
    open spec fn selected_as(&self, o: Result<Vec<QuestionDetail>, DbFailure>) -> bool {
        true
    }

    /// Inserts a question and returns the stored record.
    fn insert_question(&self, question: Question) -> (o: Result<QuestionDetail, DbFailure>)
        ensures
            self.inserted_as(question, o),
    ;

    /// Deletes the question with the given identifier value and returns the
    /// number of rows removed.
    fn delete_question_row(&self, question: u128) -> (o: Result<u64, DbFailure>)
        ensures
            self.deleted_rows_as(question, o),
    ;

    /// Selects every question.
    fn select_questions(&self) -> (o: Result<Vec<QuestionDetail>, DbFailure>)
        ensures
            self.selected_as(o),
    ;
}

/// The statements a relational backend runs on answers, with relations as
/// for [`QuestionStatements`].
pub trait AnswerStatements {
    /// `o` is an outcome the insert of an answer to `question` with
    /// `content` may give.
    open spec fn inserted_as(&self, question: u128, content: Seq<char>, o: Result<AnswerDetail, DbFailure>) -> bool {
        true
    }

    /// `o` is an outcome the delete of the answer `answer` may give.
    open spec fn deleted_rows_as(&self, answer: u128, o: Result<u64, DbFailure>) -> bool {
        true
    }

    /// `o` is an outcome the select of the answers to `question` may give.
    open spec fn selected_as(&self, question: u128, o: Result<Vec<AnswerDetail>, DbFailure>) -> bool {
        true
    }

    /// Inserts an answer to the question with the given identifier value.
    fn insert_answer(&self, question: u128, content: String) -> (o: Result<AnswerDetail, DbFailure>)
        ensures
            self.inserted_as(question, content@, o),
    ;

    /// Deletes the answer with the given identifier value and returns the
    /// number of rows removed.
    fn delete_answer_row(&self, answer: u128) -> (o: Result<u64, DbFailure>)
        ensures
            self.deleted_rows_as(answer, o),
    ;

    /// Selects the answers to the question with the given identifier value.
    fn select_answers(&self, question: u128) -> (o: Result<Vec<AnswerDetail>, DbFailure>)
        ensures
            self.selected_as(question, o),
    ;
}

/// The question store over a relational backend.
pub struct SqlQuestions<S> {
    pub statements: S,
}

/// The answer store over a relational backend.
pub struct SqlAnswers<S> {
    pub statements: S,
}

/// The store's result for deleting the question `id`: the malformed
/// identifier error, or what the delete statement on its value gave.
pub open spec fn sql_question_deleted<S: QuestionStatements>(
    statements: S,
    id: Seq<char>,
    r: Result<(), DBError>,
) -> bool {
    if is_well_formed_identifier(id) {
        exists|o: Result<u64, DbFailure>|
            #[trigger] statements.deleted_rows_as(identifier_value(id), o) && result_view(r)
                == deleted_for(UNKNOWN_QUESTION_UUID@, id, o)
    } else {
        result_view(r) == Err::<(), DBErrorView>(malformed_identifier(MALFORMED_QUESTION_UUID@, id))
    }
}

impl<S: QuestionStatements> QuestionsDao for SqlQuestions<S> {
    open spec fn created_as(&self, question: Question, r: Result<QuestionDetail, DBError>) -> bool {
        exists|o: Result<QuestionDetail, DbFailure>|
            #[trigger] self.statements.inserted_as(question, o) && result_view(r) == fetched(o)
    }

    open spec fn deleted_as(&self, question_uuid: Seq<char>, r: Result<(), DBError>) -> bool {
        sql_question_deleted(self.statements, question_uuid, r)
    }

    open spec fn listed_as(&self, r: Result<Vec<QuestionDetail>, DBError>) -> bool {
        exists|o: Result<Vec<QuestionDetail>, DbFailure>|
            #[trigger] self.statements.selected_as(o) && result_view(r) == fetched(o)
    }

    fn create_question(&self, question: Question) -> (r: Result<QuestionDetail, DBError>) {
        let insert = |q: Question| -> (o: Result<QuestionDetail, DbFailure>)
            ensures
                self.statements.inserted_as(q, o),
            { self.statements.insert_question(q) };
        create_question_with(question, insert)
    }

    fn delete_question(&self, question_uuid: String) -> (r: Result<(), DBError>) {
        let delete = |u: u128| -> (o: Result<u64, DbFailure>)
            ensures
                self.statements.deleted_rows_as(u, o),
            { self.statements.delete_question_row(u) };
        delete_question_with(&question_uuid, delete)
    }

    fn get_questions(&self) -> (r: Result<Vec<QuestionDetail>, DBError>) {
        let select = || -> (o: Result<Vec<QuestionDetail>, DbFailure>)
            ensures
                self.statements.selected_as(o),
            { self.statements.select_questions() };
        get_questions_with(select)
    }
}

/// The store's result for creating `answer`: the malformed identifier
/// error, or what the insert statement on its question's value and its
/// content gave.
pub open spec fn sql_answer_created<S: AnswerStatements>(
    statements: S,
    answer: Answer,
    r: Result<AnswerDetail, DBError>,
) -> bool {
    let id = answer.question_uuid@;
    if is_well_formed_identifier(id) {
        exists|o: Result<AnswerDetail, DbFailure>|
            #[trigger] statements.inserted_as(identifier_value(id), answer.content@, o)
                && result_view(r) == fetched_for(UNKNOWN_QUESTION_UUID@, id, o)
    } else {
        result_view(r) == Err::<AnswerDetail, DBErrorView>(
            malformed_identifier(MALFORMED_ANSWER_UUID@, id),
        )
    }
}

/// The store's result for deleting the answer `id`.
pub open spec fn sql_answer_deleted<S: AnswerStatements>(
    statements: S,
    id: Seq<char>,
    r: Result<(), DBError>,
) -> bool {
    if is_well_formed_identifier(id) {
        exists|o: Result<u64, DbFailure>|
            #[trigger] statements.deleted_rows_as(identifier_value(id), o) && result_view(r)
                == deleted_for(UNKNOWN_ANSWER_UUID@, id, o)
    } else {
        result_view(r) == Err::<(), DBErrorView>(malformed_identifier(MALFORMED_ANSWER_UUID@, id))
    }
}

/// The store's result for listing the answers to the question `id`.
pub open spec fn sql_answers_listed<S: AnswerStatements>(
    statements: S,
    id: Seq<char>,
    r: Result<Vec<AnswerDetail>, DBError>,
) -> bool {
    if is_well_formed_identifier(id) {
        exists|o: Result<Vec<AnswerDetail>, DbFailure>|
            #[trigger] statements.selected_as(identifier_value(id), o) && result_view(r)
                == fetched_for(UNKNOWN_QUESTION_UUID@, id, o)
    } else {
        result_view(r) == Err::<Vec<AnswerDetail>, DBErrorView>(
            malformed_identifier(MALFORMED_LISTED_QUESTION_UUID@, id),
        )
    }
}

impl<S: AnswerStatements> AnswersDao for SqlAnswers<S> {
    open spec fn created_as(&self, answer: Answer, r: Result<AnswerDetail, DBError>) -> bool {
        sql_answer_created(self.statements, answer, r)
    }

    open spec fn deleted_as(&self, answer_uuid: Seq<char>, r: Result<(), DBError>) -> bool {
        sql_answer_deleted(self.statements, answer_uuid, r)
    }

    open spec fn listed_as(&self, question_uuid: Seq<char>, r: Result<Vec<AnswerDetail>, DBError>) -> bool {
        sql_answers_listed(self.statements, question_uuid, r)
    }

    fn create_answer(&self, answer: Answer) -> (r: Result<AnswerDetail, DBError>) {
        let insert = |u: u128, c: String| -> (o: Result<AnswerDetail, DbFailure>)
            ensures
                self.statements.inserted_as(u, c@, o),
            { self.statements.insert_answer(u, c) };
        create_answer_with(answer, insert)
    }

    fn delete_answer(&self, answer_uuid: String) -> (r: Result<(), DBError>) {
        let delete = |u: u128| -> (o: Result<u64, DbFailure>)
            ensures
                self.statements.deleted_rows_as(u, o),
            { self.statements.delete_answer_row(u) };
        delete_answer_with(&answer_uuid, delete)
    }

    fn get_answers(&self, question_uuid: String) -> (r: Result<Vec<AnswerDetail>, DBError>) {
        let select = |u: u128| -> (o: Result<Vec<AnswerDetail>, DbFailure>)
            ensures
                self.statements.selected_as(u, o),
            { self.statements.select_answers(u) };
        get_answers_with(&question_uuid, select)
    }
}

/// An answer to a question the backend does not hold reaches the client as
/// a bad request whose message ends with the identifier the client gave.
/// `s` is a result the relational answer store may give for `answer`; the
/// backend's insert for a well-formed identifier can only report a broken
/// foreign-key reference.
pub proof fn answer_to_missing_question_reaches_client_as_bad_request<S: AnswerStatements>(
    store: SqlAnswers<S>,
    answer: Answer,
    s: Result<AnswerDetail, DBError>,
)
    requires
        store.created_as(answer, s),
        is_well_formed_identifier(answer.question_uuid@) ==> forall|o: Result<AnswerDetail, DbFailure>|
            #[trigger] store.statements.inserted_as(
                identifier_value(answer.question_uuid@),
                answer.content@,
                o,
            ) ==> (o matches Err(f) && is_foreign_key_violation(f)),
    ensures
        ({
            let q = answer.question_uuid@;
            ||| answer_creation_handled(result_view(s)) == Err::<AnswerDetail, HandlerErrorView>(
                HandlerErrorView::BadRequest(UNKNOWN_QUESTION_UUID@ + q),
            )
            ||| answer_creation_handled(result_view(s)) == Err::<AnswerDetail, HandlerErrorView>(
                HandlerErrorView::BadRequest(MALFORMED_ANSWER_UUID@ + q),
            )
        }),
{
}

/// Deleting a question that does not exist succeeds: `r` is a result the
/// relational question store may give for a well-formed identifier whose
/// delete statement runs, whatever number of rows it removes.
pub proof fn delete_of_missing_question_succeeds<S: QuestionStatements>(
    store: SqlQuestions<S>,
    question_uuid: Seq<char>,
    r: Result<(), DBError>,
)
    requires
        store.deleted_as(question_uuid, r),
        is_well_formed_identifier(question_uuid),
        forall|o: Result<u64, DbFailure>|
            #[trigger] store.statements.deleted_rows_as(identifier_value(question_uuid), o) ==> o is Ok,
    ensures
        r is Ok,
{
}

/// Deleting an answer that does not exist succeeds, as for questions.
pub proof fn delete_of_missing_answer_succeeds<S: AnswerStatements>(
    store: SqlAnswers<S>,
    answer_uuid: Seq<char>,
    r: Result<(), DBError>,
)
    requires
        store.deleted_as(answer_uuid, r),
        is_well_formed_identifier(answer_uuid),
        forall|o: Result<u64, DbFailure>|
            #[trigger] store.statements.deleted_rows_as(identifier_value(answer_uuid), o) ==> o is Ok,
    ensures
        r is Ok,
{
}

} // verus!
