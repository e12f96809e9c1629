use std::sync::Mutex;

use qa_service::answers_dao::{create_answer_key, AnswersDao};
use qa_service::error::{DBError, HandlerError};
use qa_service::handlers::{
    create_answer, create_question, delete_answer, delete_question, read_answers, read_questions,
};
use qa_service::models::{Answer, AnswerDetail, AnswerId, Question, QuestionDetail, QuestionId};
use qa_service::questions_dao::{delete_question_key, QuestionsDao};

struct QuestionsDaoMock {
    create_question_response: Mutex<Option<Result<QuestionDetail, DBError>>>,
    delete_question_response: Mutex<Option<Result<(), DBError>>>,
    get_questions_response: Mutex<Option<Result<Vec<QuestionDetail>, DBError>>>,
}

impl QuestionsDaoMock {
    fn new() -> Self {
        QuestionsDaoMock {
            create_question_response: Mutex::new(None),
            delete_question_response: Mutex::new(None),
            get_questions_response: Mutex::new(None),
        }
    }
    fn mock_create_question(&mut self, response: Result<QuestionDetail, DBError>) {
        self.create_question_response = Mutex::new(Some(response));
    }
    fn mock_delete_question(&mut self, response: Result<(), DBError>) {
        self.delete_question_response = Mutex::new(Some(response));
    }
    fn mock_get_questions(&mut self, response: Result<Vec<QuestionDetail>, DBError>) {
        self.get_questions_response = Mutex::new(Some(response));
    }
}

impl QuestionsDao for QuestionsDaoMock {
    fn create_question(&self, _: Question) -> Result<QuestionDetail, DBError> {
        self.create_question_response
            .lock()
            .unwrap()
            .take()
            .expect("create_question_response should not be None.")
    }
    fn delete_question(&self, _: String) -> Result<(), DBError> {
        self.delete_question_response
            .lock()
            .unwrap()
            .take()
            .expect("delete_question_response should not be None.")
    }
    fn get_questions(&self) -> Result<Vec<QuestionDetail>, DBError> {
        self.get_questions_response
            .lock()
            .unwrap()
            .take()
            .expect("get_questions_response should not be None.")
    }
}

struct AnswersDaoMock {
    create_answer_response: Mutex<Option<Result<AnswerDetail, DBError>>>,
    delete_answer_response: Mutex<Option<Result<(), DBError>>>,
    get_answers_response: Mutex<Option<Result<Vec<AnswerDetail>, DBError>>>,
}

impl AnswersDaoMock {
    fn new() -> Self {
        AnswersDaoMock {
            create_answer_response: Mutex::new(None),
            delete_answer_response: Mutex::new(None),
            get_answers_response: Mutex::new(None),
        }
    }
    fn mock_create_answer(&mut self, response: Result<AnswerDetail, DBError>) {
        self.create_answer_response = Mutex::new(Some(response));
    }
    fn mock_delete_answer(&mut self, response: Result<(), DBError>) {
        self.delete_answer_response = Mutex::new(Some(response));
    }
    fn mock_get_answers(&mut self, response: Result<Vec<AnswerDetail>, DBError>) {
        self.get_answers_response = Mutex::new(Some(response));
    }
}

impl AnswersDao for AnswersDaoMock {
    fn create_answer(&self, _: Answer) -> Result<AnswerDetail, DBError> {
        self.create_answer_response
            .lock()
            .unwrap()
            .take()
            .expect("create_answer_response should not be None.")
    }
    fn delete_answer(&self, _: String) -> Result<(), DBError> {
        self.delete_answer_response
            .lock()
            .unwrap()
            .take()
            .expect("delete_answer_response should not be None.")
    }
    fn get_answers(&self, _: String) -> Result<Vec<AnswerDetail>, DBError> {
        self.get_answers_response
            .lock()
            .unwrap()
            .take()
            .expect("get_answers_response should not be None.")
    }
}

fn is_internal_error(e: &HandlerError) -> bool {
    std::mem::discriminant(e) == std::mem::discriminant(&HandlerError::InternalError("".to_owned()))
}

#[test]
fn create_question_should_return_question() {
    let question = Question {
        title: "test title".to_owned(),
        description: "test description".to_owned(),
    };

    let question_detail = QuestionDetail {
        question_uuid: "123".to_owned(),
        title: question.title.clone(),
        description: question.description.clone(),
        created_at: "now".to_owned(),
    };

    let mut questions_dao = QuestionsDaoMock::new();
    questions_dao.mock_create_question(Ok(question_detail.clone()));

    let result = create_question(question, &questions_dao);

    assert!(result.is_ok());
    assert_eq!(result.unwrap(), question_detail);
}

#[test]
fn create_question_should_return_error() {
    let question = Question {
        title: "test title".to_owned(),
        description: "test description".to_owned(),
    };

    let mut questions_dao = QuestionsDaoMock::new();
    questions_dao.mock_create_question(Err(DBError::InvalidUUID("test".to_owned())));

    let result = create_question(question, &questions_dao);

    assert!(result.is_err());
    assert!(is_internal_error(&result.unwrap_err()));
}

#[test]
fn read_questions_should_return_questions() {
    let question_detail = QuestionDetail {
        question_uuid: "123".to_owned(),
        title: "test title".to_owned(),
        description: "test description".to_owned(),
        created_at: "now".to_owned(),
    };

    let mut questions_dao = QuestionsDaoMock::new();
    questions_dao.mock_get_questions(Ok(vec![question_detail.clone()]));

    let result = read_questions(&questions_dao);

    assert!(result.is_ok());
    assert_eq!(result.unwrap(), vec![question_detail]);
}

#[test]
fn read_questions_should_return_error() {
    let mut questions_dao = QuestionsDaoMock::new();
    questions_dao.mock_get_questions(Err(DBError::InvalidUUID("test".to_owned())));

    let result = read_questions(&questions_dao);

    assert!(result.is_err());
    assert!(is_internal_error(&result.unwrap_err()));
}

#[test]
fn delete_question_should_succeed() {
    let question_id = QuestionId {
        question_uuid: "123".to_owned(),
    };

    let mut questions_dao = QuestionsDaoMock::new();
    questions_dao.mock_delete_question(Ok(()));

    let result = delete_question(question_id, &questions_dao);

    assert!(result.is_ok());
    assert_eq!(result.unwrap(), ());
}

#[test]
fn delete_question_should_return_error() {
    let question_id = QuestionId {
        question_uuid: "123".to_owned(),
    };

    let mut questions_dao = QuestionsDaoMock::new();
    questions_dao.mock_delete_question(Err(DBError::InvalidUUID("test".to_owned())));

    let result = delete_question(question_id, &questions_dao);

    assert!(result.is_err());
    assert!(is_internal_error(&result.unwrap_err()));
}

#[test]
fn create_answer_should_return_answer() {
    let answer = Answer {
        question_uuid: "123".to_owned(),
        content: "test content".to_owned(),
    };

    let answer_detail = AnswerDetail {
        answer_uuid: "456".to_owned(),
        question_uuid: answer.question_uuid.clone(),
        content: answer.content.clone(),
        created_at: "now".to_owned(),
    };

    let mut answers_dao = AnswersDaoMock::new();
    answers_dao.mock_create_answer(Ok(answer_detail.clone()));

    let result = create_answer(answer, &answers_dao);

    assert!(result.is_ok());
    assert_eq!(result.unwrap(), answer_detail);
}

#[test]
fn create_answer_should_return_bad_request_error() {
    let answer = Answer {
        question_uuid: "123".to_owned(),
        content: "test content".to_owned(),
    };

    let mut answers_dao = AnswersDaoMock::new();
    answers_dao.mock_create_answer(Err(DBError::InvalidUUID("test".to_owned())));

    let result = create_answer(answer, &answers_dao);

    assert!(result.is_err());
    assert!(
        std::mem::discriminant(&result.unwrap_err())
            == std::mem::discriminant(&HandlerError::BadRequest("".to_owned()))
    );
}

#[test]
fn create_answer_should_return_internal_error() {
    let answer = Answer {
        question_uuid: "123".to_owned(),
        content: "test content".to_owned(),
    };

    let mut answers_dao = AnswersDaoMock::new();
    answers_dao.mock_create_answer(Err(DBError::Other(format!(
        "{:?}",
        std::io::Error::new(std::io::ErrorKind::Other, "oh no!")
    ))));

    let result = create_answer(answer, &answers_dao);

    assert!(result.is_err());
    assert!(is_internal_error(&result.unwrap_err()));
}

#[test]
fn read_answers_should_return_answers() {
    let answer_detail = AnswerDetail {
        answer_uuid: "456".to_owned(),
        question_uuid: "123".to_owned(),
        content: "test content".to_owned(),
        created_at: "now".to_owned(),
    };

    let question_id = QuestionId {
        question_uuid: "123".to_owned(),
    };

    let mut answers_dao = AnswersDaoMock::new();
    answers_dao.mock_get_answers(Ok(vec![answer_detail.clone()]));

    let result = read_answers(question_id, &answers_dao);

    assert!(result.is_ok());
    assert_eq!(result.unwrap(), vec![answer_detail]);
}

#[test]
fn read_answers_should_return_error() {
    let question_id = QuestionId {
        question_uuid: "123".to_owned(),
    };

    let mut answers_dao = AnswersDaoMock::new();
    answers_dao.mock_get_answers(Err(DBError::InvalidUUID("test".to_owned())));

    let result = read_answers(question_id, &answers_dao);

    assert!(result.is_err());
    assert!(is_internal_error(&result.unwrap_err()));
}

#[test]
fn delete_answer_should_succeed() {
    let answer_id = AnswerId {
        answer_uuid: "123".to_owned(),
    };

    let mut answers_dao = AnswersDaoMock::new();
    answers_dao.mock_delete_answer(Ok(()));

    let result = delete_answer(answer_id, &answers_dao);

    assert!(result.is_ok());
    assert_eq!(result.unwrap(), ());
}

#[test]
fn delete_answer_should_return_error() {
    let answer_id = AnswerId {
        answer_uuid: "123".to_owned(),
    };

    let mut answers_dao = AnswersDaoMock::new();
    answers_dao.mock_delete_answer(Err(DBError::InvalidUUID("test".to_owned())));

    let result = delete_answer(answer_id, &answers_dao);

    assert!(result.is_err());
    assert!(is_internal_error(&result.unwrap_err()));
}

#[test]
fn create_question_hides_the_store_message() {
    let mut questions_dao = QuestionsDaoMock::new();
    questions_dao.mock_create_question(Err(DBError::Other("connection refused".to_owned())));

    let question = Question {
        title: "t".to_owned(),
        description: "d".to_owned(),
    };
    let result = create_question(question, &questions_dao);

    assert_eq!(
        result,
        Err(HandlerError::InternalError(
            "Something went wrong! Please try again.".to_owned()
        ))
    );
}

#[test]
fn create_answer_passes_the_store_message_on() {
    let mut answers_dao = AnswersDaoMock::new();
    answers_dao.mock_create_answer(Err(DBError::InvalidUUID(
        "Invalid question UUID: 7f1c9a52-0c6e-4f0e-9b2f-2a64f2d1f0aa".to_owned(),
    )));

    let answer = Answer {
        question_uuid: "7f1c9a52-0c6e-4f0e-9b2f-2a64f2d1f0aa".to_owned(),
        content: "c".to_owned(),
    };
    let result = create_answer(answer, &answers_dao);

    assert_eq!(
        result,
        Err(HandlerError::BadRequest(
            "Invalid question UUID: 7f1c9a52-0c6e-4f0e-9b2f-2a64f2d1f0aa".to_owned()
        ))
    );
}

/// A store double that validates identifiers as a relational store does and then
/// hands out scripted records.
struct ValidatingStore {
    question: QuestionDetail,
    answer: Mutex<Option<AnswerDetail>>,
}

impl QuestionsDao for ValidatingStore {
    fn create_question(&self, _: Question) -> Result<QuestionDetail, DBError> {
        Ok(self.question.clone())
    }
    fn delete_question(&self, question_uuid: String) -> Result<(), DBError> {
        delete_question_key(&question_uuid)?;
        Ok(())
    }
    fn get_questions(&self) -> Result<Vec<QuestionDetail>, DBError> {
        Ok(vec![self.question.clone()])
    }
}

impl AnswersDao for ValidatingStore {
    fn create_answer(&self, answer: Answer) -> Result<AnswerDetail, DBError> {
        create_answer_key(&answer)?;
        Ok(self.answer.lock().unwrap().take().expect("one answer is scripted"))
    }
    fn delete_answer(&self, _: String) -> Result<(), DBError> {
        Ok(())
    }
    fn get_answers(&self, _: String) -> Result<Vec<AnswerDetail>, DBError> {
        Ok(vec![])
    }
}

#[test]
fn question_answer_round() {
    let uuid = "9b2e6f4a-3c1d-4e5f-8a7b-1c2d3e4f5a6b";
    let store = ValidatingStore {
        question: QuestionDetail {
            question_uuid: uuid.to_owned(),
            title: "t".to_owned(),
            description: "d".to_owned(),
            created_at: "2024-01-01 00:00:00.0 +00:00:00".to_owned(),
        },
        answer: Mutex::new(Some(AnswerDetail {
            answer_uuid: "0e0c4d8a-5b7f-4a61-9d3c-6f2b8e1a7c90".to_owned(),
            question_uuid: uuid.to_owned(),
            content: "c".to_owned(),
            created_at: "2024-01-01 00:00:01.0 +00:00:00".to_owned(),
        })),
    };

    let created = create_question(
        Question {
            title: "t".to_owned(),
            description: "d".to_owned(),
        },
        &store,
    )
    .unwrap();
    assert_eq!(created.title, "t");
    assert_eq!(created.description, "d");
    assert!(!created.question_uuid.is_empty());
    assert!(!created.created_at.is_empty());

    let answered = create_answer(
        Answer {
            question_uuid: created.question_uuid.clone(),
            content: "c".to_owned(),
        },
        &store,
    );
    assert!(answered.is_ok());

    let refused = create_answer(
        Answer {
            question_uuid: "not-a-uuid".to_owned(),
            content: "c".to_owned(),
        },
        &store,
    );
    assert_eq!(
        refused,
        Err(HandlerError::BadRequest(
            "Could not parse answer UUID: not-a-uuid".to_owned()
        ))
    );

    let deleted = delete_question(
        QuestionId {
            question_uuid: created.question_uuid.clone(),
        },
        &store,
    );
    assert_eq!(deleted, Ok(()));
}
