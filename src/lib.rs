//! Question and answer service core: the domain records, the store
//! capabilities, the rules that turn backend outcomes into store errors, and
//! the request handlers that turn store errors into client-facing errors.
pub mod answers_dao;
pub mod backend;
pub mod error;
pub mod handlers;
pub mod identifier;
pub mod models;
pub mod questions_dao;
pub mod sql_store;
