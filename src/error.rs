use vstd::prelude::*;
use vstd::string::StringExecFns;

verus! {

/// The message every opaque internal failure carries to the client.
pub const GENERIC_INTERNAL_MESSAGE: &'static str = "Something went wrong! Please try again.";

/// An error returned by a store.
///
/// `InvalidUUID` covers both a malformed identifier and an identifier that
/// the store rejected because it refers to no record. `Other` carries the
/// diagnostic text of any other failure.
#[derive(Debug, Clone, PartialEq, Eq)]
pub enum DBError {
    InvalidUUID(String),
    Other(String),
}

/// The mathematical form of a [`DBError`].
pub enum DBErrorView {
    InvalidUUID(Seq<char>),
    Other(Seq<char>),
}

impl View for DBError {
    type V = DBErrorView;

    open spec fn view(&self) -> DBErrorView {
        match self {
            DBError::InvalidUUID(m) => DBErrorView::InvalidUUID(m@),
            DBError::Other(m) => DBErrorView::Other(m@),
        }
    }
}

/// An error returned by a request handler.
#[derive(Debug, Clone, PartialEq, Eq)]
pub enum HandlerError {
    BadRequest(String),
    InternalError(String),
}

/// The mathematical form of a [`HandlerError`].
pub enum HandlerErrorView {
    BadRequest(Seq<char>),
    InternalError(Seq<char>),
}

impl View for HandlerError {
    type V = HandlerErrorView;

    open spec fn view(&self) -> HandlerErrorView {
        match self {
            HandlerError::BadRequest(m) => HandlerErrorView::BadRequest(m@),
            HandlerError::InternalError(m) => HandlerErrorView::InternalError(m@),
        }
    }
}

/// The internal error that hides what went wrong.
pub open spec fn generic_internal_error() -> HandlerErrorView {
    HandlerErrorView::InternalError(GENERIC_INTERNAL_MESSAGE@)
}

/// A result whose error part is replaced by its view.
pub open spec fn result_view<T, E: View>(r: Result<T, E>) -> Result<T, E::V> {
    match r {
        Ok(v) => Ok(v),
        Err(e) => Err(e@),
    }
}

impl HandlerError {
    /// The internal error with the fixed, non-leaking message.
    pub fn default_internal_error() -> (e: Self)
        ensures
            e@ == generic_internal_error(),
    {
        HandlerError::InternalError(String::from_str(GENERIC_INTERNAL_MESSAGE))
    }
}

} // verus!
