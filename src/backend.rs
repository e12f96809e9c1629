use crate::error::{DBError, DBErrorView};
use vstd::prelude::*;
use vstd::string::StringExecFns;

verus! {

/// The error code the relational backend reports for a reference to a row
/// that does not exist.
pub const FOREIGN_KEY_VIOLATION: &'static str = "23503";

/// What a failed call to the relational backend reported: the error code the
/// database gave, if it gave one, and a diagnostic rendering of the failure.
#[derive(Debug, Clone, PartialEq, Eq)]
pub struct DbFailure {
    pub code: Option<String>,
    pub detail: String,
}

/// The failure is the backend's report of a broken foreign-key reference.
pub open spec fn is_foreign_key_violation(f: DbFailure) -> bool {
    f.code matches Some(c) && c@ == FOREIGN_KEY_VIOLATION@
}

/// A backend failure kept as `Other`, with its diagnostic text.
pub open spec fn other_failure(f: DbFailure) -> DBErrorView {
    DBErrorView::Other(f.detail@)
}

/// The start of the message for a question identifier that the backend
/// rejected as referring to no usable record.
pub const UNKNOWN_QUESTION_UUID: &'static str = "Invalid question UUID: ";

/// What a backend failure becomes in an operation on the identifier `id`: a
/// broken foreign-key reference is `InvalidUUID`, `prefix` followed by the
/// identifier; any other failure is `Other`.
pub open spec fn failure_for(prefix: Seq<char>, id: Seq<char>, f: DbFailure) -> DBErrorView {
    if is_foreign_key_violation(f) {
        DBErrorView::InvalidUUID(prefix + id)
    } else {
        other_failure(f)
    }
}

/// The store's result for a backend call that returns records and takes no
/// identifier.
pub open spec fn fetched<T>(outcome: Result<T, DbFailure>) -> Result<T, DBErrorView> {
    match outcome {
        Ok(v) => Ok(v),
        Err(f) => Err(other_failure(f)),
    }
}

/// The store's result for a backend call on the identifier `id` that
/// returns records.
pub open spec fn fetched_for<T>(prefix: Seq<char>, id: Seq<char>, outcome: Result<T, DbFailure>) -> Result<
    T,
    DBErrorView,
> {
    match outcome {
        Ok(v) => Ok(v),
        Err(f) => Err(failure_for(prefix, id, f)),
    }
}

/// The store's result for a delete statement on the identifier `id`,
/// whatever number of rows it removed.
pub open spec fn deleted_for(prefix: Seq<char>, id: Seq<char>, outcome: Result<u64, DbFailure>) -> Result<
    (),
    DBErrorView,
> {
    match outcome {
        Ok(_) => Ok(()),
        Err(f) => Err(failure_for(prefix, id, f)),
    }
}

/// Tells whether the backend reported a broken foreign-key reference.
pub fn violates_foreign_key(f: &DbFailure) -> (b: bool)
    ensures
        b == is_foreign_key_violation(*f),
{
    match &f.code {
        Some(c) => {
            let expected = String::from_str(FOREIGN_KEY_VIOLATION);
            *c == expected
        },
        None => false,
    }
}

/// Wraps a backend failure as `Other`.
pub fn store_failure(f: DbFailure) -> (e: DBError)
    ensures
        e@ == other_failure(f),
{
    DBError::Other(f.detail)
}

/// Turns a backend failure in an operation on the identifier `id` into a
/// store error.
pub fn identifier_failure(id: &String, prefix: &str, f: DbFailure) -> (e: DBError)
    ensures
        e@ == failure_for(prefix@, id@, f),
{
    if violates_foreign_key(&f) {
        let mut message = String::from_str(prefix);
        message.append(id.as_str());
        DBError::InvalidUUID(message)
    } else {
        store_failure(f)
    }
}

/// Turns the outcome of a backend call that returns records and takes no
/// identifier into the store's result: the records as the backend returned
/// them, or `Other`.
pub fn finish_fetch<T>(outcome: Result<T, DbFailure>) -> (r: Result<T, DBError>)
    ensures
        crate::error::result_view(r) == fetched(outcome),
{
    match outcome {
        Ok(v) => Ok(v),
        Err(f) => Err(store_failure(f)),
    }
}

/// Turns the outcome of a backend call on the identifier `id` that returns
/// records into the store's result.
pub fn finish_fetch_for<T>(id: &String, prefix: &str, outcome: Result<T, DbFailure>) -> (r: Result<
    T,
    DBError,
>)
    ensures
        crate::error::result_view(r) == fetched_for(prefix@, id@, outcome),
{
    match outcome {
        Ok(v) => Ok(v),
        Err(f) => Err(identifier_failure(id, prefix, f)),
    }
}

/// Turns the outcome of a delete statement on the identifier `id` into the
/// store's result. A delete that removed no row is a success like any other.
pub fn finish_delete(id: &String, prefix: &str, outcome: Result<u64, DbFailure>) -> (r: Result<
    (),
    DBError,
>)
    ensures
        crate::error::result_view(r) == deleted_for(prefix@, id@, outcome),
{
    match outcome {
        Ok(_) => Ok(()),
        Err(f) => Err(identifier_failure(id, prefix, f)),
    }
}

/// A delete whose statement ran reports success, also when no row matched:
/// deleting a record that does not exist is not an error.
pub proof fn delete_of_missing_record_succeeds(prefix: Seq<char>, id: Seq<char>, removed: u64)
    ensures
        deleted_for(prefix, id, Ok(removed)) == Ok::<(), DBErrorView>(()),
{
}

} // verus!
