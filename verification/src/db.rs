//! Errors of the database layer and the statuses they are answered with.
use vstd::prelude::*;

use crate::status::{Code, Status};
use crate::text::str_equal;

verus! {

/// What the database server reported about a statement that failed.
#[derive(Debug)]
pub struct DatabaseError {
    /// The SQLSTATE code of the error.
    pub code: String,
    pub message: String,
    /// The server routine that raised the error, where it names one.
    pub routine: Option<String>,
}

/// An error of the database layer.
#[derive(Debug)]
pub enum DbError {
    /// A statement failed; `Some` where the server reported the error, `None`
    /// where the client raised it (a lost connection, for instance).
    TokioPostgres(Option<DatabaseError>),
    /// No connection could be taken from the pool.
    Pool(String),
    /// The pool could not be created.
    CreatePool(String),
    /// The statement could not be built.
    SeaQuery(String),
    /// A request argument could not be used in a statement.
    Argument(String),
}

/// The SQLSTATE of a unique constraint violation.
pub open spec fn unique_violation() -> Seq<char> {
    "23505"@
}

/// The SQLSTATE of a syntax error.
pub open spec fn syntax_error() -> Seq<char> {
    "42601"@
}

/// Whether `err` is a syntax error that the server raised while reading a
/// text search query.
pub open spec fn is_ts_query_syntax_error(err: &DbError) -> bool {
    err matches DbError::TokioPostgres(Some(e)) && e.code@ == syntax_error() && (e.routine matches Some(
        r,
    ) && r@ == "toTSQuery"@)
}

/// Whether the service has an answer for `err`: a server error that is a
/// unique violation or a syntax error, or an error raised by the client.
pub open spec fn has_status(err: &DbError) -> bool {
    match err {
        DbError::TokioPostgres(None) => true,
        DbError::TokioPostgres(Some(e)) => e.code@ == unique_violation() || e.code@
            == syntax_error(),
        _ => false,
    }
}

/// The status the service answers `err` with.
pub open spec fn status_of(err: &DbError) -> (Code, Seq<char>) {
    match err {
        DbError::TokioPostgres(Some(e)) => if e.code@ == unique_violation() {
            (Code::AlreadyExists, e.message@)
        } else {
            (Code::Internal, ""@)
        },
        _ => (Code::Internal, ""@),
    }
}

impl DbError {
    /// Whether the service has an answer for this error (see `has_status`).
    pub fn is_answered(&self) -> (r: bool)
        ensures
            r == has_status(self),
    {
        match self {
            DbError::TokioPostgres(None) => true,
            DbError::TokioPostgres(Some(e)) => str_equal(e.code.as_str(), "23505") || str_equal(
                e.code.as_str(),
                "42601",
            ),
            _ => false,
        }
    }

    /// Turns a syntax error in a text search query into `default`: such a
    /// query matches nothing. Any other error is handed back.
    pub fn ignore_to_ts_query<T>(self, default: T) -> (r: Result<T, DbError>)
        ensures
            is_ts_query_syntax_error(&self) ==> r == Ok::<T, DbError>(default),
            !is_ts_query_syntax_error(&self) ==> r == Err::<T, DbError>(self),
    {
        let ignore = match &self {
            DbError::TokioPostgres(Some(e)) => {
                str_equal(e.code.as_str(), "42601") && match &e.routine {
                    Some(r) => str_equal(r.as_str(), "toTSQuery"),
                    None => false,
                }
            },
            _ => false,
        };
        if ignore {
            Ok(default)
        } else {
            Err(self)
        }
    }
}

impl Status {
    /// The status that a database error is answered with: a unique violation
    /// as `AlreadyExists` with the server's message, a syntax error or an
    /// error raised by the client as an internal error.
    pub fn from_db_error(err: DbError) -> (r: Status)
        requires
            has_status(&err),
        ensures
            r@ == status_of(&err),
    {
        match err {
            DbError::TokioPostgres(Some(e)) => {
                if str_equal(e.code.as_str(), "23505") {
                    Status::with_message(Code::AlreadyExists, e.message)
                } else {
                    Status::internal("")
                }
            },
            _ => Status::internal(""),
        }
    }
}

/// The status that a database error is answered with, for errors that the
/// server reported as a unique violation or a syntax error.
pub fn db_err_to_grpc_status(db_err: DbError) -> (r: Status)
    requires
        db_err matches DbError::TokioPostgres(Some(e)) && has_status(&db_err),
    ensures
        r@ == status_of(&db_err),
{
    Status::from_db_error(db_err)
}

/// A server error with the code of a unique violation is answered as already
/// existing, with the server's message; one with the code of a syntax error
/// is answered as internal without a message, and is passed over where the
/// server raised it reading a text search query; any other server error has
/// no answer; an error the client raised is answered as internal.
pub proof fn lemma_db_error_answers(e: DatabaseError)
    ensures
        e.code@ == "23505"@ ==> has_status(&DbError::TokioPostgres(Some(e))) && status_of(
            &DbError::TokioPostgres(Some(e)),
        ) == (Code::AlreadyExists, e.message@),
        e.code@ == "42601"@ ==> has_status(&DbError::TokioPostgres(Some(e))) && status_of(
            &DbError::TokioPostgres(Some(e)),
        ) == (Code::Internal, ""@),
        e.code@ != "23505"@ && e.code@ != "42601"@ ==> !has_status(&DbError::TokioPostgres(Some(e))),
        has_status(&DbError::TokioPostgres(None)),
        status_of(&DbError::TokioPostgres(None)) == (Code::Internal, ""@),
        is_ts_query_syntax_error(&DbError::TokioPostgres(Some(e))) <==> (e.code@ == "42601"@
            && (e.routine matches Some(r) && r@ == "toTSQuery"@)),
{
    reveal_strlit("23505");
    reveal_strlit("42601");
    assert("23505"@[0] != "42601"@[0]);
}

} // verus!
