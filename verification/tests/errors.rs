use commerce::db::{db_err_to_grpc_status, DatabaseError, DbError};
use commerce::{Code, Status};

fn server_error(code: &str, message: &str, routine: Option<&str>) -> DbError {
    DbError::TokioPostgres(Some(DatabaseError {
        code: code.to_string(),
        message: message.to_string(),
        routine: routine.map(|r| r.to_string()),
    }))
}

#[test]
fn unique_violation_is_already_exists() {
    let s = Status::from_db_error(server_error("23505", "duplicate key", None));
    assert_eq!(s.code, Code::AlreadyExists);
    assert_eq!(s.message, "duplicate key");
    let s = db_err_to_grpc_status(server_error("23505", "slug taken", None));
    assert_eq!(s.code, Code::AlreadyExists);
    assert_eq!(s.message, "slug taken");
}

#[test]
fn syntax_error_is_internal() {
    let s = Status::from_db_error(server_error("42601", "syntax", Some("scanner_yyerror")));
    assert_eq!(s.code, Code::Internal);
    assert_eq!(s.message, "");
    let s = Status::from_db_error(DbError::TokioPostgres(None));
    assert_eq!(s.code, Code::Internal);
}

#[test]
fn ts_query_syntax_errors_are_ignored() {
    let r = server_error("42601", "syntax", Some("toTSQuery")).ignore_to_ts_query(Vec::<u8>::new());
    assert_eq!(r.unwrap(), Vec::<u8>::new());
    let r = server_error("42601", "syntax", Some("other")).ignore_to_ts_query(0);
    assert!(r.is_err());
    let r = server_error("23505", "dup", Some("toTSQuery")).ignore_to_ts_query(0);
    assert!(r.is_err());
    let r = DbError::Pool("timeout".to_string()).ignore_to_ts_query(0);
    assert!(matches!(r, Err(DbError::Pool(_))));
}

#[test]
fn answered_errors() {
    assert!(server_error("23505", "dup", None).is_answered());
    assert!(server_error("42601", "syntax", None).is_answered());
    assert!(DbError::TokioPostgres(None).is_answered());
    assert!(!server_error("40001", "serialization", None).is_answered());
    assert!(!DbError::Pool("timeout".to_string()).is_answered());
    assert!(!DbError::Argument("filter.query".to_string()).is_answered());
}
