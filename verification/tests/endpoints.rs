use sql_runner::api::{
    err_to_response, get_default_column_normalisation, get_default_return_result_set,
    get_default_row_normalisation,
};
use sql_runner::compare::{ColumnNormalisation, RowNormalisation};
use sql_runner::config::{
    get_default_max_concurrent, get_default_max_rows_in_result_set, get_default_port,
    get_default_statement_timeout,
};
use sql_runner::error::SqlExecutionError;
use sql_runner::feedback::feedback_of_message;
use sql_runner::introspect::{
    constraints_query, routines_query, tables_query, triggers_query, views_query,
};
use sql_runner::model::{AnalysisRequest, SqlResult};
use sql_runner::result_set::ResultSet;
use sql_runner::runner::{
    sql_result_of_run_response, RunResponse, RunSuccessErrorResponse, RunSuccessResponse,
};
use sql_runner::value::SqlValue;

#[test]
fn init_failure_surfaces_as_ok_with_init_location() {
    let (status, body) = err_to_response(&SqlExecutionError::Init("syntax error".to_string()));
    assert_eq!(status, 200);
    assert_eq!(body.location, "init");
    assert_eq!(body.error, "syntax error");
}

#[test]
fn execute_failure_surfaces_as_ok_with_query_location() {
    let (status, body) = err_to_response(&SqlExecutionError::Execute(
        "permission denied for table x".to_string(),
    ));
    assert_eq!(status, 200);
    assert_eq!(body.location, "query");
    assert_eq!(body.error, "permission denied for table x");
}

#[test]
fn internal_failures_hide_their_cause() {
    for err in [
        SqlExecutionError::Other("connection refused".to_string()),
        SqlExecutionError::ColumnDecodeError("c".to_string()),
    ] {
        let (status, body) = err_to_response(&err);
        assert_eq!(status, 500);
        assert_eq!(body.location, "other");
        assert_eq!(body.error, "an internal error occurred");
    }
}

#[test]
fn error_messages_name_their_phase() {
    assert_eq!(
        SqlExecutionError::Init("e1".to_string()).message(),
        "error while initializing database: e1"
    );
    assert_eq!(
        SqlExecutionError::Execute("e2".to_string()).message(),
        "error while executing supplied query: e2"
    );
    assert_eq!(
        SqlExecutionError::Other("e3".to_string()).message(),
        "an sql error occurred: e3"
    );
    assert_eq!(
        SqlExecutionError::ColumnDecodeError("c".to_string()).message(),
        "failed to determine column type of `c`"
    );
}

#[test]
fn defaults_match_the_wire_contract() {
    assert_eq!(get_default_port(), 8080);
    assert_eq!(get_default_max_rows_in_result_set(), 1000);
    assert_eq!(get_default_statement_timeout(), 10000);
    assert_eq!(get_default_max_concurrent(), 5);
    assert_eq!(get_default_row_normalisation(), RowNormalisation::NoNormalization);
    assert_eq!(
        get_default_column_normalisation(),
        ColumnNormalisation::NumberColumnsByOrder
    );
    assert!(!get_default_return_result_set());
}

#[test]
fn runner_success_keeps_its_result_set() {
    let rs = ResultSet {
        columns: vec!["a".to_string()],
        rows: vec![vec![SqlValue::Int(1)]],
    };
    let out = sql_result_of_run_response(RunResponse::Success(RunSuccessResponse {
        result_set: rs,
    }));
    match out {
        SqlResult::Success(got) => assert_eq!(got.rows, vec![vec![SqlValue::Int(1)]]),
        SqlResult::Error(e) => panic!("unexpected error {e}"),
    }
}

#[test]
fn runner_error_is_prefixed() {
    let out = sql_result_of_run_response(RunResponse::Error(RunSuccessErrorResponse {
        location: "query".to_string(),
        error: "boom".to_string(),
    }));
    assert_eq!(out, SqlResult::Error("Error: boom".to_string()));
}

#[test]
fn feedback_keeps_model_content() {
    let out = feedback_of_message(Some("looks right".to_string())).expect("content present");
    assert_eq!(out.len(), 1);
    assert!(!out[0].correct);
    assert_eq!(out[0].feedback, "looks right");
}

#[test]
fn feedback_without_content_is_internal_error() {
    let err = feedback_of_message(None).expect_err("no content");
    assert_eq!(err.code, 500);
    assert_eq!(err.message, "an error occurred while processing the llm response");
}

#[test]
fn redact_strips_caller_identity_only() {
    let mut req = AnalysisRequest {
        sql_environment: "env".to_string(),
        db_schema: "schema".to_string(),
        task: "task".to_string(),
        solutions: vec!["q1".to_string()],
        submissions: vec!["q2".to_string()],
        solution_results: None,
        submission_results: None,
        task_id: Some("t-1".to_string()),
        user_id: Some("u-1".to_string()),
        feedback_language: Some("en".to_string()),
    };
    req.redact();
    assert!(req.task_id.is_none());
    assert!(req.user_id.is_none());
    assert_eq!(req.task, "task");
    assert_eq!(req.feedback_language, Some("en".to_string()));
}

#[test]
fn introspection_queries_target_the_public_schema() {
    assert!(tables_query().starts_with("SELECT c.table_name as name,"));
    assert!(tables_query().contains("t.table_type != 'VIEW'"));
    assert!(constraints_query().contains("information_schema.check_constraints"));
    assert!(views_query().contains("information_schema.views"));
    assert!(routines_query().contains("pg_get_function_identity_arguments"));
    assert!(triggers_query().contains("information_schema.triggers"));
    for q in [
        tables_query(),
        constraints_query(),
        views_query(),
        routines_query(),
        triggers_query(),
    ] {
        assert!(q.contains("'public'"));
    }
}
