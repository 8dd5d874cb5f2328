use vstd::prelude::*;

verus! {

use crate::compare::{
    compare_result_sets, result_sets_eq, spec_normalized, ColumnNormalisation, RowNormalisation,
};
use crate::error::{SqlErrorModel, SqlExecutionError};
use crate::result_set::ResultSet;

/// The body of the `run` endpoint.
#[derive(Debug)]
pub struct RunRequest {
    pub environment: String,
    pub query: String,
}

/// The success body of the `run` endpoint.
#[derive(Debug)]
pub struct RunResponse {
    pub result_set: ResultSet,
}

/// The alternate error body: where the failure happened — `init` for the
/// environment script, `query` for the user query, `other` for anything
/// else — and the reported text.
#[derive(Debug)]
pub struct RunError {
    pub location: &'static str,
    pub error: String,
}

/// Maps an execution error onto the wire contract: `Init` and `Execute`
/// failures surface as status 200 with the driver's text and their
/// location — clients read them as feedback, not as protocol errors —
/// while everything else is an internal error with a generic message.
pub fn err_to_response(err: &SqlExecutionError) -> (r: (u16, RunError))
    ensures
        match err@ {
            SqlErrorModel::Init(msg) => r.0 == 200 && r.1.location@ == "init"@ && r.1.error@
                == msg,
            SqlErrorModel::Execute(msg) => r.0 == 200 && r.1.location@ == "query"@ && r.1.error@
                == msg,
            SqlErrorModel::Other(_) | SqlErrorModel::ColumnDecode(_) => r.0 == 500
                && r.1.location@ == "other"@ && r.1.error@ == "an internal error occurred"@,
        },
{
    match err {
        SqlExecutionError::Init(e) => (
            200,
            RunError { location: "init", error: e.clone() },
        ),
        SqlExecutionError::Execute(e) => (
            200,
            RunError { location: "query", error: e.clone() },
        ),
        _ => (
            500,
            RunError {
                location: "other",
                error: String::from_str("an internal error occurred"),
            },
        ),
    }
}

/// The body of the `compare` endpoint.
#[derive(Debug)]
pub struct CompareRequest {
    pub environment: String,
    pub solution: String,
    pub submission: String,
    pub row_normalisation: RowNormalisation,
    pub column_normalisation: ColumnNormalisation,
}

/// The body answered by the `compare` endpoint.
#[derive(Debug)]
pub struct CompareResponse {
    pub solution: RunResponse,
    pub submission: RunResponse,
    pub equal: bool,
}

/// The row normalization a request gets when it names none.
pub fn get_default_row_normalisation() -> (r: RowNormalisation)
    ensures
        r == RowNormalisation::NoNormalization,
{
    RowNormalisation::NoNormalization
}

/// The column normalization a request gets when it names none.
pub fn get_default_column_normalisation() -> (r: ColumnNormalisation)
    ensures
        r == ColumnNormalisation::NumberColumnsByOrder,
{
    ColumnNormalisation::NumberColumnsByOrder
}

/// Whether a batch solution returns its result set when the request does
/// not say.
pub fn get_default_return_result_set() -> (r: bool)
    ensures
        r == false,
{
    false
}

/// One solution of a batch comparison: its query, its normalization pair,
/// and whether its result set is wanted back.
#[derive(Debug)]
pub struct Solution {
    pub query: String,
    pub row_normalisation: RowNormalisation,
    pub column_normalisation: ColumnNormalisation,
    pub return_result_set: bool,
}

/// The body of the `batch_compare` endpoint.
#[derive(Debug)]
pub struct BatchCompareRequest {
    pub environment: String,
    pub solutions: Vec<Solution>,
    pub submission: String,
}

/// The outcome for one batch solution, with its normalized result set
/// where the request asked for it.
#[derive(Debug)]
pub struct SolutionResponse {
    pub eq: bool,
    pub result_set: Option<ResultSet>,
}

/// The body answered by the `batch_compare` endpoint. The submission's
/// result set comes from the first comparison to complete; absent when
/// none succeeded.
#[derive(Debug)]
pub struct BatchCompareResponse {
    pub solutions: Vec<SolutionResponse>,
    pub submission_result_set: Option<ResultSet>,
}

/// One batch comparison, on the already-executed result sets: compares
/// the solution against the submission under the solution's normalization
/// pair, and hands the normalized submission set back separately so the
/// caller can keep the first one to complete.
pub fn batch_compare_one(
    solution_set: ResultSet,
    submission_set: ResultSet,
    row_norm: RowNormalisation,
    col_norm: ColumnNormalisation,
    return_result_set: bool,
) -> (r: (SolutionResponse, ResultSet))
    requires
        solution_set@.wf(),
        submission_set@.wf(),
    ensures
        r.0.eq == result_sets_eq(
            spec_normalized(solution_set@, row_norm, col_norm),
            spec_normalized(submission_set@, row_norm, col_norm),
        ),
        return_result_set ==> (r.0.result_set matches Some(rs) && rs@ == spec_normalized(
            solution_set@,
            row_norm,
            col_norm,
        )),
        !return_result_set ==> r.0.result_set is None,
        r.1@ == spec_normalized(submission_set@, row_norm, col_norm),
{
    let (a, b, eq) = compare_result_sets(solution_set, submission_set, row_norm, col_norm);
    let result_set = if return_result_set {
        Some(a)
    } else {
        None
    };
    (SolutionResponse { eq, result_set }, b)
}

} // verus!
