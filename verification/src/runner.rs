use vstd::prelude::*;

verus! {

use crate::model::SqlResult;
use crate::result_set::ResultSet;

/// The body sent to the runner's `run` endpoint.
#[derive(Debug)]
pub struct RunRequest {
    pub environment: String,
    pub query: String,
}

/// The success body of the runner's `run` endpoint.
#[derive(Debug)]
pub struct RunSuccessResponse {
    pub result_set: ResultSet,
}

/// The error body of the runner's `run` endpoint: where the failure
/// happened and its text.
#[derive(Debug)]
pub struct RunSuccessErrorResponse {
    pub location: String,
    pub error: String,
}

/// What the runner answered: a result set, or a located error.
#[derive(Debug)]
pub enum RunResponse {
    Success(RunSuccessResponse),
    Error(RunSuccessErrorResponse),
}

/// Folds a runner answer into the stored form: a successful run keeps its
/// result set, a located error becomes the text `Error: <its message>`.
pub fn sql_result_of_run_response(r: RunResponse) -> (out: SqlResult)
    ensures
        match r {
            RunResponse::Success(s) => out matches SqlResult::Success(rs) && rs@
                == s.result_set@,
            RunResponse::Error(e) => out matches SqlResult::Error(m) && m@ == "Error: "@
                + e.error@,
        },
{
    match r {
        RunResponse::Success(s) => SqlResult::Success(s.result_set),
        RunResponse::Error(e) => {
            let mut m = String::from_str("Error: ");
            m.append(e.error.as_str());
            SqlResult::Error(m)
        },
    }
}

} // verus!
