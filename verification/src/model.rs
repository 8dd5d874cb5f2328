use vstd::prelude::*;

verus! {

use crate::result_set::ResultSet;

/// The outcome of running one query: its result set, or the error text the
/// runner reported.
#[derive(Debug, PartialEq)]
pub enum SqlResult {
    Success(ResultSet),
    Error(String),
}

/// The stored results of a list of queries; `None` marks a query the
/// runner could not be reached for.
pub type Results = Vec<Option<SqlResult>>;

/// An analysis request as the proxy accepts it and forwards it upstream.
#[derive(Debug)]
pub struct AnalysisRequest {
    pub sql_environment: String,
    pub db_schema: String,
    pub task: String,
    pub solutions: Vec<String>,
    pub submissions: Vec<String>,
    pub solution_results: Option<Results>,
    pub submission_results: Option<Results>,
    pub task_id: Option<String>,
    pub user_id: Option<String>,
    pub feedback_language: Option<String>,
}

impl AnalysisRequest {
    /// Strips the caller-identifying fields before the request leaves the
    /// proxy; everything else is forwarded unchanged.
    pub fn redact(&mut self)
        ensures
            final(self).task_id is None,
            final(self).user_id is None,
            final(self).sql_environment == old(self).sql_environment,
            final(self).db_schema == old(self).db_schema,
            final(self).task == old(self).task,
            final(self).solutions == old(self).solutions,
            final(self).submissions == old(self).submissions,
            final(self).solution_results == old(self).solution_results,
            final(self).submission_results == old(self).submission_results,
            final(self).feedback_language == old(self).feedback_language,
    {
        self.task_id = None;
        self.user_id = None;
    }
}

/// One upstream answer: whether the submission was found correct, and
/// the feedback text.
#[derive(Debug, PartialEq)]
pub struct AnalysisResult {
    pub correct: bool,
    pub feedback: String,
}

/// The upstream answers, one per submission.
pub type AnalysisResults = Vec<AnalysisResult>;

} // verus!
