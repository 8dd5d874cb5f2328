use vstd::prelude::*;

verus! {

use crate::model::Results;

/// The feedback service's configuration.
#[derive(Debug)]
pub struct Config {
    pub port: u16,
    pub base_url: String,
    pub openai_api_key: String,
    pub model: String,
}

/// A feedback request: the task, the queries and their stored results.
#[derive(Debug)]
pub struct FeedbackRequest {
    pub sql_environment: String,
    pub db_schema: String,
    pub task: String,
    pub solutions: Vec<String>,
    pub submissions: Vec<String>,
    pub solution_results: Option<Results>,
    pub submission_results: Option<Results>,
}

/// One piece of generated feedback.
#[derive(Debug, PartialEq)]
pub struct FeedbackResponse {
    pub correct: bool,
    pub feedback: String,
}

/// The error body of the feedback endpoint.
#[derive(Debug, PartialEq)]
pub struct FeedbackErrorResponse {
    pub code: u16,
    pub message: String,
}

/// Folds the content extracted from the language-model reply into the
/// response body: present content becomes a single not-yet-judged feedback
/// entry; absent content is the internal error the endpoint reports.
pub fn feedback_of_message(message: Option<String>) -> (r: Result<
    Vec<FeedbackResponse>,
    FeedbackErrorResponse,
>)
    ensures
        match message {
            Some(m) => r is Ok && r->Ok_0@.len() == 1 && r->Ok_0@[0].correct == false
                && r->Ok_0@[0].feedback@ == m@,
            None => r is Err && r->Err_0.code == 500 && r->Err_0.message@
                == "an error occurred while processing the llm response"@,
        },
{
    match message {
        Some(m) => {
            let mut out: Vec<FeedbackResponse> = Vec::new();
            out.push(FeedbackResponse { correct: false, feedback: m });
            Ok(out)
        },
        None => Err(
            FeedbackErrorResponse {
                code: 500,
                message: String::from_str("an error occurred while processing the llm response"),
            },
        ),
    }
}

} // verus!
