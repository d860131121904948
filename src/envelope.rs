//! The uniform answer of every command: success or error, each with an
//! optional message and optional data.
use vstd::prelude::*;

use crate::paths::PathClasses;
use crate::request::{api_message, ApiError};
use crate::selection::{selection_message, SelectionError};

verus! {

/// The data a command answers with.
pub enum Payload {
    /// The files and folders among the paths asked about.
    Classified(PathClasses),
    /// The paths selected in the active shell window.
    Paths(Vec<String>),
    /// The JSON body of a response.
    Response(serde_json::Value),
}

/// The answer of a command.
pub enum CustomResult {
    Success { message: Option<String>, data: Option<Payload> },
    Error { message: Option<String>, data: Option<Payload> },
}

impl CustomResult {
    /// A success answer.
    pub fn success(message: Option<String>, data: Option<Payload>) -> (r: CustomResult)
        ensures
            r == (CustomResult::Success { message, data }),
    {
        CustomResult::Success { message, data }
    }

    /// An error answer.
    pub fn error(message: Option<String>, data: Option<Payload>) -> (r: CustomResult)
        ensures
            r == (CustomResult::Error { message, data }),
    {
        CustomResult::Error { message, data }
    }
}

/// An error answer whose message reads `text`, without data.
pub open spec fn error_reading(r: Result<CustomResult, CustomResult>, text: Seq<char>) -> bool {
    r matches Err(CustomResult::Error { message: Some(m), data: None }) && m@ == text
}

/// The answer to a classification, which never fails.
pub fn classification_result(classes: PathClasses) -> (r: Result<CustomResult, CustomResult>)
    ensures
        r == Ok::<CustomResult, CustomResult>(
            CustomResult::Success { message: None, data: Some(Payload::Classified(classes)) },
        ),
{
    Ok(CustomResult::success(None, Some(Payload::Classified(classes))))
}

/// The answer to a selection query: the paths, or the failure's message.
pub fn selection_result(outcome: Result<Vec<String>, SelectionError>) -> (r: Result<
    CustomResult,
    CustomResult,
>)
    ensures
        match outcome {
            Ok(paths) => r == Ok::<CustomResult, CustomResult>(
                CustomResult::Success { message: None, data: Some(Payload::Paths(paths)) },
            ),
            Err(e) => error_reading(r, selection_message(e)),
        },
{
    match outcome {
        Ok(paths) => Ok(CustomResult::success(None, Some(Payload::Paths(paths)))),
        Err(e) => Err(CustomResult::error(Some(e.message()), None)),
    }
}

/// The answer to a request: the response body, or the failure's message.
pub fn response_result(outcome: Result<serde_json::Value, ApiError>) -> (r: Result<
    CustomResult,
    CustomResult,
>)
    ensures
        match outcome {
            Ok(v) => r == Ok::<CustomResult, CustomResult>(
                CustomResult::Success { message: None, data: Some(Payload::Response(v)) },
            ),
            Err(e) => error_reading(r, api_message(e)),
        },
{
    match outcome {
        Ok(v) => Ok(CustomResult::success(None, Some(Payload::Response(v)))),
        Err(e) => Err(CustomResult::error(Some(e.message()), None)),
    }
}

} // verus!
