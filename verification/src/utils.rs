//! The bodies of responses, and the text that reports an error with its causes.

use crate::ids::{id_text, id_to_string};
use vstd::prelude::*;
use vstd::string::*;

verus! {

/// The body of a response that reports a failure.
#[derive(Debug, PartialEq, Eq)]
pub struct ErrorResponse {
    pub status: String,
    pub message: String,
}

/// The body of a response that reports a failure of a pattern operation.
#[derive(Debug, PartialEq, Eq)]
pub struct PatternErrorResponse {
    pub status: String,
    pub message: String,
}

/// The identifier that a successful write reports.
#[derive(Debug, PartialEq, Eq)]
pub struct PatternTB303ResponseData {
    pub id: String,
}

/// The body of the response to a successful write.
#[derive(Debug, PartialEq, Eq)]
pub struct PatternTB303Response {
    pub status: String,
    pub data: PatternTB303ResponseData,
}

impl PatternTB303Response {
    /// The response that reports `pattern_id` as written.
    pub fn success(pattern_id: u128) -> (response: PatternTB303Response)
        ensures
            response.status@ == "success"@,
            response.data.id@ == id_text(pattern_id),
    {
        PatternTB303Response {
            status: String::from_str("success"),
            data: PatternTB303ResponseData { id: id_to_string(pattern_id) },
        }
    }
}

/// The body that reports a fault of the server.
pub fn get_error_response(message: String) -> (response: ErrorResponse)
    ensures
        response.status@ == "error"@,
        response.message@ == message@,
{
    ErrorResponse { status: String::from_str("error"), message }
}

/// The body that reports a request that was refused.
pub fn get_fail_response(message: String) -> (response: ErrorResponse)
    ensures
        response.status@ == "fail"@,
        response.message@ == message@,
{
    ErrorResponse { status: String::from_str("fail"), message }
}

/// The lines that report the first `upto` causes, each under the heading `Caused by:`.
pub open spec fn causes_text(causes: Seq<String>, upto: int) -> Seq<char>
    decreases upto,
{
    if upto <= 0 {
        Seq::empty()
    } else {
        causes_text(causes, upto - 1) + "Caused by:\n\t"@ + causes[upto - 1]@ + "\n"@
    }
}

/// The text that reports an error and its causes: the error, an empty line,
/// then every cause from the nearest to the root.
pub open spec fn chain_text(error: Seq<char>, causes: Seq<String>) -> Seq<char> {
    error + "\n\n"@ + causes_text(causes, causes.len() as int)
}

/// Writes an error and the chain of its causes, nearest cause first.
pub fn error_chain_fmt(error: &str, causes: &Vec<String>) -> (text: String)
    ensures
        text@ == chain_text(error@, causes@),
{
    let mut text = String::from_str(error);
    text.append("\n\n");
    let mut i: usize = 0;
    while i < causes.len()
        invariant
            i <= causes.len(),
            text@ == error@ + "\n\n"@ + causes_text(causes@, i as int),
        decreases causes.len() - i,
    {
        text.append("Caused by:\n\t");
        text.append(causes[i].as_str());
        text.append("\n");
        i = i + 1;
    }
    text
}

} // verus!
