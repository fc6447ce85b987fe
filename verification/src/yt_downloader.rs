//! The downloader that the resource resolver works through.

use vstd::prelude::*;

verus! {

/// The downloader handed to the resource resolver. It has no state: the
/// caller fetches pages and runs scripts; what is decided here is how the
/// outcome of a script is read.
#[derive(Debug, Clone, Copy, Default)]
pub struct YTDownloader {}

/// The text of the error for a script whose value is no string.
pub open spec fn not_a_string() -> Seq<char> {
    "Output not string"@
}

/// How the outcome of a script is read: its value where that is a string,
/// an error where the value is something else, and the engine's own error
/// where it failed.
pub open spec fn script_result(outcome: Result<Option<String>, String>) -> Result<
    Seq<char>,
    Seq<char>,
> {
    match outcome {
        Ok(Some(text)) => Ok(text@),
        Ok(None) => Err(not_a_string()),
        Err(err) => Err(err@),
    }
}

impl YTDownloader {
    /// Reads the outcome of a script that the caller ran: `Ok` holds the
    /// script's value where it is a string and `None` where it is not, `Err`
    /// the engine's error.
    pub fn eval_js(outcome: Result<Option<String>, String>) -> (result: Result<String, String>)
        ensures
            match result {
                Ok(text) => script_result(outcome) == Ok::<Seq<char>, Seq<char>>(text@),
                Err(err) => script_result(outcome) == Err::<Seq<char>, Seq<char>>(err@),
            },
    {
        match outcome {
            Ok(Some(text)) => Ok(text),
            Ok(None) => Err("Output not string".to_owned()),
            Err(err) => Err(err),
        }
    }
}

} // verus!
