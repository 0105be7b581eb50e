use vstd::prelude::*;
use vstd::string::*;
use crate::error::{RakiError, RakiErrorView};
use crate::text::{decimal, decimal_string};

verus! {

/// The line that the error log receives for an error; a runtime error is
/// not logged.
pub open spec fn log_line(e: RakiErrorView) -> Option<Seq<char>> {
    match e {
        RakiErrorView::Scanner(m) => Some("Parser error => "@ + m),
        RakiErrorView::Syntax { line, at, message } => Some(
            "Syntax error on line "@ + decimal(line) + ", "@ + at + ": "@ + message,
        ),
        RakiErrorView::Runtime => None,
    }
}

/// The diagnostic line for `err`, for the error log.
pub fn raki_log(err: &RakiError) -> (r: Option<String>)
    ensures
        (match r {
            Some(s) => Some(s@),
            None => None,
        }) == log_line(err@),
{
    match err {
        RakiError::Scanner(msg) => {
            let mut s = String::from_str("Parser error => ");
            s.append(msg.as_str());
            Some(s)
        },
        RakiError::Syntax { line, at, message } => {
            let mut s = String::from_str("Syntax error on line ");
            s.append(decimal_string(*line).as_str());
            s.append(", ");
            s.append(at.as_str());
            s.append(": ");
            s.append(message.as_str());
            Some(s)
        },
        RakiError::Runtime {  } => None,
    }
}

} // verus!
