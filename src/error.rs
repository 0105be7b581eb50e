use vstd::prelude::*;

verus! {

/// The errors of the three stages: scanning, parsing and evaluation.
#[derive(Clone, PartialEq, Debug)]
pub enum RakiError {
    Scanner(String),
    Syntax { line: u32, at: String, message: String },
    Runtime {},
}

/// What an error holds, as mathematical values.
pub enum RakiErrorView {
    Scanner(Seq<char>),
    Syntax { line: nat, at: Seq<char>, message: Seq<char> },
    Runtime,
}

impl View for RakiError {
    type V = RakiErrorView;

    open spec fn view(&self) -> RakiErrorView {
        match self {
            RakiError::Scanner(m) => RakiErrorView::Scanner(m@),
            RakiError::Syntax { line, at, message } => RakiErrorView::Syntax {
                line: *line as nat,
                at: at@,
                message: message@,
            },
            RakiError::Runtime {  } => RakiErrorView::Runtime,
        }
    }
}

impl RakiError {
    /// A copy of this error.
    pub fn copy(&self) -> (r: RakiError)
        ensures
            r == *self,
    {
        match self {
            RakiError::Scanner(m) => RakiError::Scanner(m.clone()),
            RakiError::Syntax { line, at, message } => RakiError::Syntax {
                line: *line,
                at: at.clone(),
                message: message.clone(),
            },
            RakiError::Runtime {  } => RakiError::Runtime {  },
        }
    }
}

} // verus!
