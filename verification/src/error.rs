//! What can go wrong with a line, and what the user is told.

use vstd::prelude::*;

verus! {

/// The kinds of failure. None of them ends a session.
#[derive(Clone, Copy, Debug, PartialEq, Eq, Structural)]
pub enum ErrorKind {
    /// The line does not have exactly three tokens.
    WrongArity,
    /// The middle token is none of `+`, `-`, `/`, `*`.
    InvalidOperator,
    /// One of the outer tokens, or both, is not a number.
    InvalidOperand,
    /// The input stream could not be read.
    StreamReadFailure,
}

impl ErrorKind {
    /// The text shown to the user.
    pub open spec fn text(self) -> Seq<char> {
        match self {
            ErrorKind::WrongArity => "invalid number of input arguments!"@,
            ErrorKind::InvalidOperator => "invalid sign passed"@,
            ErrorKind::InvalidOperand => "invalid numeric input"@,
            ErrorKind::StreamReadFailure => "internal error!"@,
        }
    }

    /// The text shown to the user.
    pub fn message(&self) -> (r: String)
        ensures
            r@ == self.text(),
    {
        match self {
            ErrorKind::WrongArity => "invalid number of input arguments!".to_owned(),
            ErrorKind::InvalidOperator => "invalid sign passed".to_owned(),
            ErrorKind::InvalidOperand => "invalid numeric input".to_owned(),
            ErrorKind::StreamReadFailure => "internal error!".to_owned(),
        }
    }
}

} // verus!
