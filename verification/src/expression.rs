//! What a line asks for: first as it was written, then with its numbers.

use vstd::prelude::*;
use crate::command::Command;
use crate::error::ErrorKind;
use crate::text::tokens;

verus! {

/// A line with three tokens and a sign in the middle. The operands are still
/// the texts that were written.
#[derive(Debug, PartialEq, Eq)]
pub struct Request {
    pub v1: String,
    pub v2: String,
    pub command: Command,
}

/// A request, its operands as sequences of characters.
pub struct RequestView {
    pub v1: Seq<char>,
    pub v2: Seq<char>,
    pub command: Command,
}

impl View for Request {
    type V = RequestView;

    open spec fn view(&self) -> RequestView {
        RequestView { v1: self.v1@, v2: self.v2@, command: self.command }
    }
}

/// A request whose operands both are numbers. An operand is a 64-bit
/// floating-point number, held as its bit pattern.
#[derive(Clone, Copy, Debug, PartialEq, Eq, Structural)]
pub struct Expression {
    pub v1: u64,
    pub v2: u64,
    pub command: Command,
}

impl Expression {
    /// The expression of `c` on `v1` and `v2`.
    pub fn new(v1: u64, v2: u64, c: Command) -> (e: Expression)
        ensures
            e == (Expression { v1, v2, command: c }),
    {
        Expression { v1, v2, command: c }
    }
}

/// A token is a sign when it is one character that stands for a command.
pub open spec fn is_sign_token(token: Seq<char>) -> bool {
    token.len() == 1 && Command::of_sign(token[0]) is Some
}

/// What a line asks for, or why it asks for nothing.
///
/// The line must have exactly three tokens, and the second must be a sign;
/// the first and the third are then the operands, whatever they hold.
pub open spec fn request_of(line: Seq<char>) -> Result<RequestView, ErrorKind> {
    let found = tokens(line);
    if found.len() != 3 {
        Err(ErrorKind::WrongArity)
    } else if !is_sign_token(found[1]) {
        Err(ErrorKind::InvalidOperator)
    } else {
        Ok(RequestView { v1: found[0], v2: found[2], command: Command::of_sign(found[1][0])->0 })
    }
}

/// The expression that a command and the readings of its two operands make.
/// A reading is `None` where the operand is not a number.
pub open spec fn expression_of(command: Command, v1: Option<u64>, v2: Option<u64>) -> Result<
    Expression,
    ErrorKind,
> {
    match (v1, v2) {
        (Some(a), Some(b)) => Ok(Expression { v1: a, v2: b, command }),
        _ => Err(ErrorKind::InvalidOperand),
    }
}

} // verus!
