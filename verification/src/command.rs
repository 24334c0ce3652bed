//! The four operations and the signs they are written with.

use vstd::prelude::*;

verus! {

/// An operation of the calculator.
#[derive(Clone, Copy, Debug, PartialEq, Eq, Structural)]
pub enum Command {
    Sum,
    Diff,
    Div,
    Mult,
}

impl Command {
    /// The character that the command is written with.
    pub open spec fn sign(self) -> char {
        match self {
            Command::Sum => '+',
            Command::Diff => '-',
            Command::Div => '/',
            Command::Mult => '*',
        }
    }

    /// The command that `c` stands for, if it stands for one.
    pub open spec fn of_sign(c: char) -> Option<Command> {
        if c == '+' {
            Some(Command::Sum)
        } else if c == '-' {
            Some(Command::Diff)
        } else if c == '/' {
            Some(Command::Div)
        } else if c == '*' {
            Some(Command::Mult)
        } else {
            None
        }
    }

    /// The command's sign as a text of one character.
    pub fn symbol(&self) -> (r: String)
        ensures
            r@ == seq![self.sign()],
    {
        proof {
            reveal_strlit("+");
            reveal_strlit("-");
            reveal_strlit("/");
            reveal_strlit("*");
        }
        match self {
            Command::Sum => "+".to_owned(),
            Command::Diff => "-".to_owned(),
            Command::Div => "/".to_owned(),
            Command::Mult => "*".to_owned(),
        }
    }

    /// Reading a command's sign gives the command back, and a sign that
    /// stands for a command is the sign that the command is written with.
    pub proof fn lemma_sign_round_trip(self, c: char)
        ensures
            Command::of_sign(self.sign()) == Some(self),
            Command::of_sign(c) == Some(self) ==> self.sign() == c,
    {
    }
}

} // verus!
