//! The reader of a session: what it makes of a line, and how it moves
//! between reading, dispatching and the end.
//!
//! The reader touches no stream and no number. Whoever drives it reads the
//! lines, tells the reader what each read brought, and does what the reader
//! says; where a request is handed out, the driver reads the two operands as
//! numbers, works the request out and comes back with the outcome.

use vstd::prelude::*;
use crate::command::Command;
use crate::error::ErrorKind;
use crate::expression::{
    expression_of,
    is_sign_token,
    request_of,
    Expression,
    Request,
    RequestView,
};
use crate::text::{chars_of, contains_end, has_end, token_spans};

verus! {

/// Where a session stands.
#[derive(Clone, Copy, Debug, PartialEq, Eq, Structural)]
pub enum State {
    /// Waiting for the next line.
    Reading,
    /// A request has been handed out and its outcome is awaited.
    Dispatching,
    /// The session is over.
    Terminated,
}

/// What one attempt to read a line brought.
#[derive(Debug, PartialEq, Eq)]
pub enum Input {
    /// A line, with or without its line ending.
    Line(String),
    /// The stream has no more lines.
    EndOfStream,
    /// The stream could not be read.
    ReadFailed,
}

/// An input, its line as a sequence of characters.
pub enum InputView {
    Line(Seq<char>),
    EndOfStream,
    ReadFailed,
}

impl View for Input {
    type V = InputView;

    open spec fn view(&self) -> InputView {
        match self {
            Input::Line(line) => InputView::Line(line@),
            Input::EndOfStream => InputView::EndOfStream,
            Input::ReadFailed => InputView::ReadFailed,
        }
    }
}

/// What is to be done after an input.
#[derive(Debug, PartialEq, Eq)]
pub enum Step {
    /// Stop without a word.
    Stop,
    /// Write this line and read on.
    Print(String),
    /// Read the two operands as numbers, work the request out and come back
    /// with the outcome.
    Evaluate(Request),
}

/// A step, its texts as sequences of characters.
pub enum StepView {
    Stop,
    Print(Seq<char>),
    Evaluate(RequestView),
}

impl View for Step {
    type V = StepView;

    open spec fn view(&self) -> StepView {
        match self {
            Step::Stop => StepView::Stop,
            Step::Print(line) => StepView::Print(line@),
            Step::Evaluate(request) => StepView::Evaluate(request@),
        }
    }
}

/// The number of digits behind the decimal point of a rendered result.
pub const DECIMALS: usize = 2;

/// The line that answers a request: the rendered result behind `result: `,
/// or the error's text.
pub open spec fn answer(outcome: Result<Seq<char>, ErrorKind>) -> Seq<char> {
    match outcome {
        Ok(rendered) => "result: "@ + rendered,
        Err(kind) => kind.text(),
    }
}

/// The reader of a session. It is its state and nothing else.
#[derive(Clone, Copy, Debug, PartialEq, Eq, Structural)]
pub struct StdinReader {
    pub state: State,
}

impl StdinReader {
    /// What becomes of a reader that is reading when an input comes, and the
    /// step to take.
    ///
    /// The end of the stream and a line that holds `end` end the session in
    /// silence. A failed read is reported and the reader stays as it is. Any
    /// other line is dispatched: for one that is no request the error is
    /// written at once and the reader stays as it is; a request is handed
    /// out, and the reader waits for its outcome.
    pub open spec fn on(self, input: InputView) -> (StdinReader, StepView) {
        match input {
            InputView::EndOfStream => (StdinReader { state: State::Terminated }, StepView::Stop),
            InputView::ReadFailed => (self, StepView::Print(ErrorKind::StreamReadFailure.text())),
            InputView::Line(line) => if has_end(line) {
                (StdinReader { state: State::Terminated }, StepView::Stop)
            } else {
                match request_of(line) {
                    Err(kind) => (self, StepView::Print(kind.text())),
                    Ok(request) => (
                        StdinReader { state: State::Dispatching },
                        StepView::Evaluate(request),
                    ),
                }
            },
        }
    }

    /// The reader after the outcome of a request has come back.
    pub open spec fn answered(self) -> StdinReader {
        StdinReader { state: State::Reading }
    }

    /// A reader at the start of a session.
    pub fn new() -> (reader: StdinReader)
        ensures
            reader.state == State::Reading,
    {
        StdinReader { state: State::Reading }
    }

    /// Takes what a read brought and says what is to be done.
    ///
    /// A line that holds `end` anywhere ends the session, and nothing is
    /// written for it.
    pub fn handle(&mut self, input: Input) -> (step: Step)
        requires
            old(self).state == State::Reading,
        ensures
            (*final(self), step@) == old(self).on(input@),
            input@ matches InputView::Line(line) && has_end(line) ==> final(self).state
                == State::Terminated && step@ == StepView::Stop,
    {
        match input {
            Input::EndOfStream => {
                self.state = State::Terminated;
                Step::Stop
            },
            Input::ReadFailed => Step::Print(ErrorKind::StreamReadFailure.message()),
            Input::Line(line) => {
                let chars = chars_of(line.as_str());
                if contains_end(chars.as_slice()) {
                    self.state = State::Terminated;
                    Step::Stop
                } else {
                    match Self::request_in(line.as_str(), chars.as_slice()) {
                        Err(kind) => Step::Print(kind.message()),
                        Ok(request) => {
                            self.state = State::Dispatching;
                            Step::Evaluate(request)
                        },
                    }
                }
            },
        }
    }

    /// Takes the outcome of the request that was handed out, which is the
    /// rendered result or an error, gives the line to write and goes back to
    /// reading.
    pub fn finish(&mut self, outcome: Result<String, ErrorKind>) -> (line: String)
        requires
            old(self).state == State::Dispatching,
        ensures
            *final(self) == old(self).answered(),
            line@ == answer(
                match outcome {
                    Ok(rendered) => Ok(rendered@),
                    Err(kind) => Err(kind),
                },
            ),
    {
        self.state = State::Reading;
        match outcome {
            Ok(rendered) => "result: ".to_owned().concat(rendered.as_str()),
            Err(kind) => kind.message(),
        }
    }

    /// Tells whether `s` is one of the signs `+`, `-`, `/`, `*`.
    pub fn is_sign(s: &str) -> (r: bool)
        ensures
            r == is_sign_token(s@),
    {
        let mut rest = s.chars();
        match rest.next() {
            None => false,
            Some(c) => match rest.next() {
                Some(_) => false,
                None => c == '+' || c == '-' || c == '/' || c == '*',
            },
        }
    }

    /// The command that the sign `s` stands for.
    pub fn parse_sign(s: &str) -> (c: Command)
        requires
            is_sign_token(s@),
        ensures
            Command::of_sign(s@[0]) == Some(c),
    {
        let mut rest = s.chars();
        match rest.next() {
            Some('+') => Command::Sum,
            Some('-') => Command::Diff,
            Some('/') => Command::Div,
            _ => Command::Mult,
        }
    }

    /// Reads a line as a request: three tokens, the second a sign.
    pub fn parse_request(s: &str) -> (r: Result<Request, ErrorKind>)
        ensures
            r matches Ok(request) ==> request_of(s@) == Ok::<RequestView, ErrorKind>(request@),
            r matches Err(kind) ==> request_of(s@) == Err::<RequestView, ErrorKind>(kind),
    {
        let chars = chars_of(s);
        Self::request_in(s, chars.as_slice())
    }

    /// Reads as a request the line `s`, whose characters are `chars`.
    fn request_in(s: &str, chars: &[char]) -> (r: Result<Request, ErrorKind>)
        requires
            chars@ == s@,
        ensures
            r matches Ok(request) ==> request_of(s@) == Ok::<RequestView, ErrorKind>(request@),
            r matches Err(kind) ==> request_of(s@) == Err::<RequestView, ErrorKind>(kind),
    {
        let spans = token_spans(chars);
        if spans.len() != 3 {
            return Err(ErrorKind::WrongArity);
        }
        let sign = s.substring_char(spans[1].start, spans[1].end);
        if !Self::is_sign(sign) {
            return Err(ErrorKind::InvalidOperator);
        }
        let v1 = s.substring_char(spans[0].start, spans[0].end).to_owned();
        let v2 = s.substring_char(spans[2].start, spans[2].end).to_owned();
        Ok(Request { v1, v2, command: Self::parse_sign(sign) })
    }

    /// Makes the expression of a request from the readings of its two
    /// operands as numbers. A reading is `None` where the operand is not a
    /// number; one such reading is enough for `InvalidOperand`.
    pub fn as_expression(request: &Request, v1: Option<u64>, v2: Option<u64>) -> (r: Result<
        Expression,
        ErrorKind,
    >)
        ensures
            r == expression_of(request.command, v1, v2),
    {
        match (v1, v2) {
            (Some(a), Some(b)) => Ok(Expression::new(a, b, request.command)),
            _ => Err(ErrorKind::InvalidOperand),
        }
    }
}

} // verus!
