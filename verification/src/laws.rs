//! What holds of fields, tokens, requests and sessions whatever the line.

use vstd::prelude::*;
use crate::command::Command;
use crate::error::ErrorKind;
use crate::expression::{expression_of, is_sign_token, request_of, Expression, RequestView};
use crate::reader::{answer, InputView, State, StdinReader, StepView};
use crate::text::{has_end, split, tokens, trim_end, white_space};

verus! {

/// The fields put together again, with one space between neighbours.
pub open spec fn joined(fields: Seq<Seq<char>>) -> Seq<char>
    decreases fields.len(),
{
    if fields.len() == 0 {
        Seq::<char>::empty()
    } else if fields.len() == 1 {
        fields[0]
    } else {
        joined(fields.drop_last()) + seq![' '] + fields.last()
    }
}

/// A text that can be a token: no space in it, no white space at its end.
pub open spec fn is_token(t: Seq<char>) -> bool {
    &&& forall|i: int| 0 <= i < t.len() ==> t[i] != ' '
    &&& t.len() > 0 ==> !white_space(t.last())
}

/// A line ending: white space without a space, such as a line feed.
pub open spec fn is_ending(t: Seq<char>) -> bool {
    forall|i: int| 0 <= i < t.len() ==> white_space(#[trigger] t[i]) && t[i] != ' '
}

/// A line written the way a request is meant to be written: an operand, a
/// space, a sign, a space, an operand, and whatever ends the line.
pub open spec fn written(a: Seq<char>, sign: char, b: Seq<char>, ending: Seq<char>) -> Seq<char> {
    a + seq![' ', sign, ' '] + b + ending
}

/// The number of spaces in `s`.
pub open spec fn spaces(s: Seq<char>) -> nat
    decreases s.len(),
{
    if s.len() == 0 {
        0
    } else if s.last() == ' ' {
        spaces(s.drop_last()) + 1
    } else {
        spaces(s.drop_last())
    }
}

/// A text has one field more than it has spaces; no field holds a space; and
/// the fields joined by spaces are the text.
pub proof fn lemma_fields(s: Seq<char>)
    ensures
        split(s).len() == spaces(s) + 1,
        forall|k: int, i: int|
            0 <= k < split(s).len() && 0 <= i < split(s)[k].len() ==> split(s)[k][i] != ' ',
        joined(split(s)) == s,
    decreases s.len(),
{
    if s.len() > 0 {
        let front = s.drop_last();
        let before = split(front);
        lemma_fields(front);
        assert(s =~= front.push(s.last()));
        if s.last() == ' ' {
            assert(split(s).drop_last() =~= before);
        } else if before.len() > 1 {
            assert(split(s).drop_last() =~= before.drop_last());
        }
    }
}

/// A text without a space is its own and only field.
pub proof fn lemma_one_field(s: Seq<char>)
    requires
        forall|i: int| 0 <= i < s.len() ==> s[i] != ' ',
    ensures
        split(s) == seq![s],
    decreases s.len(),
{
    if s.len() == 0 {
        assert(s =~= Seq::<char>::empty());
    } else {
        lemma_one_field(s.drop_last());
        assert(s.drop_last().push(s.last()) =~= s);
    }
}

/// The fields of two texts with a space between them are the fields of the
/// first followed by the fields of the second.
pub proof fn lemma_fields_across_space(x: Seq<char>, y: Seq<char>)
    ensures
        split(x + seq![' '] + y) == split(x) + split(y),
    decreases y.len(),
{
    let whole = x + seq![' '] + y;
    lemma_fields(x);
    if y.len() == 0 {
        assert(whole.drop_last() =~= x);
    } else {
        let front = x + seq![' '] + y.drop_last();
        lemma_fields_across_space(x, y.drop_last());
        lemma_fields(y.drop_last());
        assert(whole.drop_last() =~= front);
    }
}

/// White space at the end of a text does not change what is left of it once
/// it is trimmed.
pub proof fn lemma_trim_end_drops_white_tail(s: Seq<char>, tail: Seq<char>)
    requires
        forall|i: int| 0 <= i < tail.len() ==> white_space(#[trigger] tail[i]),
    ensures
        trim_end(s + tail) == trim_end(s),
    decreases tail.len(),
{
    if tail.len() > 0 {
        assert((s + tail).drop_last() =~= s + tail.drop_last());
        lemma_trim_end_drops_white_tail(s, tail.drop_last());
    }
}

/// What is trimmed is the start of the text, does not end in white space,
/// and leaves out white space only.
pub proof fn lemma_trim_end(s: Seq<char>)
    ensures
        trim_end(s).len() <= s.len(),
        trim_end(s) == s.take(trim_end(s).len() as int),
        trim_end(s).len() > 0 ==> !white_space(trim_end(s).last()),
        forall|i: int| trim_end(s).len() <= i < s.len() ==> white_space(#[trigger] s[i]),
    decreases s.len(),
{
    if s.len() > 0 && white_space(s.last()) {
        lemma_trim_end(s.drop_last());
        assert forall|i: int| trim_end(s).len() <= i < s.len() implies white_space(
            #[trigger] s[i],
        ) by {
            if i < s.len() - 1 {
                assert(s[i] == s.drop_last()[i]);
            }
        }
    }
}

/// Every token of a line is free of spaces and does not end in white space.
pub proof fn lemma_tokens_are_tokens(s: Seq<char>, k: int)
    requires
        0 <= k < tokens(s).len(),
    ensures
        is_token(tokens(s)[k]),
{
    lemma_fields(s);
    lemma_trim_end(split(s)[k]);
}

/// Whether a line has the three tokens of a request is a matter of its
/// spaces alone: it has them when it holds exactly two.
pub proof fn lemma_arity_counts_spaces(line: Seq<char>)
    ensures
        tokens(line).len() == spaces(line) + 1,
        request_of(line) == Err::<RequestView, ErrorKind>(ErrorKind::WrongArity) <==> spaces(line)
            != 2,
{
    lemma_fields(line);
}

/// A line written as an operand, a space, a sign, a space and an operand,
/// up to its line ending, is the request for that sign on exactly these
/// operands: nothing of them is lost and nothing added.
pub proof fn lemma_written_request(a: Seq<char>, sign: char, b: Seq<char>, ending: Seq<char>)
    requires
        is_token(a),
        is_token(b),
        is_ending(ending),
        Command::of_sign(sign) is Some,
    ensures
        tokens(written(a, sign, b, ending)) == seq![a, seq![sign], b],
        request_of(written(a, sign, b, ending)) == Ok::<RequestView, ErrorKind>(
            RequestView { v1: a, v2: b, command: Command::of_sign(sign)->0 },
        ),
{
    let line = written(a, sign, b, ending);
    let middle = seq![sign];
    let last = b + ending;
    assert(line =~= a + seq![' '] + (middle + seq![' '] + last));
    lemma_fields_across_space(a, middle + seq![' '] + last);
    lemma_fields_across_space(middle, last);
    lemma_one_field(a);
    lemma_one_field(middle);
    lemma_one_field(last);
    lemma_trim_end_drops_white_tail(b, ending);
}

/// The way of a well-written line through a session. A reader that is
/// reading hands the line out, unless it holds `end`, as the request for its
/// sign on its two operands, and waits. Where both operands are read as
/// numbers, the request becomes the expression of that command on these two
/// numbers. And the line written for a rendered result is that text behind
/// `result: `.
pub proof fn lemma_written_line_answered(
    reader: StdinReader,
    a: Seq<char>,
    sign: char,
    b: Seq<char>,
    ending: Seq<char>,
    x: u64,
    y: u64,
    rendered: Seq<char>,
)
    requires
        reader.state == State::Reading,
        is_token(a),
        is_token(b),
        is_ending(ending),
        Command::of_sign(sign) is Some,
        !has_end(written(a, sign, b, ending)),
    ensures
        reader.on(InputView::Line(written(a, sign, b, ending))) == (
            StdinReader { state: State::Dispatching },
            StepView::Evaluate(RequestView { v1: a, v2: b, command: Command::of_sign(sign)->0 }),
        ),
        expression_of(Command::of_sign(sign)->0, Some(x), Some(y)) == Ok::<Expression, ErrorKind>(
            Expression { v1: x, v2: y, command: Command::of_sign(sign)->0 },
        ),
        answer(Ok(rendered)) == "result: "@ + rendered,
{
    lemma_written_request(a, sign, b, ending);
}

/// The step that a reader takes on an input tells where the reader stands
/// afterwards. It stops exactly when the session is over, which is at the end
/// of the stream and on a line that holds `end`; it has a line written
/// exactly when it reads on as it was; it hands a request out exactly when it
/// waits for the outcome.
pub proof fn lemma_step_tells_state(reader: StdinReader, input: InputView)
    requires
        reader.state == State::Reading,
    ensures
        ({
            let (next, step) = reader.on(input);
            &&& step is Stop <==> next.state == State::Terminated
            &&& step is Stop <==> input is EndOfStream || (input matches InputView::Line(line)
                && has_end(line))
            &&& step is Print <==> next == reader
            &&& step is Evaluate <==> next.state == State::Dispatching
        }),
{
}

/// A session keeps nothing of a line. Once a line that does not end the
/// session has been dealt with, at once or after the outcome of its request
/// has come back, the reader is the reader that it was before the line. So
/// the same line, met again, is dealt with in the same way.
pub proof fn lemma_line_leaves_no_trace(reader: StdinReader, line: Seq<char>)
    requires
        reader.state == State::Reading,
        !has_end(line),
    ensures
        ({
            let (next, step) = reader.on(InputView::Line(line));
            let after = if step is Evaluate {
                next.answered()
            } else {
                next
            };
            &&& step !is Stop
            &&& after == reader
            &&& after.on(InputView::Line(line)) == reader.on(InputView::Line(line))
        }),
{
}

} // verus!
