use calculator::command::Command;
use calculator::error::ErrorKind;
use calculator::expression::{Expression, Request};
use calculator::reader::{Input, State, StdinReader, Step, DECIMALS};

/// The operand read as a 64-bit floating-point number, as its bit pattern.
fn reading(text: &str) -> Option<u64> {
    text.parse::<f64>().ok().map(f64::to_bits)
}

fn value(e: &Expression) -> f64 {
    let (a, b) = (f64::from_bits(e.v1), f64::from_bits(e.v2));
    match e.command {
        Command::Sum => a + b,
        Command::Diff => a - b,
        Command::Mult => a * b,
        Command::Div => a / b,
    }
}

/// Gives the reader one input and does what it says. The line that is
/// written, if one is.
fn written(reader: &mut StdinReader, input: Input) -> Option<String> {
    match reader.handle(input) {
        Step::Stop => None,
        Step::Print(line) => Some(line),
        Step::Evaluate(request) => {
            assert_eq!(reader.state, State::Dispatching);
            let v1 = reading(&request.v1);
            let v2 = reading(&request.v2);
            let outcome = StdinReader::as_expression(&request, v1, v2)
                .map(|e| format!("{:.1$}", value(&e), DECIMALS));
            Some(reader.finish(outcome))
        }
    }
}

/// What a fresh session writes for one line.
fn answer(line: &str) -> Option<String> {
    written(&mut StdinReader::new(), Input::Line(line.to_string()))
}

fn answered(line: &str, expected: &str) {
    assert_eq!(answer(line).as_deref(), Some(expected), "{:?}", line);
}

#[test]
fn three_plus_four() {
    answered("3 + 4", "result: 7.00");
}

#[test]
fn ten_by_four() {
    answered("10 / 4", "result: 2.50");
}

#[test]
fn five_by_zero() {
    answered("5 / 0", "result: inf");
}

#[test]
fn three_caret_four() {
    answered("3 ^ 4", "invalid sign passed");
}

#[test]
fn three_four() {
    answered("3 4", "invalid number of input arguments!");
}

#[test]
fn a_plus_four() {
    answered("a + 4", "invalid numeric input");
}

#[test]
fn well_formed_lines() {
    answered("3 + 4\n", "result: 7.00");
    answered("3 - 4\n", "result: -1.00");
    answered("3 * 4\r\n", "result: 12.00");
    answered("1 / 3\n", "result: 0.33");
    answered("2 / 3\n", "result: 0.67");
    answered("1e2 + .5\n", "result: 100.50");
    answered("-1.25 * 2\n", "result: -2.50");
    answered("0.005 + 0.01\n", "result: 0.01");
    answered("-5 / 0\n", "result: -inf");
    answered("0 / 0\n", "result: NaN");
    answered("inf - 1\n", "result: inf");
}

#[test]
fn lines_that_are_no_requests() {
    answered("\n", "invalid number of input arguments!");
    answered("3 + 4 \n", "invalid number of input arguments!");
    answered("3  4\n", "invalid sign passed");
    answered("3 + \n", "invalid numeric input");
    answered("3 + four\n", "invalid numeric input");
    answered("x + y\n", "invalid numeric input");
    answered("1,5 + 2\n", "invalid numeric input");
}

#[test]
fn a_line_with_end_stops_in_silence() {
    for line in ["end", "append", "the end", "end\n", "3 + 4 end\n", "1 + 2end", "bend + 1"] {
        let mut reader = StdinReader::new();
        assert_eq!(reader.handle(Input::Line(line.to_string())), Step::Stop, "{:?}", line);
        assert_eq!(reader.state, State::Terminated);
    }
}

#[test]
fn the_end_of_the_stream_stops_in_silence() {
    let mut reader = StdinReader::new();
    assert_eq!(reader.handle(Input::EndOfStream), Step::Stop);
    assert_eq!(reader.state, State::Terminated);
}

#[test]
fn a_failed_read_is_reported_and_reading_goes_on() {
    let mut reader = StdinReader::new();
    assert_eq!(reader.handle(Input::ReadFailed), Step::Print("internal error!".to_string()));
    assert_eq!(reader.state, State::Reading);
    assert_eq!(
        written(&mut reader, Input::Line("3 + 4\n".to_string())).as_deref(),
        Some("result: 7.00")
    );
}

#[test]
fn results_have_two_decimals() {
    assert_eq!(DECIMALS, 2);
    answered("1 + 0.125\n", "result: 1.12");
    answered("1000000 * 1000000\n", "result: 1000000000000.00");
}

#[test]
fn a_new_reader_is_reading() {
    assert_eq!(StdinReader::new().state, State::Reading);
}

#[test]
fn a_request_is_handed_out_and_awaited() {
    let mut reader = StdinReader::new();
    let step = reader.handle(Input::Line("10 / 4\n".to_string()));
    assert_eq!(
        step,
        Step::Evaluate(Request { v1: "10".to_string(), v2: "4".to_string(), command: Command::Div })
    );
    assert_eq!(reader.state, State::Dispatching);
    assert_eq!(reader.finish(Ok("2.50".to_string())), "result: 2.50");
    assert_eq!(reader.state, State::Reading);
}

#[test]
fn an_error_is_answered_at_once() {
    let mut reader = StdinReader::new();
    let step = reader.handle(Input::Line("3 ^ 4\n".to_string()));
    assert_eq!(step, Step::Print("invalid sign passed".to_string()));
    assert_eq!(reader.state, State::Reading);
}

#[test]
fn finish_writes_the_result_or_the_error() {
    let mut reader = StdinReader { state: State::Dispatching };
    assert_eq!(reader.finish(Ok("7.00".to_string())), "result: 7.00");
    let mut reader = StdinReader { state: State::Dispatching };
    assert_eq!(reader.finish(Ok(String::new())), "result: ");
    let mut reader = StdinReader { state: State::Dispatching };
    assert_eq!(reader.finish(Err(ErrorKind::InvalidOperand)), "invalid numeric input");
    assert_eq!(reader.state, State::Reading);
}

#[test]
fn the_same_line_twice_gives_the_same_answer() {
    for line in ["3 + 4\n", "10 / 4\n", "5 / 0\n", "3 ^ 4\n", "3 4\n", "a + 4\n"] {
        let mut reader = StdinReader::new();
        let first = written(&mut reader, Input::Line(line.to_string()));
        assert_eq!(reader, StdinReader::new());
        let second = written(&mut reader, Input::Line(line.to_string()));
        assert_eq!(first, second, "{:?}", line);
        assert_eq!(reader, StdinReader::new());
    }
}

/// What is written for a line when std does the splitting, the trimming and
/// the search for `end`.
fn answer_by_std(line: &str) -> Option<String> {
    if line.contains("end") {
        return None;
    }
    let found = line.split(' ').map(|v| v.trim_end()).collect::<Vec<&str>>();
    if found.len() != 3 {
        return Some("invalid number of input arguments!".to_string());
    }
    if !["+", "-", "/", "*"].contains(&found[1]) {
        return Some("invalid sign passed".to_string());
    }
    let (v1, v2) = match (found[0].parse::<f64>(), found[2].parse::<f64>()) {
        (Ok(v1), Ok(v2)) => (v1, v2),
        _ => return Some("invalid numeric input".to_string()),
    };
    let result = match found[1] {
        "+" => v1 + v2,
        "-" => v1 - v2,
        "*" => v1 * v2,
        _ => v1 / v2,
    };
    Some(format!("result: {:.2}", result))
}

#[test]
fn lines_are_answered_as_std_would_have_it() {
    let mut lines = vec![String::new()];
    let mut last = vec![String::new()];
    for _ in 0..6 {
        let mut next = Vec::new();
        for line in &last {
            for c in ['7', ' ', '/', 'e', 'n', 'd', '\n'] {
                let mut longer = line.clone();
                longer.push(c);
                next.push(longer);
            }
        }
        lines.extend(next.iter().cloned());
        last = next;
    }
    for line in lines {
        assert_eq!(answer(&line), answer_by_std(&line), "{:?}", line);
    }
}

#[test]
fn a_whole_session() {
    let inputs = vec![
        Input::Line("3 + 4\n".to_string()),
        Input::ReadFailed,
        Input::Line("oops\n".to_string()),
        Input::Line("10 / 4\n".to_string()),
        Input::Line("the end\n".to_string()),
        Input::Line("1 + 1\n".to_string()),
    ];
    let mut reader = StdinReader::new();
    let mut lines = Vec::new();
    for input in inputs {
        if reader.state != State::Reading {
            break;
        }
        if let Some(line) = written(&mut reader, input) {
            lines.push(line);
        }
    }
    assert_eq!(reader.state, State::Terminated);
    assert_eq!(
        lines,
        vec![
            "result: 7.00",
            "internal error!",
            "invalid number of input arguments!",
            "result: 2.50",
        ]
    );
}
